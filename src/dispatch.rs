//! Decisions of the event loop: which ready source is served, and the steps
//! through which one user intent is carried out.
use vstd::prelude::*;
use crate::jobs::{PendingJobs, all_matched};

verus! {

/// The permission that every user intent is checked against.
pub const MANAGE_UNITS_ACTION: &'static str = "org.freedesktop.systemd1.manage-units";

/// The icon of the applet and of its notices.
pub const DRIVE_ICON: &'static str = "drive-harddisk";

/// The two tracked units.
#[derive(Debug, Clone, Copy, PartialEq, Eq, Structural)]
pub enum Unit {
    Mount,
    Automount,
}

/// What the user asked for from the menu.
#[derive(Debug, Clone, Copy, PartialEq, Eq, Structural)]
pub enum Intent {
    PrepareDisconnect,
    EnableAutomounting,
}

/// An operation issued against a unit.
#[derive(Debug, Clone, Copy, PartialEq, Eq, Structural)]
pub enum Operation {
    Start(Unit),
    Stop(Unit),
}

/// The event sources of the loop.
#[derive(Debug, Clone, Copy, PartialEq, Eq, Structural)]
pub enum Source {
    MountChange,
    AutomountChange,
    UserIntent,
}

/// The first ready source in the fixed order: mount changes, automount
/// changes, user intents.
pub open spec fn first_ready(mount: bool, automount: bool, intent: bool) -> Option<Source> {
    if mount {
        Some(Source::MountChange)
    } else if automount {
        Some(Source::AutomountChange)
    } else if intent {
        Some(Source::UserIntent)
    } else {
        None
    }
}

/// Picks the source to serve among those that are ready. A state change is
/// always served before a user intent that is ready at the same time.
pub fn next_source(mount_ready: bool, automount_ready: bool, intent_ready: bool) -> (r: Option<
    Source,
>)
    ensures
        r == first_ready(mount_ready, automount_ready, intent_ready),
        (mount_ready || automount_ready) ==> r != Some(Source::UserIntent),
        r is None <==> !(mount_ready || automount_ready || intent_ready),
{
    if mount_ready {
        Some(Source::MountChange)
    } else if automount_ready {
        Some(Source::AutomountChange)
    } else if intent_ready {
        Some(Source::UserIntent)
    } else {
        None
    }
}

/// The unit name suffix of a tracked unit.
pub open spec fn unit_suffix(unit: Unit) -> Seq<char> {
    match unit {
        Unit::Mount => ".mount"@,
        Unit::Automount => ".automount"@,
    }
}

/// The service manager's name of a tracked unit: the base name followed by
/// the unit's suffix.
pub fn unit_name(base: &str, unit: Unit) -> (r: String)
    ensures
        r@ == base@ + unit_suffix(unit),
{
    let mut name = String::from_str(base);
    match unit {
        Unit::Mount => name.append(".mount"),
        Unit::Automount => name.append(".automount"),
    }
    name
}

/// The operations that carry out an intent.
pub open spec fn operations_of(intent: Intent) -> Seq<Operation> {
    match intent {
        Intent::PrepareDisconnect => seq![
            Operation::Stop(Unit::Automount),
            Operation::Stop(Unit::Mount),
        ],
        Intent::EnableAutomounting => seq![Operation::Start(Unit::Automount)],
    }
}

/// The operations that carry out an intent.
pub fn operations_for(intent: Intent) -> (r: Vec<Operation>)
    ensures
        r@ == operations_of(intent),
{
    match intent {
        Intent::PrepareDisconnect => vec![
            Operation::Stop(Unit::Automount),
            Operation::Stop(Unit::Mount),
        ],
        Intent::EnableAutomounting => vec![Operation::Start(Unit::Automount)],
    }
}

/// The body of the notice shown once an intent has been carried out.
pub open spec fn notice_of(intent: Intent) -> Seq<char> {
    match intent {
        Intent::PrepareDisconnect => "Drive has been fully unmounted"@,
        Intent::EnableAutomounting => "Automounting has been enabled"@,
    }
}

/// The body of the notice shown once an intent has been carried out.
pub fn notice_body(intent: Intent) -> (r: &'static str)
    ensures
        r@ == notice_of(intent),
{
    match intent {
        Intent::PrepareDisconnect => "Drive has been fully unmounted",
        Intent::EnableAutomounting => "Automounting has been enabled",
    }
}

/// What the loop is to do next for an intent in progress.
#[derive(Debug, Clone, Copy, PartialEq, Eq, Structural)]
pub enum Step {
    /// Ask the authority whether the intent may be carried out.
    Authorize,
    /// Subscribe to the finished-job events.
    Subscribe,
    /// Issue the operation and report its job identifier.
    Issue(Operation),
    /// Report the next finished-job event.
    AwaitJobs,
    /// Show the completion notice of the intent.
    Notify(Intent),
    /// Nothing is left to do; go back to listening.
    Finished,
}

/// Where an intent in progress stands.
#[derive(Debug, Clone, Copy, PartialEq, Eq, Structural)]
pub enum Phase {
    Authorizing,
    Subscribing,
    Issuing,
    Waiting,
    Notifying,
    Finished,
}

/// One user intent being carried out: authorization first, then the
/// subscription to finished-job events, then its operations, then the wait
/// until every issued job has finished, then the notice.
pub struct IntentRun {
    intent: Intent,
    phase: Phase,
    ops: Vec<Operation>,
    issued: Vec<String>,
    pending: PendingJobs,
}

impl IntentRun {
    pub closed spec fn intent(&self) -> Intent {
        self.intent
    }

    pub closed spec fn phase(&self) -> Phase {
        self.phase
    }

    /// The job identifiers of the operations issued so far, in order.
    pub closed spec fn issued(&self) -> Seq<Seq<char>> {
        self.issued@.map_values(|s: String| s@)
    }

    /// The finished-job events consumed while waiting.
    pub closed spec fn seen(&self) -> Seq<Seq<char>> {
        self.pending.seen()
    }

    pub closed spec fn wf(&self) -> bool {
        &&& self.ops@ == operations_of(self.intent)
        &&& self.pending.wf()
        &&& self.issued@.len() <= self.ops@.len()
        &&& (self.phase == Phase::Authorizing || self.phase == Phase::Subscribing) ==> self.issued@.len() == 0
        &&& self.phase == Phase::Issuing ==> self.issued@.len() < self.ops@.len()
        &&& (self.phase == Phase::Waiting || self.phase == Phase::Notifying) ==> {
            &&& self.issued@.len() == self.ops@.len()
            &&& self.pending.jobs() == self.issued()
        }
        &&& self.phase == Phase::Waiting ==> !all_matched(self.pending.jobs(), self.pending.seen())
        &&& self.phase == Phase::Notifying ==> all_matched(self.pending.jobs(), self.pending.seen())
        &&& self.phase != Phase::Waiting && self.phase != Phase::Notifying ==> self.pending.seen().len() == 0
    }

    /// Where the intent stands.
    pub fn current_phase(&self) -> (r: Phase)
        ensures
            r == self.phase(),
    {
        self.phase
    }

    /// The intent being carried out.
    pub fn current_intent(&self) -> (r: Intent)
        ensures
            r == self.intent(),
    {
        self.intent
    }

    /// Takes up an intent: its first step is always to ask for authorization.
    pub fn new(intent: Intent) -> (r: (IntentRun, Step))
        ensures
            r.0.wf(),
            r.0.intent() == intent,
            r.0.phase() == Phase::Authorizing,
            r.0.issued().len() == 0,
            r.1 == Step::Authorize,
    {
        let run = IntentRun {
            intent,
            phase: Phase::Authorizing,
            ops: operations_for(intent),
            issued: Vec::new(),
            pending: PendingJobs::new(Vec::new()),
        };
        (run, Step::Authorize)
    }

    /// Takes the authority's decision. A denial ends the intent at once: no
    /// operation is issued and no notice is shown.
    pub fn on_authorization(&mut self, authorized: bool) -> (next: Step)
        requires
            old(self).wf(),
            old(self).phase() == Phase::Authorizing,
        ensures
            final(self).wf(),
            final(self).intent() == old(self).intent(),
            final(self).issued().len() == 0,
            authorized ==> final(self).phase() == Phase::Subscribing && next == Step::Subscribe,
            !authorized ==> final(self).phase() == Phase::Finished && next == Step::Finished,
    {
        if authorized {
            self.phase = Phase::Subscribing;
            Step::Subscribe
        } else {
            self.phase = Phase::Finished;
            Step::Finished
        }
    }

    /// The subscription to finished-job events stands: the first operation
    /// is issued only now.
    pub fn on_subscribed(&mut self) -> (next: Step)
        requires
            old(self).wf(),
            old(self).phase() == Phase::Subscribing,
        ensures
            final(self).wf(),
            final(self).intent() == old(self).intent(),
            final(self).phase() == Phase::Issuing,
            final(self).issued().len() == 0,
            next == Step::Issue(operations_of(old(self).intent())[0]),
    {
        self.phase = Phase::Issuing;
        Step::Issue(self.ops[0])
    }

    /// An operation was accepted with the given job identifier. The next
    /// operation is issued, or, once all are, the wait for their jobs begins.
    pub fn on_issued(&mut self, job: String) -> (next: Step)
        requires
            old(self).wf(),
            old(self).phase() == Phase::Issuing,
        ensures
            final(self).wf(),
            final(self).intent() == old(self).intent(),
            final(self).issued() == old(self).issued().push(job@),
            final(self).seen().len() == 0,
            final(self).issued().len() < operations_of(old(self).intent()).len() ==> {
                &&& final(self).phase() == Phase::Issuing
                &&& next == Step::Issue(
                    operations_of(old(self).intent())[final(self).issued().len() as int],
                )
            },
            final(self).issued().len() == operations_of(old(self).intent()).len() ==> {
                &&& final(self).phase() == Phase::Waiting
                &&& next == Step::AwaitJobs
            },
    {
        let ghost job_view = job@;
        self.issued.push(job);
        proof {
            assert(self.issued() =~= old(self).issued().push(job_view));
        }
        let n = self.issued.len();
        if n < self.ops.len() {
            Step::Issue(self.ops[n])
        } else {
            let mut copy: Vec<String> = Vec::new();
            let mut i: usize = 0;
            while i < n
                invariant
                    n == self.issued@.len(),
                    i <= n,
                    copy@.len() == i,
                    forall|k: int| 0 <= k < i ==> copy@[k]@ == self.issued@[k]@,
                decreases n - i,
            {
                let s = self.issued[i].clone();
                copy.push(s);
                i = i + 1;
            }
            let pending = PendingJobs::new(copy);
            assert(pending.jobs() =~= self.issued());
            proof {
                assert(pending.jobs().len() > 0);
                assert(!pending.seen().contains(pending.jobs()[0]));
            }
            self.pending = pending;
            self.phase = Phase::Waiting;
            Step::AwaitJobs
        }
    }

    /// Takes one finished-job event while waiting. The notice is due exactly
    /// when every issued job has been matched by an event of its own
    /// identifier; events of other jobs are passed over.
    pub fn on_job_removed(&mut self, finished: &String) -> (next: Step)
        requires
            old(self).wf(),
            old(self).phase() == Phase::Waiting,
        ensures
            final(self).wf(),
            final(self).intent() == old(self).intent(),
            final(self).issued() == old(self).issued(),
            final(self).seen() == old(self).seen().push(finished@),
            all_matched(old(self).issued(), final(self).seen()) ==> {
                &&& final(self).phase() == Phase::Notifying
                &&& next == Step::Notify(old(self).intent())
            },
            !all_matched(old(self).issued(), final(self).seen()) ==> {
                &&& final(self).phase() == Phase::Waiting
                &&& next == Step::AwaitJobs
            },
    {
        self.pending.on_job_removed(finished);
        if self.pending.is_done() {
            self.phase = Phase::Notifying;
            Step::Notify(self.intent)
        } else {
            Step::AwaitJobs
        }
    }

    /// A disconnect reaches its notice only once the stop jobs of both units
    /// have each been matched by a finished-job event of their own.
    pub proof fn lemma_disconnect_notice_needs_both(&self)
        requires
            self.wf(),
            self.intent() == Intent::PrepareDisconnect,
            self.phase() == Phase::Notifying,
        ensures
            self.issued().len() == 2,
            self.seen().contains(self.issued()[0]),
            self.seen().contains(self.issued()[1]),
    {
        crate::jobs::lemma_join_needs_both(self.issued()[0], self.issued()[1], self.seen());
        assert(self.issued() =~= seq![self.issued()[0], self.issued()[1]]);
    }

    /// The notice has been shown; the intent is done.
    pub fn on_notified(&mut self) -> (next: Step)
        requires
            old(self).wf(),
            old(self).phase() == Phase::Notifying,
        ensures
            final(self).wf(),
            final(self).intent() == old(self).intent(),
            final(self).phase() == Phase::Finished,
            next == Step::Finished,
    {
        self.phase = Phase::Finished;
        self.pending = PendingJobs::new(Vec::new());
        Step::Finished
    }
}

} // verus!
