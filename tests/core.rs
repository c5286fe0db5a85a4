use disk_tray::dispatch::{
    next_source, notice_body, operations_for, unit_name, Intent, IntentRun, Operation, Phase,
    Source, Step, Unit, DRIVE_ICON, MANAGE_UNITS_ACTION,
};
use disk_tray::jobs::PendingJobs;
use disk_tray::state::{str_eq, State};
use disk_tray::tracker::TrackedUnit;

#[test]
fn classify_known_tokens() {
    assert_eq!(State::classify("mounted"), Some(State::Mounted));
    assert_eq!(State::classify("mounting-done"), Some(State::Mounted));
    assert_eq!(State::classify("mounting"), Some(State::Mounting));
    assert_eq!(State::classify("unmounting"), Some(State::Unmounting));
    assert_eq!(State::classify("dead"), Some(State::Dead));
    assert_eq!(State::classify("waiting"), Some(State::Waiting));
    assert_eq!(State::classify("running"), Some(State::Running));
    assert_eq!(State::classify("failed"), Some(State::Failed));
}

#[test]
fn classify_rejects_unknown_tokens() {
    assert_eq!(State::classify(""), None);
    assert_eq!(State::classify("active"), None);
    assert_eq!(State::classify("Mounted"), None);
    assert_eq!(State::classify("mounted "), None);
    assert_eq!(State::classify("mount"), None);
}

#[test]
fn from_substates_known_tokens() {
    assert_eq!(State::from_substates("mounting-done"), State::Mounted);
    assert_eq!(State::from_substates("failed"), State::Failed);
    assert_eq!(State::from_substates("waiting"), State::Waiting);
}

#[test]
fn str_eq_compares_characters() {
    assert!(str_eq("dead", "dead"));
    assert!(!str_eq("dead", "deaf"));
    assert!(!str_eq("dead", "dea"));
    assert!(str_eq("", ""));
}

#[test]
fn unchanged_status_emits_nothing() {
    let mut unit = TrackedUnit::new("data.mount".to_string(), State::Dead);
    let emitted = unit.observe_all(&vec![State::Dead, State::Dead, State::Dead]);
    assert!(emitted.is_empty());
    assert_eq!(unit.last, State::Dead);
    assert_eq!(unit.observe(State::Dead), None);
}

#[test]
fn alternating_status_emits_two_transitions() {
    let mut unit = TrackedUnit::new("data.mount".to_string(), State::Mounted);
    let emitted = unit.observe_all(&vec![
        State::Unmounting,
        State::Unmounting,
        State::Mounted,
        State::Mounted,
    ]);
    assert_eq!(emitted, vec![State::Unmounting, State::Mounted]);
    assert_eq!(unit.last, State::Mounted);
}

#[test]
fn observe_updates_memo_on_every_classification() {
    let mut unit = TrackedUnit::new("data.automount".to_string(), State::Waiting);
    assert_eq!(unit.observe(State::Running), Some(State::Running));
    assert_eq!(unit.last, State::Running);
    assert_eq!(unit.observe(State::Running), None);
    assert_eq!(unit.observe(State::Waiting), Some(State::Waiting));
    assert_eq!(unit.name, "data.automount");
}

#[test]
fn observe_token_classifies_then_dedups() {
    let mut unit = TrackedUnit::new("data.mount".to_string(), State::Mounted);
    assert_eq!(unit.observe_token("mounting-done"), None);
    assert_eq!(unit.observe_token("unmounting"), Some(State::Unmounting));
    assert_eq!(unit.last, State::Unmounting);
}

#[test]
fn initial_dead_then_automount_waiting() {
    let mut mount = TrackedUnit::new("data.mount".to_string(), State::from_substates("dead"));
    let mut automount =
        TrackedUnit::new("data.automount".to_string(), State::from_substates("dead"));
    assert_eq!((mount.last, automount.last), (State::Dead, State::Dead));
    let emitted = automount.observe_token("waiting");
    assert_eq!(emitted, Some(State::Waiting));
    assert_eq!((mount.last, automount.last), (State::Dead, State::Waiting));
    assert_eq!(mount.observe_token("dead"), None);
}

#[test]
fn unrelated_finished_jobs_are_noise() {
    let mut pending = PendingJobs::new(vec!["/job/7".to_string()]);
    for id in ["/job/1", "/job/2", "/job/3", "/job/70"] {
        assert!(!pending.on_job_removed(&id.to_string()));
        assert!(!pending.is_done());
    }
    assert!(pending.on_job_removed(&"/job/7".to_string()));
    assert!(pending.is_done());
    assert!(!pending.on_job_removed(&"/job/8".to_string()));
    assert!(pending.is_done());
}

#[test]
fn join_waits_for_both_jobs() {
    let mut pending = PendingJobs::new(vec!["/job/a".to_string(), "/job/m".to_string()]);
    assert!(pending.on_job_removed(&"/job/m".to_string()));
    assert!(!pending.is_done());
    assert!(!pending.on_job_removed(&"/job/x".to_string()));
    assert!(!pending.is_done());
    assert!(pending.on_job_removed(&"/job/a".to_string()));
    assert!(pending.is_done());
}

#[test]
fn empty_join_is_done() {
    let pending = PendingJobs::new(vec![]);
    assert!(pending.is_done());
}

#[test]
fn state_changes_come_before_intents() {
    assert_eq!(next_source(true, true, true), Some(Source::MountChange));
    assert_eq!(next_source(false, true, true), Some(Source::AutomountChange));
    assert_eq!(next_source(true, false, true), Some(Source::MountChange));
    assert_eq!(next_source(false, false, true), Some(Source::UserIntent));
    assert_eq!(next_source(false, false, false), None);
}

#[test]
fn denied_intent_has_no_effect() {
    let (mut run, first) = IntentRun::new(Intent::PrepareDisconnect);
    assert_eq!(first, Step::Authorize);
    assert_eq!(run.on_authorization(false), Step::Finished);
    assert_eq!(run.current_phase(), Phase::Finished);
    assert_eq!(run.current_intent(), Intent::PrepareDisconnect);
    let (mut run, _) = IntentRun::new(Intent::EnableAutomounting);
    assert_eq!(run.on_authorization(false), Step::Finished);
}

#[test]
fn enable_automounting_completes_on_its_own_job() {
    let (mut run, first) = IntentRun::new(Intent::EnableAutomounting);
    assert_eq!(first, Step::Authorize);
    assert_eq!(run.on_authorization(true), Step::Subscribe);
    assert_eq!(run.on_subscribed(), Step::Issue(Operation::Start(Unit::Automount)));
    assert_eq!(run.on_issued("J1".to_string()), Step::AwaitJobs);
    assert_eq!(run.on_job_removed(&"J0".to_string()), Step::AwaitJobs);
    assert_eq!(
        run.on_job_removed(&"J1".to_string()),
        Step::Notify(Intent::EnableAutomounting)
    );
    assert_eq!(run.on_notified(), Step::Finished);
    assert_eq!(run.current_phase(), Phase::Finished);
}

#[test]
fn disconnect_notifies_only_after_both_stops() {
    let (mut run, _) = IntentRun::new(Intent::PrepareDisconnect);
    assert_eq!(run.on_authorization(true), Step::Subscribe);
    assert_eq!(run.on_subscribed(), Step::Issue(Operation::Stop(Unit::Automount)));
    assert_eq!(run.on_issued("/job/10".to_string()), Step::Issue(Operation::Stop(Unit::Mount)));
    assert_eq!(run.current_phase(), Phase::Issuing);
    assert_eq!(run.on_issued("/job/11".to_string()), Step::AwaitJobs);
    assert_eq!(run.current_phase(), Phase::Waiting);
    assert_eq!(run.on_job_removed(&"/job/9".to_string()), Step::AwaitJobs);
    assert_eq!(run.on_job_removed(&"/job/11".to_string()), Step::AwaitJobs);
    assert_eq!(run.on_job_removed(&"/job/12".to_string()), Step::AwaitJobs);
    assert_eq!(
        run.on_job_removed(&"/job/10".to_string()),
        Step::Notify(Intent::PrepareDisconnect)
    );
    assert_eq!(run.on_notified(), Step::Finished);
}

#[test]
fn operations_of_each_intent() {
    assert_eq!(
        operations_for(Intent::PrepareDisconnect),
        vec![Operation::Stop(Unit::Automount), Operation::Stop(Unit::Mount)]
    );
    assert_eq!(
        operations_for(Intent::EnableAutomounting),
        vec![Operation::Start(Unit::Automount)]
    );
}

#[test]
fn unit_names_and_texts() {
    assert_eq!(unit_name("media-data", Unit::Mount), "media-data.mount");
    assert_eq!(unit_name("media-data", Unit::Automount), "media-data.automount");
    assert_eq!(notice_body(Intent::PrepareDisconnect), "Drive has been fully unmounted");
    assert_eq!(notice_body(Intent::EnableAutomounting), "Automounting has been enabled");
    assert_eq!(MANAGE_UNITS_ACTION, "org.freedesktop.systemd1.manage-units");
    assert_eq!(DRIVE_ICON, "drive-harddisk");
}
