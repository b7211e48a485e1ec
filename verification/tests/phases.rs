use rosie::invocation::Phase;

#[test]
fn successful_steps_lead_to_completed() {
    assert_eq!(Phase::Idle.advanced(), Phase::Loading);
    assert_eq!(Phase::Loading.advanced(), Phase::Initializing);
    assert_eq!(Phase::Initializing.advanced(), Phase::Invoking);
    assert_eq!(Phase::Invoking.advanced(), Phase::Completed);
}

#[test]
fn working_phases_can_fail() {
    assert_eq!(Phase::Loading.failed(), Phase::Failed);
    assert_eq!(Phase::Initializing.failed(), Phase::Failed);
    assert_eq!(Phase::Invoking.failed(), Phase::Failed);
}

#[test]
fn idle_invocation_cannot_fail() {
    assert_eq!(Phase::Idle.failed(), Phase::Idle);
}

#[test]
fn finished_phases_do_not_move() {
    assert_eq!(Phase::Completed.advanced(), Phase::Completed);
    assert_eq!(Phase::Completed.failed(), Phase::Completed);
    assert_eq!(Phase::Failed.advanced(), Phase::Failed);
    assert_eq!(Phase::Failed.failed(), Phase::Failed);
}

#[test]
fn only_completed_and_failed_are_finished() {
    assert!(Phase::Completed.finished());
    assert!(Phase::Failed.finished());
    assert!(!Phase::Idle.finished());
    assert!(!Phase::Loading.finished());
    assert!(!Phase::Initializing.finished());
    assert!(!Phase::Invoking.finished());
}
