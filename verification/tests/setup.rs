use webhook_listener::setup::{SetupAction, SetupEvent, SetupPhase};

const PHASES: [SetupPhase; 6] = [
    SetupPhase::Idle,
    SetupPhase::Registering,
    SetupPhase::Active,
    SetupPhase::Deregistering,
    SetupPhase::Finished,
    SetupPhase::Failed,
];

const EVENTS: [SetupEvent; 6] = [
    SetupEvent::Start,
    SetupEvent::Registered,
    SetupEvent::RegisterFailed,
    SetupEvent::Stopped,
    SetupEvent::Deregistered,
    SetupEvent::DeregisterFailed,
];

fn run(events: &[SetupEvent]) -> (SetupPhase, Vec<SetupAction>) {
    let mut phase = SetupPhase::Idle;
    let mut actions = Vec::new();
    for event in events {
        let (next, action) = phase.step(*event);
        phase = next;
        actions.push(action);
    }
    (phase, actions)
}

#[test]
fn a_webhook_is_registered_served_and_deregistered() {
    let (phase, actions) = run(&[
        SetupEvent::Start,
        SetupEvent::Registered,
        SetupEvent::Stopped,
        SetupEvent::Deregistered,
    ]);
    assert_eq!(phase, SetupPhase::Finished);
    assert_eq!(
        actions,
        vec![
            SetupAction::Register,
            SetupAction::Serve,
            SetupAction::Deregister,
            SetupAction::Nothing
        ]
    );
}

#[test]
fn a_failed_registration_fails_the_start() {
    let (phase, actions) = run(&[
        SetupEvent::Start,
        SetupEvent::RegisterFailed,
        SetupEvent::Registered,
        SetupEvent::Stopped,
    ]);
    assert_eq!(phase, SetupPhase::Failed);
    assert_eq!(
        actions,
        vec![SetupAction::Register, SetupAction::Fail, SetupAction::Nothing, SetupAction::Nothing]
    );
}

#[test]
fn a_failed_deregistration_is_logged_and_goes_no_further() {
    let (phase, actions) = run(&[
        SetupEvent::Start,
        SetupEvent::Registered,
        SetupEvent::Stopped,
        SetupEvent::DeregisterFailed,
    ]);
    assert_eq!(phase, SetupPhase::Finished);
    assert_eq!(actions.last(), Some(&SetupAction::LogFailure));
}

#[test]
fn deregistration_is_asked_for_once_however_often_the_stop_is_seen() {
    let (_, actions) = run(&[
        SetupEvent::Start,
        SetupEvent::Registered,
        SetupEvent::Stopped,
        SetupEvent::Stopped,
        SetupEvent::Deregistered,
        SetupEvent::Stopped,
        SetupEvent::Start,
        SetupEvent::Registered,
        SetupEvent::Stopped,
    ]);
    let asked = actions.iter().filter(|action| **action == SetupAction::Deregister).count();
    assert_eq!(asked, 1);
}

#[test]
fn a_setup_event_that_is_not_due_changes_nothing() {
    let due = [
        (SetupPhase::Idle, SetupEvent::Start),
        (SetupPhase::Registering, SetupEvent::Registered),
        (SetupPhase::Registering, SetupEvent::RegisterFailed),
        (SetupPhase::Active, SetupEvent::Stopped),
        (SetupPhase::Deregistering, SetupEvent::Deregistered),
        (SetupPhase::Deregistering, SetupEvent::DeregisterFailed),
    ];
    for phase in PHASES {
        for event in EVENTS {
            if due.contains(&(phase, event)) {
                continue;
            }
            assert_eq!(phase.step(event), (phase, SetupAction::Nothing), "{phase:?} {event:?}");
        }
    }
}
