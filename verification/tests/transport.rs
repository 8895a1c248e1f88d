use webhook_listener::transport::{
    BindStep, IpAddress, Location, ServerAction, ServerEvent, ServerPhase, SocketAddress,
};

const PHASES: [ServerPhase; 5] = [
    ServerPhase::Unbound,
    ServerPhase::Serving,
    ServerPhase::Draining,
    ServerPhase::Stopped,
    ServerPhase::Failed,
];

const EVENTS: [ServerEvent; 4] =
    [ServerEvent::Bound, ServerEvent::StopRequested, ServerEvent::Drained, ServerEvent::Fault];

#[test]
fn a_network_address_is_bound_directly() {
    let location =
        Location::Ip(SocketAddress { ip: IpAddress::V4(127, 0, 0, 1), port: 8443 });
    assert_eq!(location.bind_plan(), vec![BindStep::BindAddress]);
    let location = Location::Ip(SocketAddress {
        ip: IpAddress::V6(0, 0, 0, 0, 0, 0, 0, 1),
        port: 443,
    });
    assert_eq!(location.bind_plan(), vec![BindStep::BindAddress]);
}

#[test]
fn a_local_socket_is_bound_after_its_path_is_cleared() {
    let location = Location::Path(String::from("/run/bot/webhook.sock"));
    assert_eq!(
        location.bind_plan(),
        vec![BindStep::RemoveStale, BindStep::CreateParentDirs, BindStep::BindSocket]
    );
}

#[test]
fn only_the_removal_of_a_stale_file_may_fail() {
    assert!(BindStep::RemoveStale.failure_is_ignored());
    assert!(!BindStep::CreateParentDirs.failure_is_ignored());
    assert!(!BindStep::BindSocket.failure_is_ignored());
    assert!(!BindStep::BindAddress.failure_is_ignored());
}

#[test]
fn a_server_goes_from_unbound_to_stopped() {
    let phase = ServerPhase::Unbound;
    let (phase, action) = phase.step(ServerEvent::Bound);
    assert_eq!((phase, action), (ServerPhase::Serving, ServerAction::Serve));
    let (phase, action) = phase.step(ServerEvent::StopRequested);
    assert_eq!((phase, action), (ServerPhase::Draining, ServerAction::Drain));
    let (phase, action) = phase.step(ServerEvent::Drained);
    assert_eq!((phase, action), (ServerPhase::Stopped, ServerAction::Finish));
}

#[test]
fn a_fault_stops_the_pipeline_and_fails_the_server() {
    for phase in [ServerPhase::Unbound, ServerPhase::Serving, ServerPhase::Draining] {
        assert_eq!(
            phase.step(ServerEvent::Fault),
            (ServerPhase::Failed, ServerAction::StopAndFail)
        );
    }
}

#[test]
fn a_server_that_is_done_stays_as_it_is() {
    for phase in [ServerPhase::Stopped, ServerPhase::Failed] {
        for event in EVENTS {
            assert_eq!(phase.step(event), (phase, ServerAction::Nothing));
        }
    }
}

#[test]
fn a_server_event_that_is_not_due_changes_nothing() {
    let due = [
        (ServerPhase::Unbound, ServerEvent::Bound),
        (ServerPhase::Serving, ServerEvent::StopRequested),
        (ServerPhase::Draining, ServerEvent::Drained),
    ];
    for phase in PHASES {
        for event in EVENTS {
            if event == ServerEvent::Fault || due.contains(&(phase, event)) {
                continue;
            }
            assert_eq!(phase.step(event), (phase, ServerAction::Nothing), "{phase:?} {event:?}");
        }
    }
}
