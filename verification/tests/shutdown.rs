use rusty_constants::lifecycle::{Action, Coordinator, Event, Phase, ShutdownSignal};
use rusty_constants::quit;
use std::sync::mpsc;

fn serving() -> Coordinator {
    let mut coordinator = Coordinator::new();
    assert_eq!(coordinator.handle(Event::Bound), Action::Serve);
    coordinator
}

#[test]
fn test_server_shuts_down_when_signalled_via_channel() {
    let (tx_signal_to_server, rx_server_listens_for_signal) = mpsc::channel::<ShutdownSignal>();
    let app_data_sender = tx_signal_to_server.clone();

    let mut coordinator = Coordinator::new();
    assert_eq!(coordinator.handle(Event::Bound), Action::Serve);
    assert!(coordinator.is_accepting(), "Server failed to start or is not listening.");

    tx_signal_to_server
        .send(ShutdownSignal {})
        .expect("Test: Failed to send shutdown signal via MPSC channel");

    let received = rx_server_listens_for_signal.recv();
    assert_eq!(received, Ok(ShutdownSignal {}));
    assert_eq!(coordinator.handle(Event::Shutdown), Action::Drain);
    assert_eq!(coordinator.handle(Event::Drained), Action::Exit);

    assert!(
        !coordinator.is_accepting(),
        "Server is still running after shutdown signal was sent. It should have stopped."
    );
    assert_eq!(coordinator.phase(), Phase::Stopped);
    drop(app_data_sender);
}

#[test]
fn quit_handler_feeds_the_same_channel() {
    let (sender, receiver) = mpsc::channel::<ShutdownSignal>();
    let mut coordinator = serving();
    let (reply, signal) = quit();
    assert!(reply.is_success());
    sender.send(signal).unwrap();
    receiver.recv().unwrap();
    assert_eq!(coordinator.handle(Event::Shutdown), Action::Drain);
    assert_eq!(coordinator.phase(), Phase::Draining);
}

#[test]
fn new_coordinator_is_starting() {
    let coordinator = Coordinator::new();
    assert_eq!(coordinator.phase(), Phase::Starting);
    assert!(!coordinator.is_accepting());
}

#[test]
fn full_life_cycle() {
    let mut coordinator = Coordinator::new();
    assert_eq!(coordinator.handle(Event::Bound), Action::Serve);
    assert_eq!(coordinator.phase(), Phase::Serving);
    assert!(coordinator.is_accepting());
    assert_eq!(coordinator.handle(Event::Shutdown), Action::Drain);
    assert_eq!(coordinator.phase(), Phase::Draining);
    assert!(!coordinator.is_accepting());
    assert_eq!(coordinator.handle(Event::Drained), Action::Exit);
    assert_eq!(coordinator.phase(), Phase::Stopped);
    assert!(!coordinator.is_accepting());
}

#[test]
fn bind_failure_is_fatal() {
    let mut coordinator = Coordinator::new();
    assert_eq!(coordinator.handle(Event::BindFailed), Action::Abort);
    assert_eq!(coordinator.phase(), Phase::Stopped);
    for event in [Event::Bound, Event::Shutdown, Event::Drained, Event::BindFailed] {
        assert_eq!(coordinator.handle(event), Action::Ignore);
        assert_eq!(coordinator.phase(), Phase::Stopped);
    }
}

#[test]
fn second_shutdown_is_a_no_op() {
    let mut coordinator = serving();
    assert_eq!(coordinator.handle(Event::Shutdown), Action::Drain);
    assert_eq!(coordinator.handle(Event::Shutdown), Action::Ignore);
    assert_eq!(coordinator.phase(), Phase::Draining);
    assert_eq!(coordinator.handle(Event::Drained), Action::Exit);
    assert_eq!(coordinator.handle(Event::Shutdown), Action::Ignore);
    assert_eq!(coordinator.phase(), Phase::Stopped);
}

#[test]
fn many_shutdowns_drain_once() {
    let mut coordinator = serving();
    let mut drains = 0;
    let mut exits = 0;
    for event in [
        Event::Shutdown,
        Event::Shutdown,
        Event::Bound,
        Event::Shutdown,
        Event::Drained,
        Event::Shutdown,
        Event::Drained,
    ] {
        match coordinator.handle(event) {
            Action::Drain => drains += 1,
            Action::Exit => exits += 1,
            Action::Ignore => {}
            other => panic!("unexpected {:?}", other),
        }
    }
    assert_eq!(drains, 1);
    assert_eq!(exits, 1);
    assert_eq!(coordinator.phase(), Phase::Stopped);
}

#[test]
fn events_out_of_place_are_ignored() {
    let mut coordinator = Coordinator::new();
    assert_eq!(coordinator.handle(Event::Shutdown), Action::Ignore);
    assert_eq!(coordinator.handle(Event::Drained), Action::Ignore);
    assert_eq!(coordinator.phase(), Phase::Starting);
    let mut coordinator = serving();
    assert_eq!(coordinator.handle(Event::Bound), Action::Ignore);
    assert_eq!(coordinator.handle(Event::BindFailed), Action::Ignore);
    assert_eq!(coordinator.handle(Event::Drained), Action::Ignore);
    assert_eq!(coordinator.phase(), Phase::Serving);
    assert_eq!(coordinator.handle(Event::Shutdown), Action::Drain);
    assert_eq!(coordinator.handle(Event::Bound), Action::Ignore);
    assert_eq!(coordinator.handle(Event::BindFailed), Action::Ignore);
    assert_eq!(coordinator.phase(), Phase::Draining);
}
