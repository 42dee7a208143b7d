use hello::{Action, Message, Received, Worker, WorkerState};

#[test]
fn fresh_worker_is_idle() {
    let w = Worker::new(3);
    assert_eq!(w.id(), 3);
    assert_eq!(w.state(), WorkerState::Idle);
    assert!(!w.is_joined());
}

#[test]
fn job_makes_worker_execute_until_completion() {
    let mut w = Worker::new(0);
    assert!(matches!(w.on_received(Received::Message(Message::NewJob(9u8))), Action::Run(9)));
    assert_eq!(w.state(), WorkerState::Executing);
    w.on_completed();
    assert_eq!(w.state(), WorkerState::Idle);
    assert_eq!(w.id(), 0);
}

#[test]
fn empty_channel_keeps_worker_idle() {
    let mut w = Worker::new(1);
    assert!(matches!(w.on_received(Received::<u8>::Empty), Action::Wait));
    assert_eq!(w.state(), WorkerState::Idle);
}

#[test]
fn terminate_ends_worker() {
    let mut w = Worker::new(1);
    assert!(matches!(w.on_received(Received::<u8>::Message(Message::Terminate)), Action::Exit));
    assert_eq!(w.state(), WorkerState::Terminated);
    w.on_completed();
    assert_eq!(w.state(), WorkerState::Terminated);
}

#[test]
fn disconnect_ends_worker() {
    let mut w = Worker::new(2);
    assert!(matches!(w.on_received(Received::<u8>::Disconnected), Action::Exit));
    assert_eq!(w.state(), WorkerState::Terminated);
}

#[test]
fn join_is_recorded() {
    let mut w = Worker::new(2);
    let _ = w.on_received(Received::<u8>::Disconnected);
    w.on_joined();
    assert!(w.is_joined());
    assert_eq!(w.state(), WorkerState::Terminated);
    assert_eq!(w.id(), 2);
}
