use hello::{Channel, ChannelClosed, Message, Received};

fn job(r: Received<u32>) -> u32 {
    match r {
        Received::Message(Message::NewJob(j)) => j,
        _ => panic!("no job was received"),
    }
}

#[test]
fn new_channel_is_open_and_empty() {
    let mut c: Channel<u32> = Channel::new();
    assert_eq!(c.len(), 0);
    assert!(!c.is_closed());
    assert!(matches!(c.receive(), Received::Empty));
}

#[test]
fn channel_is_first_in_first_out() {
    let mut c: Channel<u32> = Channel::new();
    assert_eq!(c.send(Message::NewJob(1)), Ok(()));
    assert_eq!(c.send(Message::NewJob(2)), Ok(()));
    assert_eq!(c.send(Message::Terminate), Ok(()));
    assert_eq!(c.send(Message::NewJob(3)), Ok(()));
    assert_eq!(c.len(), 4);
    assert_eq!(job(c.receive()), 1);
    assert_eq!(job(c.receive()), 2);
    assert!(matches!(c.receive(), Received::Message(Message::Terminate)));
    assert_eq!(c.len(), 1);
    assert_eq!(job(c.receive()), 3);
    assert!(matches!(c.receive(), Received::Empty));
    assert_eq!(c.len(), 0);
}

#[test]
fn closed_channel_refuses_and_keeps_what_it_holds() {
    let mut c: Channel<u32> = Channel::new();
    c.send(Message::NewJob(5)).unwrap();
    c.close();
    assert!(c.is_closed());
    assert_eq!(c.send(Message::NewJob(6)), Err(ChannelClosed));
    assert_eq!(c.send(Message::Terminate), Err(ChannelClosed));
    assert_eq!(c.len(), 1);
    assert_eq!(job(c.receive()), 5);
    assert!(matches!(c.receive(), Received::Disconnected));
    assert!(matches!(c.receive(), Received::Disconnected));
}
