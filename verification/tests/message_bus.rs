use ytarchive_manager::module::recorder::{RecorderState, VideoStatus};
use ytarchive_manager::module::{Message, Task};
use ytarchive_manager::msgbus::{MessageBus, Payload, Received, SendError};
use ytarchive_manager::time::Timestamp;

#[derive(Debug, PartialEq, Eq)]
struct Number(u32);

impl Payload for Number {
    fn duplicate(&self) -> Self {
        Number(self.0)
    }
}

#[test]
fn every_consumer_gets_every_message_in_order() {
    let mut bus: MessageBus<Number> = MessageBus::new(8);
    let tx = bus.add_tx();
    let a = bus.add_rx();
    let b = bus.add_rx();
    assert_eq!(a.number, 0);
    assert_eq!(b.number, 1);
    for n in 1..=3 {
        assert_eq!(tx.send(&mut bus, Number(n)), Ok(()));
    }
    assert_eq!(bus.recv(&a), Received::Empty);
    assert!(bus.start());
    for rx in [&a, &b] {
        assert_eq!(bus.recv(rx), Received::Message(Number(1)));
        assert_eq!(bus.recv(rx), Received::Message(Number(2)));
        assert_eq!(bus.recv(rx), Received::Message(Number(3)));
        assert_eq!(bus.recv(rx), Received::Empty);
    }
}

#[test]
fn a_consumer_gets_what_is_published_after_it_subscribed() {
    let mut bus: MessageBus<Number> = MessageBus::new(8);
    let tx = bus.add_tx();
    let early = bus.add_rx();
    assert_eq!(tx.send(&mut bus, Number(1)), Ok(()));
    assert!(bus.start());
    let late = bus.add_rx();
    assert_eq!(tx.send(&mut bus, Number(2)), Ok(()));
    assert!(bus.start());
    assert_eq!(bus.recv(&early), Received::Message(Number(1)));
    assert_eq!(bus.recv(&early), Received::Message(Number(2)));
    assert_eq!(bus.recv(&late), Received::Message(Number(2)));
    assert_eq!(bus.recv(&late), Received::Empty);
}

#[test]
fn a_consumer_that_has_gone_is_passed_over() {
    let mut bus: MessageBus<Number> = MessageBus::new(1);
    let tx = bus.add_tx();
    let gone = bus.add_rx();
    let stays = bus.add_rx();
    assert_eq!(tx.send(&mut bus, Number(1)), Ok(()));
    assert!(bus.start());
    bus.drop_rx(gone);
    assert_eq!(bus.recv(&stays), Received::Message(Number(1)));
    assert_eq!(tx.send(&mut bus, Number(2)), Ok(()));
    assert!(bus.start());
    assert_eq!(tx.send(&mut bus, Number(3)), Ok(()));
    assert_eq!(bus.recv(&stays), Received::Message(Number(2)));
    assert!(bus.start());
    assert_eq!(bus.recv(&stays), Received::Message(Number(3)));
    assert!(!bus.is_closed());
}

#[test]
fn a_full_queue_stops_the_bus() {
    let mut bus: MessageBus<Number> = MessageBus::new(2);
    let tx = bus.add_tx();
    let quick = bus.add_rx();
    let slow = bus.add_rx();
    let last = bus.add_rx();
    assert_eq!(tx.send(&mut bus, Number(1)), Ok(()));
    assert_eq!(tx.send(&mut bus, Number(2)), Ok(()));
    assert_eq!(tx.send(&mut bus, Number(3)), Err(SendError::Full(Number(3))));
    assert!(bus.start());
    assert_eq!(bus.recv(&quick), Received::Message(Number(1)));
    assert_eq!(bus.recv(&quick), Received::Message(Number(2)));
    assert_eq!(bus.recv(&last), Received::Message(Number(1)));
    assert_eq!(tx.send(&mut bus, Number(3)), Ok(()));
    assert_eq!(tx.send(&mut bus, Number(4)), Ok(()));
    assert!(!bus.start());
    assert!(bus.is_closed());
    assert_eq!(bus.recv(&quick), Received::Message(Number(3)));
    assert_eq!(bus.recv(&quick), Received::Closed);
    assert_eq!(bus.recv(&slow), Received::Message(Number(1)));
    assert_eq!(bus.recv(&slow), Received::Message(Number(2)));
    assert_eq!(bus.recv(&slow), Received::Closed);
    assert_eq!(bus.recv(&last), Received::Message(Number(2)));
    assert_eq!(bus.recv(&last), Received::Closed);
    assert_eq!(tx.send(&mut bus, Number(5)), Err(SendError::Closed(Number(5))));
    assert_eq!(tx.close(&mut bus), Err(SendError::Closed(())));
}

#[test]
fn close_ends_every_stream() {
    let mut bus: MessageBus<Number> = MessageBus::new(4);
    let tx = bus.add_tx();
    let other = tx.clone();
    let rx = bus.add_rx();
    assert_eq!(tx.send(&mut bus, Number(1)), Ok(()));
    assert_eq!(other.close(&mut bus), Ok(()));
    assert_eq!(tx.send(&mut bus, Number(2)), Ok(()));
    assert!(!bus.start());
    assert_eq!(bus.recv(&rx), Received::Message(Number(1)));
    assert_eq!(bus.recv(&rx), Received::Closed);
    assert!(!bus.start());
}

#[test]
fn a_stranger_receives_nothing() {
    let mut bus: MessageBus<Number> = MessageBus::new(4);
    let mut other: MessageBus<Number> = MessageBus::new(4);
    let _first = other.add_rx();
    let stranger = other.add_rx();
    let _mine = bus.add_rx();
    assert_eq!(bus.recv(&stranger), Received::Closed);
}

#[test]
fn messages_are_duplicated_whole() {
    let mut bus: MessageBus<Message> = MessageBus::new(4);
    let tx = bus.add_tx();
    let a = bus.add_rx();
    let b = bus.add_rx();
    let task = Task {
        title: "t".to_string(),
        video_id: "v".to_string(),
        video_picture: "p".to_string(),
        channel_name: "c".to_string(),
        channel_id: "i".to_string(),
        channel_picture: None,
        output_directory: "o".to_string(),
        recorder: "yt-dlp".to_string(),
    };
    assert!(tx.send(&mut bus, Message::ToRecord(task.clone())).is_ok());
    assert!(bus.start());
    for rx in [&a, &b] {
        match bus.recv(rx) {
            Received::Message(Message::ToRecord(t)) => {
                assert_eq!(format!("{:?}", t), format!("{:?}", task));
            }
            other => panic!("unexpected: {:?}", other),
        }
    }
    let status = VideoStatus::new_at(Timestamp { seconds: 1, nanos: 2 });
    assert_eq!(status.state, RecorderState::Idle);
    assert_eq!(format!("{:?}", status.clone()), format!("{:?}", status));
}
