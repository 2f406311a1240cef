use std::cell::RefCell;
use std::rc::Rc;

use rust_mqtt_chat::app::LoopStep;
use rust_mqtt_chat::crypto::magic_crypt::{MagicCrypt, MagicDecrypt, MagicEncrypt};
use rust_mqtt_chat::crypto::{Decrypt, Encrypt};
use rust_mqtt_chat::error::Error;
use rust_mqtt_chat::events_publisher::mqtt::MqttEventsPublisher;
use rust_mqtt_chat::events_publisher::EventsPublisher;
use rust_mqtt_chat::events_reader::mqtt::MqttEventsReader;
use rust_mqtt_chat::network::{
    make_publish_topic, make_subscription_topic, NetworkEvent, TOPIC_PREFIX,
};
use rust_mqtt_chat::queue::consumer::{text_of, Consumer};
use rust_mqtt_chat::queue::publisher::Publisher;
use rust_mqtt_chat::queue::queue_backend::BackendMessage;
use rust_mqtt_chat::queue::{receive_outcome, QueueEvent};
use rust_mqtt_chat::renderer::{Message, Timestamp};

/// A cipher that leaves every payload as it is.
struct Identity;

impl Decrypt for Identity {
    fn decrypt(&self, data: &[u8]) -> Result<Vec<u8>, Error> {
        Ok(data.to_vec())
    }
}

type NetworkLog = Rc<RefCell<Vec<NetworkEvent>>>;

fn read_network(network_messages: Vec<Vec<u8>>) -> (Vec<NetworkEvent>, LoopStep) {
    let results: NetworkLog = Rc::new(RefCell::new(Vec::new()));
    let mut tested_consumer = MqttEventsReader::new(Identity);
    tested_consumer.subscribe(results.clone());

    let mut end = LoopStep::Continue;
    let mut messages = network_messages.into_iter();
    while end == LoopStep::Continue {
        let step = tested_consumer.on_message(messages.next());
        for delivery in step.deliveries {
            delivery.subscriber.borrow_mut().push(delivery.event);
        }
        end = step.next;
    }
    let seen = results.borrow().clone();
    (seen, end)
}

fn payload_cases() -> Vec<(Vec<Vec<u8>>, Vec<NetworkEvent>)> {
    vec![
        (vec!["".as_bytes().to_owned()], vec![NetworkEvent::Message("".into())]),
        (
            vec!["payload 1".as_bytes().to_owned(), "payload 2".as_bytes().to_owned()],
            vec![
                NetworkEvent::Message("payload 1".into()),
                NetworkEvent::Message("payload 2".into()),
            ],
        ),
        (
            vec!["the same payload".as_bytes().to_owned(), "the same payload".as_bytes().to_owned()],
            vec![
                NetworkEvent::Message("the same payload".into()),
                NetworkEvent::Message("the same payload".into()),
            ],
        ),
        (
            vec!["녹".as_bytes().to_owned(), "😎".as_bytes().to_owned()],
            vec![NetworkEvent::Message("녹".into()), NetworkEvent::Message("😎".into())],
        ),
    ]
}

#[test]
fn mqtt_receive_couple_messages() {
    for (network_messages, expected_messages) in payload_cases() {
        let (results, test_result) = read_network(network_messages);

        assert_eq!(test_result, LoopStep::Finished);
        assert_eq!(results, expected_messages);
    }
}

#[test]
fn mqtt_forward_queue_messages_to_multiple_subscribers() {
    let payload = "test payload";
    let expected_event = NetworkEvent::Message(payload.into());

    let first: NetworkLog = Rc::new(RefCell::new(Vec::new()));
    let second: NetworkLog = Rc::new(RefCell::new(Vec::new()));
    let mut tested_consumer = MqttEventsReader::new(Identity);
    tested_consumer.subscribe(first.clone());
    tested_consumer.subscribe(second.clone());

    let step = tested_consumer.on_message(Some(payload.as_bytes().to_owned()));
    assert_eq!(step.next, LoopStep::Continue);
    assert_eq!(step.deliveries.len(), 2);
    for delivery in step.deliveries {
        delivery.subscriber.borrow_mut().push(delivery.event);
    }
    let test_result = tested_consumer.on_message(None).next;

    assert_eq!(test_result, LoopStep::Finished);
    assert_eq!(*first.borrow(), vec![expected_event.clone()]);
    assert_eq!(*second.borrow(), vec![expected_event]);
}

#[test]
fn reader_opens_sealed_payloads() {
    let sealed = MagicEncrypt::new("pw").encrypt(b"hello room");
    let mut reader: MqttEventsReader<MagicDecrypt, u8> =
        MqttEventsReader::new(MagicDecrypt::new("pw"));
    reader.subscribe(1);

    let step = reader.on_message(Some(sealed));

    assert_eq!(step.next, LoopStep::Continue);
    assert_eq!(step.deliveries.len(), 1);
    assert_eq!(step.deliveries[0].event, NetworkEvent::Message(b"hello room".to_vec()));
}

#[test]
fn reader_stops_on_a_payload_that_does_not_open() {
    let mut reader: MqttEventsReader<MagicDecrypt, u8> =
        MqttEventsReader::new(MagicDecrypt::new("pw"));
    reader.subscribe(1);

    let step = reader.on_message(Some(b"tampered".to_vec()));
    assert!(step.deliveries.is_empty());
    assert_eq!(step.next, LoopStep::Failed(Error::Decrypt));

    let sealed = MagicEncrypt::new("pw").encrypt(b"late");
    let step = reader.on_message(Some(sealed));
    assert!(step.deliveries.is_empty());
    assert_eq!(step.next, LoopStep::Finished);
}

type QueueLog = Rc<RefCell<Vec<QueueEvent>>>;

fn text_event(text: &str, time: Timestamp) -> QueueEvent {
    QueueEvent::Message(Message::at(String::new(), text.to_string(), time))
}

#[test]
fn consumer_receive_couple_messages() {
    let now = Timestamp { secs: 1_620_543_600, nanos: 0 };
    for (network_messages, expected) in payload_cases() {
        let results: QueueLog = Rc::new(RefCell::new(Vec::new()));
        let mut tested_consumer = Consumer::new(());
        tested_consumer.subscribe(results.clone());

        let mut end = LoopStep::Continue;
        let mut messages = network_messages.into_iter();
        while end == LoopStep::Continue {
            let step = tested_consumer.on_received_at(messages.next(), now);
            for delivery in step.deliveries {
                delivery.subscriber.borrow_mut().push(delivery.event);
            }
            end = step.next;
        }

        assert_eq!(end, LoopStep::Finished);
        let expected: Vec<QueueEvent> = expected
            .into_iter()
            .map(|event| match event {
                NetworkEvent::Message(bytes) => {
                    text_event(std::str::from_utf8(&bytes).unwrap(), now)
                }
            })
            .collect();
        assert_eq!(*results.borrow(), expected);
    }
}

#[test]
fn consumer_forward_queue_messages_to_multiple_subscribers() {
    let payload = "test payload";
    let mut tested_consumer: Consumer<(), u8> = Consumer::new(());
    tested_consumer.subscribe(1);
    tested_consumer.subscribe(2);

    let step = tested_consumer.on_received(Some(payload.as_bytes().to_owned()));

    assert_eq!(step.next, LoopStep::Continue);
    assert_eq!(step.deliveries.len(), 2);
    assert_eq!(*step.deliveries[0].subscriber, 1);
    assert_eq!(*step.deliveries[1].subscriber, 2);
    for delivery in &step.deliveries {
        match &delivery.event {
            QueueEvent::Message(message) => {
                assert_eq!(message.msg, "test payload");
                assert_eq!(message.user, "");
            }
        }
    }
    assert_eq!(step.deliveries[0].event, step.deliveries[1].event);
}

#[test]
fn non_utf8_payload_ends_the_consumer() {
    let mut tested_consumer: Consumer<(), u8> = Consumer::new(());
    tested_consumer.subscribe(1);

    let step = tested_consumer.on_received(Some(vec![0xC0_u8]));
    assert!(step.deliveries.is_empty());
    assert_eq!(step.next, LoopStep::Failed(Error::MalformedMessage));

    let step = tested_consumer.on_received(Some(b"fine".to_vec()));
    assert!(step.deliveries.is_empty());
    assert_eq!(step.next, LoopStep::Finished);
}

#[test]
fn text_of_reads_utf8_only() {
    assert_eq!(text_of("녹 😎".as_bytes().to_vec()), Some("녹 😎".to_string()));
    assert_eq!(text_of(Vec::new()), Some(String::new()));
    assert_eq!(text_of(vec![0xC0]), None);
    assert_eq!(text_of(vec![b'a', 0xFF]), None);
}

#[test]
fn publish_couple_messages() {
    let cases: Vec<(Vec<&str>, Vec<Vec<u8>>)> = vec![
        (vec![""], vec!["".as_bytes().to_owned()]),
        (
            vec!["payload 1", "payload 2"],
            vec!["payload 1".as_bytes().to_owned(), "payload 2".as_bytes().to_owned()],
        ),
        (
            vec!["the same payload", "the same payload"],
            vec!["the same payload".as_bytes().to_owned(), "the same payload".as_bytes().to_owned()],
        ),
        (vec!["녹", "😎"], vec!["녹".as_bytes().to_owned(), "😎".as_bytes().to_owned()]),
    ];
    for (published_messages, expected_messages) in cases {
        let mut tested_publisher = Publisher::new(Vec::new());
        for text in published_messages {
            let event = QueueEvent::Message(Message::new("user".to_string(), text.to_string()));
            let payload = tested_publisher.outgoing(event);
            tested_publisher.network_backend().push(payload);
            assert_eq!(LoopStep::after(Ok(())), LoopStep::Continue);
        }
        assert_eq!(*tested_publisher.network_backend(), expected_messages);
    }
}

#[test]
fn a_failed_send_fails_the_loop() {
    assert_eq!(LoopStep::after(Err(Error::Transport)), LoopStep::Failed(Error::Transport));
    assert_eq!(LoopStep::after(Err(Error::Closed)), LoopStep::Failed(Error::Closed));
}

#[test]
fn mqtt_publisher_queues_the_sealed_payload_on_its_topic() {
    let (sender, mut receiver) = tokio::sync::mpsc::unbounded_channel();
    let publisher =
        MqttEventsPublisher::new(sender, "prefix/room/user".to_string(), MagicEncrypt::new("pw"));

    publisher.publish(NetworkEvent::Message(b"some message".to_vec())).unwrap();

    let queued: BackendMessage = receiver.try_recv().unwrap();
    assert_eq!(queued.topic, "prefix/room/user");
    assert_ne!(queued.payload, b"some message".to_vec());
    assert_eq!(MagicCrypt::new("pw").decrypt(&queued.payload), Ok(b"some message".to_vec()));
    assert!(receiver.try_recv().is_err());
}

#[test]
fn mqtt_publisher_fails_when_nobody_takes_the_messages() {
    let (sender, receiver) = tokio::sync::mpsc::unbounded_channel();
    drop(receiver);
    let publisher = MqttEventsPublisher::new(sender, "t".to_string(), MagicEncrypt::new("pw"));

    let sent = publisher.publish(NetworkEvent::Message(b"lost".to_vec()));

    assert_eq!(sent, Err(Error::Transport));
}

#[test]
fn mqtt_publisher_outgoing_is_what_it_queues() {
    let (sender, mut receiver) = tokio::sync::mpsc::unbounded_channel();
    let publisher = MqttEventsPublisher::new(sender, "t".to_string(), MagicEncrypt::new("pw"));
    let event = NetworkEvent::Message(b"abc".to_vec());

    let expected = publisher.outgoing(&event).unwrap();
    publisher.publish(event).unwrap();

    assert_eq!(receiver.try_recv().unwrap(), expected);
}

#[test]
fn topics_are_prefix_room_identity() {
    assert_eq!(make_subscription_topic("prefix", "room"), "prefix/room/#");
    assert_eq!(make_publish_topic("prefix", "room", "user"), "prefix/room/user");
    assert_eq!(make_subscription_topic("", ""), "//#");
    assert_eq!(make_publish_topic("", "", ""), "//");
    assert_eq!(
        make_publish_topic(TOPIC_PREFIX, "kitchen", "Chef"),
        "df9ff5c8-c030-4e4a-8bae-a415565febd7/kitchen/Chef"
    );
}

#[test]
fn network_events_compare_by_payload() {
    let event = NetworkEvent::Message(vec![1, 2, 3]);
    assert_eq!(event.clone(), event);
    assert_ne!(event, NetworkEvent::Message(vec![1, 2]));
    let message = BackendMessage { topic: "t".to_string(), payload: vec![9] };
    assert_eq!(message.clone(), message);
    assert_ne!(message, BackendMessage { topic: "u".to_string(), payload: vec![9] });
    assert_ne!(message, BackendMessage { topic: "t".to_string(), payload: vec![8] });
}

#[test]
fn a_stream_without_a_payload_is_closed() {
    assert_eq!(receive_outcome(Some(vec![1, 2])), Ok(vec![1, 2]));
    assert_eq!(receive_outcome(Some(Vec::new())), Ok(Vec::new()));
    assert_eq!(receive_outcome(None), Err(Error::Closed));
}
