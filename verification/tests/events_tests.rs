use event_engine::demo::{
    count_event, producer_message, TypeAEvent, TypeAEventType, TypeBEvent, TypeBEventType,
    TypeCEvent, TypeCEventType,
};
use event_engine::errors::EngineError;
use event_engine::events::{decode_text_event, encode_text_event, Event, EventType};

#[test]
fn event_type_names_and_filters() {
    assert_eq!(TypeAEventType {}.get_name(), "TypeA");
    assert_eq!(TypeAEventType {}.get_filter(), Ok(b"TypeA".to_vec()));
    assert_eq!(TypeBEventType {}.get_name(), "TypeB");
    assert_eq!(TypeBEventType {}.get_filter(), Ok(b"TypeB".to_vec()));
    assert_eq!(TypeCEventType {}.get_name(), "TypeC");
    assert_eq!(TypeCEventType {}.get_filter(), Ok(b"TypeC".to_vec()));
}

#[test]
fn framing() {
    assert_eq!(encode_text_event("Ab", "cd"), b"Abcd".to_vec());
    assert_eq!(decode_text_event(&b"Abcd".to_vec(), 2), Some("cd".to_string()));
    assert_eq!(decode_text_event(&b"A".to_vec(), 2), None);
    assert_eq!(decode_text_event(&vec![b'A', b'b', 0xff], 2), None);
}

#[test]
fn type_a_round_trip_and_filter_prefix() {
    let e = TypeAEvent { message: "This is message 0 \u{e9}".to_string() };
    let b = e.to_bytes().unwrap();
    assert!(b.starts_with(b"TypeA"));
    assert_eq!(&b[5..], "This is message 0 \u{e9}".as_bytes());
    assert_eq!(TypeAEvent::from_bytes(b).unwrap().message, e.message);
}

#[test]
fn type_b_round_trip() {
    for count in [0usize, 17, 123456789, usize::MAX] {
        let b = TypeBEvent { count }.to_bytes().unwrap();
        assert_eq!(b, format!("TypeB{}", count).into_bytes());
        assert_eq!(TypeBEvent::from_bytes(b).unwrap().count, count);
    }
}

#[test]
fn type_c_round_trip() {
    let e = TypeCEvent { message: "from python".to_string() };
    let b = e.to_bytes().unwrap();
    assert_eq!(b, b"TypeCfrom python".to_vec());
    assert_eq!(TypeCEvent::from_bytes(b).unwrap().message, "from python");
}

#[test]
fn undecodable_events() {
    assert_eq!(
        TypeAEvent::from_bytes(b"Typ".to_vec()).err(),
        Some(EngineError::EventDecodeError("TypeA".to_string()))
    );
    assert_eq!(
        TypeAEvent::from_bytes(vec![b'T', b'y', b'p', b'e', b'A', 0xc3]).err(),
        Some(EngineError::EventDecodeError("TypeA".to_string()))
    );
    assert_eq!(
        TypeBEvent::from_bytes(b"TypeBtwelve".to_vec()).err(),
        Some(EngineError::EventDecodeError("TypeB".to_string()))
    );
    assert_eq!(
        TypeBEvent::from_bytes(b"TypeB".to_vec()).err(),
        Some(EngineError::EventDecodeError("TypeB".to_string()))
    );
    assert_eq!(
        TypeCEvent::from_bytes(vec![]).err(),
        Some(EngineError::EventDecodeError("TypeC".to_string()))
    );
    assert_eq!(TypeAEvent::from_bytes(b"TypeA".to_vec()).unwrap().message, "");
}

#[test]
fn demo_plugin_decisions() {
    assert_eq!(producer_message(0).message, "This is message 0");
    assert_eq!(producer_message(4).message, "This is message 4");
    assert_eq!(count_event(&producer_message(3)).count, 17);
    assert_eq!(count_event(&TypeAEvent { message: "\u{e9}".to_string() }).count, 2);
}
