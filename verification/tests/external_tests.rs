use event_engine::errors::EngineError;
use event_engine::external::{
    classify_command, ExternalCommand, ExternalSession, SessionAction, SessionEvent,
};

#[test]
fn commands() {
    assert_eq!(classify_command(b"plugin_command: quit"), ExternalCommand::Quit);
    assert_eq!(classify_command(b"plugin_command: next_msg"), ExternalCommand::NextMessage);
    assert_eq!(classify_command(b"plugin_command: quit "), ExternalCommand::Publish);
    assert_eq!(classify_command(b"TypeCsome event"), ExternalCommand::Publish);
    assert_eq!(classify_command(b""), ExternalCommand::Publish);
    assert_eq!(classify_command(&[0xff, 0xfe]), ExternalCommand::Publish);
    assert_eq!(classify_command("plugin_command: quit\u{e9}".as_bytes()), ExternalCommand::Publish);
}

#[test]
fn ascii_requests_never_undecodable() {
    for b in 0u8..128 {
        assert_ne!(classify_command(&[b, b'a', 0x7f]), ExternalCommand::Undecodable);
    }
}

fn reply_bytes(a: SessionAction) -> Vec<u8> {
    match a {
        SessionAction::Reply(b) => b,
        _ => panic!("expected a reply"),
    }
}

#[test]
fn publish_then_acknowledge() {
    let mut s = ExternalSession::new(9);
    let a = s.handle(SessionEvent::Received(b"TypeAhello".to_vec()));
    match a {
        SessionAction::Publish(b) => assert_eq!(b, b"TypeAhello".to_vec()),
        _ => panic!("expected publish"),
    }
    let a = s.handle(SessionEvent::Sent);
    assert_eq!(reply_bytes(a), b"event-engine: msg published".to_vec());
    let a = s.handle(SessionEvent::Sent);
    assert!(matches!(a, SessionAction::ReceiveCommand));
}

#[test]
fn next_message_is_forwarded_unchanged() {
    let mut s = ExternalSession::new(9);
    let a = s.handle(SessionEvent::Received(b"plugin_command: next_msg".to_vec()));
    assert!(matches!(a, SessionAction::ReceiveEvent));
    let a = s.handle(SessionEvent::Received(vec![b'T', 0, 255, 7]));
    assert_eq!(reply_bytes(a), vec![b'T', 0, 255, 7]);
    let a = s.handle(SessionEvent::Sent);
    assert!(matches!(a, SessionAction::ReceiveCommand));
}

#[test]
fn quit_ends_without_reply() {
    let mut s = ExternalSession::new(9);
    let a = s.handle(SessionEvent::Received(b"plugin_command: quit".to_vec()));
    assert!(matches!(a, SessionAction::Finished));
    assert_eq!(s.result(), Ok(()));
}

#[test]
fn failures() {
    let mut s = ExternalSession::new(9);
    assert!(matches!(s.handle(SessionEvent::Failed(4)), SessionAction::Finished));
    assert_eq!(s.result(), Err(EngineError::EngineExtSocketRcvError(9, 4)));

    let mut s = ExternalSession::new(9);
    s.handle(SessionEvent::Received(b"plugin_command: next_msg".to_vec()));
    s.handle(SessionEvent::Failed(5));
    assert_eq!(s.result(), Err(EngineError::EngineExtSubSocketRcvError(9, 5)));

    let mut s = ExternalSession::new(9);
    s.handle(SessionEvent::Received(b"event".to_vec()));
    s.handle(SessionEvent::Failed(6));
    assert_eq!(s.result(), Err(EngineError::EngineExtPubSocketSendError(9, 6)));

    let mut s = ExternalSession::new(9);
    s.handle(SessionEvent::Received(b"event".to_vec()));
    s.handle(SessionEvent::Sent);
    s.handle(SessionEvent::Failed(7));
    assert_eq!(s.result(), Err(EngineError::EngineExtSocketSendError(9, 7)));
}
