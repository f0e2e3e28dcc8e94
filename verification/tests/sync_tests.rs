use event_engine::errors::EngineError;
use event_engine::sync::{plugin_ready_message, Outcome, SyncAction, SyncBarrier};

/// Drives a barrier, failing the `fail_at`-th action (counting from 0) with `code`.
fn drive(mut b: SyncBarrier, fail_at: Option<usize>, code: i32) -> (Vec<String>, Result<(), EngineError>) {
    let mut log = Vec::new();
    let mut k = 0;
    loop {
        let a = b.next_action();
        match a {
            SyncAction::CreateSocket => log.push("create".to_string()),
            SyncAction::Bind(u) => log.push(format!("bind {}", u)),
            SyncAction::ReceiveReady => log.push("receive".to_string()),
            SyncAction::Reply { socket, message } => log.push(format!("reply {} {}", socket, message)),
            SyncAction::Finished => return (log, b.result()),
        }
        let outcome = if fail_at == Some(k) { Outcome::Failed(code) } else { Outcome::Done };
        b.advance(outcome);
        k += 1;
    }
}

const A: u128 = 0x11111111_2222_3333_4444_555555555555;
const B: u128 = 0xaaaaaaaa_bbbb_cccc_dddd_eeeeeeeeeeee;
const C: u128 = 0x00000000_0000_0000_0000_000000000001;

#[test]
fn all_ready_before_any_reply() {
    let b = SyncBarrier::new(vec![A, B], vec![C]);
    assert_eq!(b.ids, vec![A, B, C]);
    let (log, r) = drive(b, None, 0);
    assert_eq!(r, Ok(()));
    assert_eq!(
        log,
        vec![
            "create",
            "bind inproc://sync-11111111-2222-3333-4444-555555555555",
            "receive",
            "create",
            "bind inproc://sync-aaaaaaaa-bbbb-cccc-dddd-eeeeeeeeeeee",
            "receive",
            "create",
            "bind inproc://sync-00000000-0000-0000-0000-000000000001",
            "receive",
            "reply 2 ok",
            "reply 1 ok",
            "reply 0 ok",
        ]
    );
}

#[test]
fn no_plugins_means_nothing_to_do() {
    let (log, r) = drive(SyncBarrier::new(vec![], vec![]), None, 0);
    assert!(log.is_empty());
    assert_eq!(r, Ok(()));
}

#[test]
fn failures_at_each_stage() {
    let (_, r) = drive(SyncBarrier::new(vec![A], vec![B]), Some(3), 1);
    assert_eq!(r, Err(EngineError::EngineSyncSocketCreateError()));
    let (_, r) = drive(SyncBarrier::new(vec![A], vec![B]), Some(4), 1);
    assert_eq!(
        r,
        Err(EngineError::EngineSyncSocketInprocBindError(
            "inproc://sync-aaaaaaaa-bbbb-cccc-dddd-eeeeeeeeeeee".to_string()
        ))
    );
    let (log, r) = drive(SyncBarrier::new(vec![A], vec![B]), Some(2), 11);
    assert_eq!(r, Err(EngineError::EngineSyncSocketMsgRcvError(11)));
    assert_eq!(log.len(), 3);
    let (log, r) = drive(SyncBarrier::new(vec![A], vec![B]), Some(7), 12);
    assert_eq!(r, Err(EngineError::EngineSyncSocketSendRcvError(12)));
    assert_eq!(log.last().unwrap(), "reply 0 ok");
}

#[test]
fn ready_message_text() {
    assert_eq!(plugin_ready_message(), "ready");
}
