//! The protocol the engine speaks with an external plugin process.
//!
//! The external process sends requests over TCP and always gets exactly one reply. A request
//! `plugin_command: quit` ends the session; `plugin_command: next_msg` is answered with the
//! next event the plugin subscribed to; anything else is an event, published unchanged and
//! acknowledged. [`ExternalSession`] makes these decisions; the application performs each
//! [`SessionAction`] and reports how it went.

use vstd::prelude::*;
use vstd::utf8::{decode_utf8, encode_utf8, is_ascii_chars, valid_utf8};
use vstd::string::*;
use crate::errors::EngineError;
use crate::text::{decode_text, text_bytes};

verus! {

broadcast use vstd::utf8::group_utf8_lib;

/// What a request from an external plugin asks for.
#[derive(Debug, Clone, Copy, PartialEq, Eq)]
pub enum ExternalCommand {
    /// End the session.
    Quit,
    /// Reply with the next subscribed event.
    NextMessage,
    /// Publish the request as an event.
    Publish,
    /// An ASCII request that is not valid UTF-8 (it cannot happen: see
    /// [`lemma_ascii_requests_decode`]).
    Undecodable,
}

/// Whether every byte is ASCII.
pub open spec fn is_ascii_bytes(b: Seq<u8>) -> bool {
    forall|i: int| 0 <= i < b.len() ==> #[trigger] b[i] < 128
}

/// The request that ends the session.
pub open spec fn quit_command() -> Seq<char> {
    "plugin_command: quit"@
}

/// The request for the next subscribed event.
pub open spec fn next_msg_command() -> Seq<char> {
    "plugin_command: next_msg"@
}

/// The reply to an ASCII request that is not valid UTF-8.
pub open spec fn bad_msg_reply() -> Seq<char> {
    "event-engine: bad msg"@
}

/// The reply to a request that was published.
pub open spec fn published_reply() -> Seq<char> {
    "event-engine: msg published"@
}

/// What the request `msg` asks for: an ASCII request is read as text and compared with the
/// two commands; every other request is an event.
pub open spec fn command_spec(msg: Seq<u8>) -> ExternalCommand {
    if is_ascii_bytes(msg) {
        if !valid_utf8(msg) {
            ExternalCommand::Undecodable
        } else if decode_utf8(msg) == quit_command() {
            ExternalCommand::Quit
        } else if decode_utf8(msg) == next_msg_command() {
            ExternalCommand::NextMessage
        } else {
            ExternalCommand::Publish
        }
    } else {
        ExternalCommand::Publish
    }
}

/// Tells what the request `msg` asks for.
pub fn classify_command(msg: &[u8]) -> (c: ExternalCommand)
    ensures
        c == command_spec(msg@),
{
    let mut i: usize = 0;
    let mut ascii = true;
    while i < msg.len()
        invariant
            i <= msg@.len(),
            ascii == (forall|j: int| 0 <= j < i ==> #[trigger] msg@[j] < 128),
        decreases msg@.len() - i,
    {
        if msg[i] >= 128 {
            ascii = false;
        }
        i = i + 1;
    }
    if !ascii {
        return ExternalCommand::Publish;
    }
    match decode_text(msg) {
        None => ExternalCommand::Undecodable,
        Some(t) => {
            if t == String::from_str("plugin_command: quit") {
                ExternalCommand::Quit
            } else if t == String::from_str("plugin_command: next_msg") {
                ExternalCommand::NextMessage
            } else {
                ExternalCommand::Publish
            }
        },
    }
}

/// ASCII bytes are the UTF-8 encoding of the characters with the same codes.
pub proof fn lemma_ascii_bytes_encode(b: Seq<u8>)
    requires
        is_ascii_bytes(b),
    ensures
        encode_utf8(Seq::new(b.len(), |i: int| b[i] as char)) == b,
        valid_utf8(b),
{
    let chars = Seq::new(b.len(), |i: int| b[i] as char);
    assert(is_ascii_chars(chars)) by {
        assert forall|i: int| 0 <= i < chars.len() implies '\0' <= #[trigger] chars[i]
            <= '\u{7f}' by {
            let x = b[i];
            assert(x < 128);
        }
    }
    vstd::utf8::is_ascii_chars_encode_utf8(chars);
    assert forall|i: int| 0 <= i < b.len() implies #[trigger] encode_utf8(chars)[i] == b[i] by {
        let x = b[i];
        assert(chars[i] as u8 == encode_utf8(chars)[i]);
        assert((x as char) as u8 == x);
    }
    assert(encode_utf8(chars) =~= b);
    vstd::utf8::encode_utf8_valid_utf8(chars);
}

/// An ASCII request always reads as text, so the bad-message reply is never sent.
pub proof fn lemma_ascii_requests_decode(msg: Seq<u8>)
    ensures
        command_spec(msg) != ExternalCommand::Undecodable,
{
    if is_ascii_bytes(msg) {
        lemma_ascii_bytes_encode(msg);
    }
}

/// Where a session stands.
pub enum SessionPhase {
    /// Waiting for the next request from the external process.
    AwaitCommand,
    /// Waiting for the next subscribed event, to pass it on.
    AwaitEvent,
    /// Publishing a request as an event.
    Publishing,
    /// Replying to the external process.
    Replying,
    /// Over, with this result.
    Finished(Result<(), EngineError>),
}

/// What the application should do next.
pub enum SessionAction {
    /// Receive the next request from the external process.
    ReceiveCommand,
    /// Receive the next event the plugin subscribed to.
    ReceiveEvent,
    /// Publish these bytes as an event.
    Publish(Vec<u8>),
    /// Send these bytes to the external process.
    Reply(Vec<u8>),
    /// Stop; the result is [`ExternalSession::result`].
    Finished,
}

/// How the last action went.
pub enum SessionEvent {
    /// These bytes were received.
    Received(Vec<u8>),
    /// The bytes were sent.
    Sent,
    /// The action failed with this error number.
    Failed(i32),
}

/// The engine's side of a session with one external plugin.
pub struct ExternalSession {
    pub plugin_id: u128,
    pub phase: SessionPhase,
}

impl ExternalSession {
    /// Whether `event` is a possible report of the action the session asked for.
    pub open spec fn expects(&self, event: SessionEvent) -> bool {
        match self.phase {
            SessionPhase::AwaitCommand | SessionPhase::AwaitEvent => !(event is Sent),
            SessionPhase::Publishing | SessionPhase::Replying => !(event is Received),
            SessionPhase::Finished(_) => false,
        }
    }

    /// The state and action that follow `self` on `event`.
    pub open spec fn handled(&self, event: SessionEvent, next: ExternalSession, a: SessionAction) -> bool {
        let id = self.plugin_id;
        &&& next.plugin_id == id
        &&& match (self.phase, event) {
            (SessionPhase::AwaitCommand, SessionEvent::Received(m)) => match command_spec(m@) {
                ExternalCommand::Quit => next.phase == SessionPhase::Finished(Ok(()))
                    && a is Finished,
                ExternalCommand::NextMessage => next.phase is AwaitEvent && a is ReceiveEvent,
                ExternalCommand::Publish => next.phase is Publishing && (a matches SessionAction::Publish(b)
                    && b@ == m@),
                ExternalCommand::Undecodable => next.phase is Replying
                    && (a matches SessionAction::Reply(b) && b@ == encode_utf8(bad_msg_reply())),
            },
            (SessionPhase::AwaitCommand, SessionEvent::Failed(c)) => next.phase
                == SessionPhase::Finished(Err(EngineError::EngineExtSocketRcvError(id, c)))
                && a is Finished,
            (SessionPhase::AwaitEvent, SessionEvent::Received(ev)) => next.phase is Replying
                && (a matches SessionAction::Reply(b) && b@ == ev@),
            (SessionPhase::AwaitEvent, SessionEvent::Failed(c)) => next.phase
                == SessionPhase::Finished(Err(EngineError::EngineExtSubSocketRcvError(id, c)))
                && a is Finished,
            (SessionPhase::Publishing, SessionEvent::Sent) => next.phase is Replying
                && (a matches SessionAction::Reply(b) && b@ == encode_utf8(published_reply())),
            (SessionPhase::Publishing, SessionEvent::Failed(c)) => next.phase
                == SessionPhase::Finished(Err(EngineError::EngineExtPubSocketSendError(id, c)))
                && a is Finished,
            (SessionPhase::Replying, SessionEvent::Sent) => next.phase is AwaitCommand
                && a is ReceiveCommand,
            (SessionPhase::Replying, SessionEvent::Failed(c)) => next.phase
                == SessionPhase::Finished(Err(EngineError::EngineExtSocketSendError(id, c)))
                && a is Finished,
            _ => false,
        }
    }

    /// A session with the external plugin `plugin_id`; its first action is
    /// [`SessionAction::ReceiveCommand`].
    pub fn new(plugin_id: u128) -> (s: ExternalSession)
        ensures
            s.plugin_id == plugin_id,
            s.phase is AwaitCommand,
    {
        ExternalSession { plugin_id, phase: SessionPhase::AwaitCommand }
    }

    /// Records how the last action went and tells what to do next.
    pub fn handle(&mut self, event: SessionEvent) -> (a: SessionAction)
        requires
            old(self).expects(event),
        ensures
            old(self).handled(event, *final(self), a),
            old(self).phase is AwaitEvent ==> (event matches SessionEvent::Received(ev) ==> (
            a matches SessionAction::Reply(b) && b@ == ev@)),
            old(self).phase is AwaitCommand ==> (event matches SessionEvent::Received(m)
                ==> command_spec(m@) == ExternalCommand::Publish ==> (
            a matches SessionAction::Publish(b) && b@ == m@)),
    {
        let id = self.plugin_id;
        match event {
            SessionEvent::Received(m) => {
                if matches!(self.phase, SessionPhase::AwaitEvent) {
                    self.phase = SessionPhase::Replying;
                    return SessionAction::Reply(m);
                }
                match classify_command(m.as_slice()) {
                    ExternalCommand::Quit => {
                        self.phase = SessionPhase::Finished(Ok(()));
                        SessionAction::Finished
                    },
                    ExternalCommand::NextMessage => {
                        self.phase = SessionPhase::AwaitEvent;
                        SessionAction::ReceiveEvent
                    },
                    ExternalCommand::Undecodable => {
                        self.phase = SessionPhase::Replying;
                        SessionAction::Reply(text_bytes("event-engine: bad msg"))
                    },
                    ExternalCommand::Publish => {
                        self.phase = SessionPhase::Publishing;
                        SessionAction::Publish(m)
                    },
                }
            },
            SessionEvent::Sent => {
                if matches!(self.phase, SessionPhase::Publishing) {
                    self.phase = SessionPhase::Replying;
                    SessionAction::Reply(text_bytes("event-engine: msg published"))
                } else {
                    self.phase = SessionPhase::AwaitCommand;
                    SessionAction::ReceiveCommand
                }
            },
            SessionEvent::Failed(c) => {
                let e = match self.phase {
                    SessionPhase::AwaitCommand => EngineError::EngineExtSocketRcvError(id, c),
                    SessionPhase::AwaitEvent => EngineError::EngineExtSubSocketRcvError(id, c),
                    SessionPhase::Publishing => EngineError::EngineExtPubSocketSendError(id, c),
                    _ => EngineError::EngineExtSocketSendError(id, c),
                };
                self.phase = SessionPhase::Finished(Err(e));
                SessionAction::Finished
            },
        }
    }

    /// The result of a finished session.
    pub fn result(self) -> (r: Result<(), EngineError>)
        requires
            self.phase is Finished,
        ensures
            self.phase == SessionPhase::Finished(r),
    {
        match self.phase {
            SessionPhase::Finished(r) => r,
            _ => Ok(()),
        }
    }
}

/// What a session passes on is exactly what it was given: a forwarded event reaches the
/// external process byte for byte as it came from the subscription, and a request that is
/// not a command is published byte for byte as it was received. The next action after
/// either is the reply that closes the exchange.
pub proof fn lemma_session_passes_bytes_unchanged(
    s: ExternalSession,
    event: SessionEvent,
    next: ExternalSession,
    a: SessionAction,
)
    requires
        s.handled(event, next, a),
        event is Received,
    ensures
        s.phase is AwaitEvent ==> (a matches SessionAction::Reply(b) && b@ == event->Received_0@
            && next.phase is Replying),
        s.phase is AwaitCommand && command_spec(event->Received_0@) == ExternalCommand::Publish
            ==> (a matches SessionAction::Publish(b) && b@ == event->Received_0@
            && next.phase is Publishing),
{
}

/// Every request except `quit` gets exactly one reply: after a request other than `quit`,
/// the session either replies straight away (after publishing, or with the next event)
/// and then waits for the next request; `quit` ends the session without a reply.
pub proof fn lemma_request_answered_once(
    s0: ExternalSession,
    m: SessionEvent,
    s1: ExternalSession,
    a1: SessionAction,
    e2: SessionEvent,
    s2: ExternalSession,
    a2: SessionAction,
)
    requires
        s0.phase is AwaitCommand,
        m is Received,
        s0.handled(m, s1, a1),
        !(a1 is Finished) ==> s1.expects(e2) && !(e2 is Failed) && s1.handled(e2, s2, a2),
    ensures
        command_spec(m->Received_0@) == ExternalCommand::Quit <==> a1 is Finished,
        command_spec(m->Received_0@) == ExternalCommand::Quit ==> s1.phase == SessionPhase::Finished(Ok(())),
        command_spec(m->Received_0@) != ExternalCommand::Quit ==> (a2 is Reply && s2.phase is Replying)
            || (a1 is Reply && a2 is ReceiveCommand && s2.phase is AwaitCommand),
{
}

} // verus!
