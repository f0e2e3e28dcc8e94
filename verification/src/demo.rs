//! The event types of the demo application, and the decisions of its plugins.
//!
//! The demo has three event types, each filtered by its five-letter name: `TypeA` carries a
//! text message, `TypeB` a count written in decimal, `TypeC` a text message. The producer
//! plugin sends numbered `TypeA` messages; the counter plugin answers each with a `TypeB`
//! event holding the message's length in bytes.

use vstd::prelude::*;
use vstd::string::*;
use vstd::utf8::{encode_utf8, is_ascii_chars};
use crate::errors::EngineError;
use crate::events::{
    decode_text_event, encode_text_event, lemma_text_event_round_trip, text_event_bytes,
    text_event_payload, Event, EventType,
};
use crate::text::{
    decimal_digits, i32_to_text, parse_usize, parse_usize_spec,
    signed_decimal, usize_to_text,
};

verus! {

broadcast use vstd::utf8::group_utf8_lib;

/// The event type `TypeA`.
pub struct TypeAEventType {}

/// The event type `TypeB`.
pub struct TypeBEventType {}

/// The event type `TypeC`.
pub struct TypeCEventType {}

/// An event of type `TypeA`: a text message.
pub struct TypeAEvent {
    pub message: String,
}

/// An event of type `TypeB`: a count.
pub struct TypeBEvent {
    pub count: usize,
}

/// An event of type `TypeC`: a text message.
pub struct TypeCEvent {
    pub message: String,
}

/// The name of `TypeA`.
pub open spec fn type_a_name() -> Seq<char> {
    "TypeA"@
}

/// The name of `TypeB`.
pub open spec fn type_b_name() -> Seq<char> {
    "TypeB"@
}

/// The name of `TypeC`.
pub open spec fn type_c_name() -> Seq<char> {
    "TypeC"@
}

/// The count a `TypeB` message carries: its bytes after the five-byte filter, read as a
/// decimal count.
pub open spec fn type_b_count(bytes: Seq<u8>) -> Option<usize> {
    match text_event_payload(5, bytes) {
        Some(t) => parse_usize_spec(t),
        None => None,
    }
}

impl EventType for TypeAEventType {
    fn get_name(&self) -> (n: String)
        ensures
            n@ == type_a_name(),
    {
        String::from_str("TypeA")
    }

    fn get_filter(&self) -> (f: Result<Vec<u8>, EngineError>)
        ensures
            f matches Ok(v) && v@ == encode_utf8(type_a_name()),
    {
        let name = self.get_name();
        Ok(crate::text::text_bytes(name.as_str()))
    }
}

impl EventType for TypeBEventType {
    fn get_name(&self) -> (n: String)
        ensures
            n@ == type_b_name(),
    {
        String::from_str("TypeB")
    }

    fn get_filter(&self) -> (f: Result<Vec<u8>, EngineError>)
        ensures
            f matches Ok(v) && v@ == encode_utf8(type_b_name()),
    {
        let name = self.get_name();
        Ok(crate::text::text_bytes(name.as_str()))
    }
}

impl EventType for TypeCEventType {
    fn get_name(&self) -> (n: String)
        ensures
            n@ == type_c_name(),
    {
        String::from_str("TypeC")
    }

    fn get_filter(&self) -> (f: Result<Vec<u8>, EngineError>)
        ensures
            f matches Ok(v) && v@ == encode_utf8(type_c_name()),
    {
        let name = self.get_name();
        Ok(crate::text::text_bytes(name.as_str()))
    }
}

impl Event for TypeAEvent {
    /// The filter of `TypeA`, then the message.
    fn to_bytes(&self) -> (r: Result<Vec<u8>, EngineError>)
        ensures
            r matches Ok(v) && v@ == text_event_bytes(type_a_name(), self.message@),
    {
        Ok(encode_text_event("TypeA", self.message.as_str()))
    }

    /// Drops the five filter bytes and reads the rest as the message. A trait method cannot
    /// narrow its inputs with `requires`, so bytes too short or not UTF-8 give
    /// `EventDecodeError`; the demo's plugins unwrap the result, treating them as fatal.
    fn from_bytes(bytes: Vec<u8>) -> (r: Result<TypeAEvent, EngineError>)
        ensures
            match text_event_payload(5, bytes@) {
                Some(m) => r matches Ok(e) && e.message@ == m,
                None => r matches Err(EngineError::EventDecodeError(n)) && n@ == type_a_name(),
            },
    {
        match decode_text_event(&bytes, 5) {
            Some(message) => Ok(TypeAEvent { message }),
            None => Err(EngineError::EventDecodeError(String::from_str("TypeA"))),
        }
    }
}

impl Event for TypeBEvent {
    /// The filter of `TypeB`, then the count in decimal.
    fn to_bytes(&self) -> (r: Result<Vec<u8>, EngineError>)
        ensures
            r matches Ok(v) && v@ == text_event_bytes(type_b_name(), decimal_digits(self.count as nat)),
    {
        let message = usize_to_text(self.count);
        Ok(encode_text_event("TypeB", message.as_str()))
    }

    /// Drops the five filter bytes and reads the rest as a decimal count. A trait method
    /// cannot narrow its inputs with `requires`, so bytes too short, not UTF-8 or not a count
    /// give `EventDecodeError`; the demo's plugins unwrap the result, treating them as fatal.
    fn from_bytes(bytes: Vec<u8>) -> (r: Result<TypeBEvent, EngineError>)
        ensures
            match type_b_count(bytes@) {
                Some(c) => r matches Ok(e) && e.count == c,
                None => r matches Err(EngineError::EventDecodeError(n)) && n@ == type_b_name(),
            },
    {
        match decode_text_event(&bytes, 5) {
            Some(text) => match parse_usize(text.as_str()) {
                Some(count) => Ok(TypeBEvent { count }),
                None => Err(EngineError::EventDecodeError(String::from_str("TypeB"))),
            },
            None => Err(EngineError::EventDecodeError(String::from_str("TypeB"))),
        }
    }
}

impl Event for TypeCEvent {
    /// The filter of `TypeC`, then the message.
    fn to_bytes(&self) -> (r: Result<Vec<u8>, EngineError>)
        ensures
            r matches Ok(v) && v@ == text_event_bytes(type_c_name(), self.message@),
    {
        Ok(encode_text_event("TypeC", self.message.as_str()))
    }

    /// Drops the five filter bytes and reads the rest as the message. A trait method cannot
    /// narrow its inputs with `requires`, so bytes too short or not UTF-8 give
    /// `EventDecodeError`; the demo's plugins unwrap the result, treating them as fatal.
    fn from_bytes(bytes: Vec<u8>) -> (r: Result<TypeCEvent, EngineError>)
        ensures
            match text_event_payload(5, bytes@) {
                Some(m) => r matches Ok(e) && e.message@ == m,
                None => r matches Err(EngineError::EventDecodeError(n)) && n@ == type_c_name(),
            },
    {
        match decode_text_event(&bytes, 5) {
            Some(message) => Ok(TypeCEvent { message }),
            None => Err(EngineError::EventDecodeError(String::from_str("TypeC"))),
        }
    }
}

/// The `i`-th message of the producer plugin: `This is message <i>`.
pub fn producer_message(i: i32) -> (e: TypeAEvent)
    ensures
        e.message@ == "This is message "@ + signed_decimal(i as int),
{
    let mut message = String::from_str("This is message ");
    let number = i32_to_text(i);
    message.append(number.as_str());
    TypeAEvent { message }
}

/// The counter plugin's answer to a `TypeA` event: a `TypeB` event holding the length of the
/// message in bytes.
pub fn count_event(e: &TypeAEvent) -> (c: TypeBEvent)
    ensures
        c.count == encode_utf8(e.message@).len(),
{
    TypeBEvent { count: crate::text::text_bytes(e.message.as_str()).len() }
}

/// What the producer plugin should do next.
pub enum ProducerAction {
    /// Send this event.
    Send(TypeAEvent),
    /// Receive the next `TypeB` answer.
    ReceiveCount,
    /// Receive the closing `TypeC` event.
    ReceiveFinal,
    /// Stop.
    Finished,
}

/// How many messages the producer sends, and how many answers it waits for.
pub open spec fn producer_rounds() -> i32 {
    5
}

/// The producer plugin's progress: it sends five `TypeA` messages, then receives five
/// `TypeB` answers, then one `TypeC` event.
pub struct DemoProducer {
    pub sent: i32,
    pub counts_read: i32,
    pub final_read: bool,
}

/// In a run of the producer, the `k`-th action: the five sends, numbered from 0, then the
/// five answers, then the closing event, then stop.
pub open spec fn expected_producer_action(k: int, a: ProducerAction) -> bool {
    if 0 <= k < 5 {
        a matches ProducerAction::Send(e) && e.message@ == "This is message "@ + signed_decimal(k)
    } else if 5 <= k < 10 {
        a is ReceiveCount
    } else if k == 10 {
        a is ReceiveFinal
    } else {
        a is Finished
    }
}

impl DemoProducer {
    /// The producer's invariant.
    pub open spec fn wf(&self) -> bool {
        &&& 0 <= self.sent <= producer_rounds()
        &&& 0 <= self.counts_read <= producer_rounds()
        &&& (self.counts_read > 0 ==> self.sent == producer_rounds())
        &&& (self.final_read ==> self.counts_read == producer_rounds())
    }

    /// How many actions the producer has performed.
    pub open spec fn step_index(&self) -> int {
        self.sent + self.counts_read + if self.final_read { 1int } else { 0 }
    }

    /// A producer that has done nothing yet.
    pub fn new() -> (p: DemoProducer)
        ensures
            p.wf(),
            p.step_index() == 0,
    {
        DemoProducer { sent: 0, counts_read: 0, final_read: false }
    }

    /// The action the producer should perform next.
    pub fn next_action(&self) -> (a: ProducerAction)
        requires
            self.wf(),
        ensures
            expected_producer_action(self.step_index(), a),
    {
        if self.sent < 5 {
            ProducerAction::Send(producer_message(self.sent))
        } else if self.counts_read < 5 {
            ProducerAction::ReceiveCount
        } else if !self.final_read {
            ProducerAction::ReceiveFinal
        } else {
            ProducerAction::Finished
        }
    }

    /// Records that the action was performed.
    pub fn advance(&mut self)
        requires
            old(self).wf(),
            old(self).step_index() < 11,
        ensures
            final(self).wf(),
            final(self).step_index() == old(self).step_index() + 1,
    {
        if self.sent < 5 {
            self.sent = self.sent + 1;
        } else if self.counts_read < 5 {
            self.counts_read = self.counts_read + 1;
        } else {
            self.final_read = true;
        }
    }
}

/// A `TypeA` event read back from its bytes carries the same message, byte for byte, and
/// its bytes start with the `TypeA` filter.
pub proof fn lemma_type_a_round_trip(message: Seq<char>)
    ensures
        text_event_payload(5, text_event_bytes(type_a_name(), message)) == Some(message),
        text_event_bytes(type_a_name(), message).take(5) == encode_utf8(type_a_name()),
{
    reveal_strlit("TypeA");
    assert(is_ascii_chars(type_a_name()));
    lemma_text_event_round_trip(type_a_name(), message);
}

/// A `TypeC` event read back from its bytes carries the same message, and its bytes start
/// with the `TypeC` filter.
pub proof fn lemma_type_c_round_trip(message: Seq<char>)
    ensures
        text_event_payload(5, text_event_bytes(type_c_name(), message)) == Some(message),
        text_event_bytes(type_c_name(), message).take(5) == encode_utf8(type_c_name()),
{
    reveal_strlit("TypeC");
    assert(is_ascii_chars(type_c_name()));
    lemma_text_event_round_trip(type_c_name(), message);
}

/// A `TypeB` event read back from its bytes carries the same count, and its bytes start
/// with the `TypeB` filter.
pub proof fn lemma_type_b_round_trip(count: usize)
    ensures
        type_b_count(text_event_bytes(type_b_name(), decimal_digits(count as nat))) == Some(count),
        text_event_bytes(type_b_name(), decimal_digits(count as nat)).take(5) == encode_utf8(
            type_b_name(),
        ),
{
    reveal_strlit("TypeB");
    assert(is_ascii_chars(type_b_name()));
    let d = decimal_digits(count as nat);
    lemma_text_event_round_trip(type_b_name(), d);
    crate::text::lemma_usize_text_round_trip(count);
}

/// The three demo filters tell the types apart: no message of one type starts with the
/// filter of another, so a plugin subscribed to one type never receives the others.
pub proof fn lemma_demo_filters_distinct(m: Seq<char>)
    ensures
        !encode_utf8(type_b_name()).is_prefix_of(text_event_bytes(type_a_name(), m)),
        !encode_utf8(type_c_name()).is_prefix_of(text_event_bytes(type_a_name(), m)),
        !encode_utf8(type_a_name()).is_prefix_of(text_event_bytes(type_b_name(), m)),
        !encode_utf8(type_c_name()).is_prefix_of(text_event_bytes(type_b_name(), m)),
        !encode_utf8(type_a_name()).is_prefix_of(text_event_bytes(type_c_name(), m)),
        !encode_utf8(type_b_name()).is_prefix_of(text_event_bytes(type_c_name(), m)),
{
    reveal_strlit("TypeA");
    reveal_strlit("TypeB");
    reveal_strlit("TypeC");
    let a = type_a_name();
    let b = type_b_name();
    let c = type_c_name();
    assert(is_ascii_chars(a));
    assert(is_ascii_chars(b));
    assert(is_ascii_chars(c));
    lemma_text_event_round_trip(a, m);
    lemma_text_event_round_trip(b, m);
    lemma_text_event_round_trip(c, m);
    assert(encode_utf8(a)[4] == 'A' as u8);
    assert(encode_utf8(b)[4] == 'B' as u8);
    assert(encode_utf8(c)[4] == 'C' as u8);
    assert(text_event_bytes(a, m)[4] == encode_utf8(a)[4]);
    assert(text_event_bytes(b, m)[4] == encode_utf8(b)[4]);
    assert(text_event_bytes(c, m)[4] == encode_utf8(c)[4]);
}

} // verus!
