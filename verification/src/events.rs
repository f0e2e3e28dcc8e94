//! Events: the typed messages plugins exchange.
//!
//! An event type has a name and a filter, a byte string at the start of every message of
//! that type; a plugin subscribed to the type receives exactly the messages that start with
//! the filter. An event turns into bytes and back.

use vstd::prelude::*;
use vstd::utf8::{decode_utf8, encode_utf8, is_ascii_chars, valid_utf8};
use crate::errors::EngineError;
use crate::text::{decode_text, text_bytes};

verus! {

broadcast use vstd::utf8::group_utf8_lib;

/// An event type of the application. Plugins name the types they subscribe to; the filter
/// must start every message of the type and tell it apart from the other types.
pub trait EventType {
    /// The name of the event type.
    fn get_name(&self) -> String;

    /// The byte filter that starts every message of this type.
    fn get_filter(&self) -> Result<Vec<u8>, EngineError>;
}

/// An event: a typed message that travels as bytes.
pub trait Event {
    /// The bytes of the event.
    fn to_bytes(&self) -> Result<Vec<u8>, EngineError>;

    /// The event the bytes encode.
    fn from_bytes(bytes: Vec<u8>) -> Result<Self, EngineError> where Self: Sized;
}

/// A message of a type whose filter is the UTF-8 name of the type: the name's bytes,
/// then the UTF-8 bytes of the text it carries.
pub open spec fn text_event_bytes(name: Seq<char>, text: Seq<char>) -> Seq<u8> {
    encode_utf8(name) + encode_utf8(text)
}

/// The text carried by `bytes` once the first `filter_len` bytes are dropped: there must be
/// that many, and the rest must be valid UTF-8.
pub open spec fn text_event_payload(filter_len: nat, bytes: Seq<u8>) -> Option<Seq<char>> {
    if bytes.len() >= filter_len && valid_utf8(bytes.skip(filter_len as int)) {
        Some(decode_utf8(bytes.skip(filter_len as int)))
    } else {
        None
    }
}

/// The bytes of a message of the type named `name` carrying `text`.
pub fn encode_text_event(name: &str, text: &str) -> (b: Vec<u8>)
    ensures
        b@ == text_event_bytes(name@, text@),
{
    let mut b = text_bytes(name);
    let mut rest = text_bytes(text);
    b.append(&mut rest);
    b
}

/// The text carried by `bytes` after a filter of `filter_len` bytes.
pub fn decode_text_event(bytes: &Vec<u8>, filter_len: usize) -> (t: Option<String>)
    ensures
        match text_event_payload(filter_len as nat, bytes@) {
            Some(p) => t matches Some(s) && s@ == p,
            None => t is None,
        },
{
    if bytes.len() < filter_len {
        return None;
    }
    let mut rest: Vec<u8> = Vec::new();
    let mut i = filter_len;
    while i < bytes.len()
        invariant
            filter_len <= i <= bytes@.len(),
            rest@ == bytes@.subrange(filter_len as int, i as int),
        decreases bytes@.len() - i,
    {
        rest.push(bytes[i]);
        i = i + 1;
    }
    assert(rest@ =~= bytes@.skip(filter_len as int));
    decode_text(rest.as_slice())
}

/// A message starts with the filter of its type, so subscribers to the type receive it;
/// and when the type's name is ASCII, dropping as many bytes as the name has gives the
/// carried text back unchanged.
pub proof fn lemma_text_event_round_trip(name: Seq<char>, text: Seq<char>)
    requires
        is_ascii_chars(name),
    ensures
        text_event_bytes(name, text).take(encode_utf8(name).len() as int) == encode_utf8(name),
        encode_utf8(name).len() == name.len(),
        text_event_payload(name.len(), text_event_bytes(name, text)) == Some(text),
{
    let b = text_event_bytes(name, text);
    vstd::utf8::is_ascii_chars_encode_utf8(name);
    assert(b.take(encode_utf8(name).len() as int) =~= encode_utf8(name));
    assert(b.skip(name.len() as int) =~= encode_utf8(text));
}

} // verus!
