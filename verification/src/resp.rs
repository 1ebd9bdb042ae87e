//! Replies of the Redis server, as plain values.

use vstd::prelude::*;
use vstd::utf8::{decode_utf8, valid_utf8};
use crate::record::{parse_record, record_fields};
use crate::text::str_from_utf8;

verus! {

/// One value of the Redis serialization protocol.
#[derive(Debug)]
pub enum RespValue {
    Nil,
    /// Zero, one or more other values.
    Array(Vec<RespValue>),
    /// A byte string; Redis leaves its interpretation to the client.
    BulkString(Vec<u8>),
    /// An error from the Redis server.
    Error(String),
    /// A signed 64-bit integer.
    Integer(i64),
    SimpleString(String),
}

/// The text of a bulk string reply whose bytes are valid UTF-8.
pub open spec fn bulk_text(v: RespValue) -> Option<Seq<char>> {
    match v {
        RespValue::BulkString(b) => if valid_utf8(b@) {
            Some(decode_utf8(b@))
        } else {
            None
        },
        _ => None,
    }
}

/// Three empty fields.
pub open spec fn no_fields() -> (Seq<char>, Seq<char>, Seq<char>) {
    (Seq::<char>::empty(), Seq::<char>::empty(), Seq::<char>::empty())
}

/// The key held by a reply: its text, or the empty text when the reply is
/// absent, not a bulk string, or not UTF-8.
pub open spec fn reply_id(input: Option<RespValue>) -> Seq<char> {
    match input {
        Some(v) => match bulk_text(v) {
            Some(t) => t,
            None => Seq::<char>::empty(),
        },
        None => Seq::<char>::empty(),
    }
}

/// The fields of the record held by a reply, or three empty fields when the
/// reply is absent, not a UTF-8 bulk string, or not a three-field record.
pub open spec fn reply_fields(input: Option<RespValue>) -> (Seq<char>, Seq<char>, Seq<char>) {
    match input {
        Some(v) => match bulk_text(v) {
            Some(t) => match record_fields(t) {
                Some(f) => f,
                None => no_fields(),
            },
            None => no_fields(),
        },
        None => no_fields(),
    }
}

/// The text of a bulk string reply, when it is valid UTF-8.
pub fn text_of(v: &RespValue) -> (res: Option<&str>)
    ensures
        match (res, bulk_text(*v)) {
            (Some(s), Some(t)) => s@ == t,
            (None, None) => true,
            _ => false,
        },
{
    match v {
        RespValue::BulkString(b) => str_from_utf8(b.as_slice()),
        _ => None,
    }
}

/// The key held by one reply value.
pub fn id_of(v: &RespValue) -> (res: String)
    ensures
        res@ == reply_id(Some(*v)),
{
    match text_of(v) {
        Some(t) => t.to_owned(),
        None => String::new(),
    }
}

/// The record fields held by one reply value.
pub fn fields_of(v: &RespValue) -> (res: (String, String, String))
    ensures
        (res.0@, res.1@, res.2@) == reply_fields(Some(*v)),
{
    match text_of(v) {
        Some(t) => match parse_record(t) {
            Some(f) => f,
            None => (String::new(), String::new(), String::new()),
        },
        None => (String::new(), String::new(), String::new()),
    }
}

} // verus!
