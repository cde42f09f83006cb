//! Replies of the gateway: a status code and a JSON body in one of two
//! envelopes, `{"content": ..}` for results and `{"message": ..}` for
//! rejections.

use crate::json::{
    has_only_member, json_shape, json_text, map_insert, member_of, new_map, object_value,
    text_value, to_text, JsonShape,
};
use serde_json::Value;
use vstd::prelude::*;

verus! {

/// Status of a successful read or update.
pub const STATUS_OK: u16 = 200;

/// Status of a successful insert.
pub const STATUS_CREATED: u16 = 201;

/// Status of a command that lacks a required field.
pub const STATUS_BAD_REQUEST: u16 = 400;

/// Status of a command whose operation is not known.
pub const STATUS_NOT_FOUND: u16 = 404;

/// Status of a command that the database failed to carry out.
pub const STATUS_INTERNAL_SERVER_ERROR: u16 = 500;

/// The media type of every body, results and rejections alike.
pub const CONTENT_TYPE: &'static str = "application/json";

/// What is sent back for one command. The body always travels as JSON.
#[derive(Debug)]
pub struct Response {
    pub status: u16,
    pub body: Value,
}

/// The body could not be written out as text.
#[derive(Clone, Copy, Debug, PartialEq, Eq, Structural)]
pub enum RenderError {
    Serialization,
}

/// What `body` holds under `key`, if it is an object with that key alone.
pub open spec fn sole_member(body: Value, key: Seq<char>) -> Option<Value> {
    if has_only_member(body, key) {
        member_of(body, key)
    } else {
        None
    }
}

/// The content of a result body `{"content": ..}`.
pub open spec fn content_of(body: Value) -> Option<Value> {
    sole_member(body, "content"@)
}

/// The message of a rejection body `{"message": ..}`, the message being a
/// JSON string.
pub open spec fn message_of(body: Value) -> Option<Seq<char>> {
    match sole_member(body, "message"@) {
        Some(message) => match json_shape(message) {
            JsonShape::Text(text) => Some(text),
            _ => None,
        },
        None => None,
    }
}

/// The object that holds `inner` under `key` and nothing else.
pub fn envelope(key: &str, inner: Value) -> (r: Value)
    ensures
        sole_member(r, key@) == Some(inner),
{
    let mut fields = new_map();
    map_insert(&mut fields, key.to_owned(), inner);
    object_value(fields)
}

impl Response {
    /// A result: `content` in its envelope.
    pub fn with_content(status: u16, content: Value) -> (r: Response)
        ensures
            r.status == status,
            content_of(r.body) == Some(content),
    {
        Response { status, body: envelope("content", content) }
    }

    /// A rejection: `message` in its envelope.
    pub fn with_message(status: u16, message: &str) -> (r: Response)
        ensures
            r.status == status,
            message_of(r.body) == Some(message@),
    {
        Response { status, body: envelope("message", text_value(message.to_owned())) }
    }

    /// The body as compact JSON text, as it goes on the wire: the text that
    /// the serializer makes of the body, and `Serialization` exactly where
    /// the serializer makes none.
    pub fn body_text(&self) -> (r: Result<String, RenderError>)
        ensures
            match json_text(self.body) {
                Some(text) => r matches Ok(made) && made@ == text,
                None => r matches Err(RenderError::Serialization),
            },
    {
        rendered(to_text(&self.body))
    }
}

/// Keeps the text of a successful serialization and reports a failed one.
pub fn rendered(outcome: Result<String, serde_json::Error>) -> (r: Result<String, RenderError>)
    ensures
        match outcome {
            Ok(text) => r matches Ok(kept) && kept == text,
            Err(_) => r matches Err(RenderError::Serialization),
        },
{
    match outcome {
        Ok(text) => Ok(text),
        Err(_) => Err(RenderError::Serialization),
    }
}

} // verus!
