use vstd::prelude::*;

use crate::effect::{category_of, classify, same_text, EffectCategory};

verus! {

/// The loopback address and fixed port the relay listens on.
pub const LISTEN_ADDRESS: &'static str = "127.0.0.1:23333";

/// The port part of the listen address.
pub const LISTEN_PORT: u16 = 23333;

/// The only path the relay answers.
pub const TRIGGER_PATH: &'static str = "/trigger";

/// The request methods of HTTP/1.1; any other method is `NonStandard`.
#[derive(Clone, Copy, Debug, PartialEq, Eq, Structural)]
pub enum HttpMethod {
    Get,
    Head,
    Post,
    Put,
    Delete,
    Connect,
    Options,
    Trace,
    Patch,
    NonStandard,
}

/// A trigger notification: the free-form label its sender gave it.
pub struct TriggerRequest {
    pub event_type: String,
}

/// What reading and decoding the body of a trigger request gave.
pub enum TriggerBody {
    /// The body could not be read from the connection.
    Unreadable,
    /// The body was read but is not a JSON object with a string `type`.
    Invalid,
    /// The decoded request.
    Parsed(TriggerRequest),
}

/// The relay's answer to one request: the HTTP status and text to send back,
/// and the effect to publish on the event bus, if any.
pub struct Reply {
    pub status: u16,
    pub text: &'static str,
    pub publish: Option<EffectCategory>,
}

impl Reply {
    /// The reply as plain values: status, text and effect to publish.
    pub open spec fn model(self) -> (u16, Seq<char>, Option<EffectCategory>) {
        (self.status, self.text@, self.publish)
    }
}

/// Whether a request is a trigger notification: a POST to the trigger path.
pub open spec fn is_trigger(method: HttpMethod, url: Seq<char>) -> bool {
    method == HttpMethod::Post && url == "/trigger"@
}

/// The answer to a request for which `is_trigger` does not hold.
pub open spec fn not_found_reply() -> (u16, Seq<char>, Option<EffectCategory>) {
    (404, "Not Found"@, None)
}

/// The answer to a trigger notification, by what its body gave.
pub open spec fn trigger_reply(body: TriggerBody) -> (u16, Seq<char>, Option<EffectCategory>) {
    match body {
        TriggerBody::Unreadable => (400, "Failed to read body"@, None),
        TriggerBody::Invalid => (400, "Invalid JSON"@, None),
        TriggerBody::Parsed(t) => (200, "OK"@, Some(category_of(t.event_type@))),
    }
}

/// The answer to any request.
pub open spec fn request_reply(method: HttpMethod, url: Seq<char>, body: TriggerBody) -> (
    u16,
    Seq<char>,
    Option<EffectCategory>,
) {
    if is_trigger(method, url) {
        trigger_reply(body)
    } else {
        not_found_reply()
    }
}

/// Whether the request is a trigger notification, whose body must be read.
pub fn is_trigger_route(method: HttpMethod, url: &str) -> (r: bool)
    ensures
        r == is_trigger(method, url@),
{
    method == HttpMethod::Post && same_text(url, TRIGGER_PATH)
}

/// The answer to a request that is not a trigger notification.
pub fn not_found() -> (r: Reply)
    ensures
        r.model() == not_found_reply(),
{
    Reply { status: 404, text: "Not Found", publish: None }
}

/// The answer to a trigger notification: a read failure and an undecodable
/// body are refused with 400; a decoded request is classified and accepted.
pub fn answer_trigger(body: &TriggerBody) -> (r: Reply)
    ensures
        r.model() == trigger_reply(*body),
{
    match body {
        TriggerBody::Unreadable => Reply { status: 400, text: "Failed to read body", publish: None },
        TriggerBody::Invalid => Reply { status: 400, text: "Invalid JSON", publish: None },
        TriggerBody::Parsed(t) => {
            let category = classify(t.event_type.as_str());
            Reply { status: 200, text: "OK", publish: Some(category) }
        },
    }
}

/// The answer to one request; the body is looked at only for a trigger
/// notification.
pub fn handle_request(method: HttpMethod, url: &str, body: &TriggerBody) -> (r: Reply)
    ensures
        r.model() == request_reply(method, url@, *body),
{
    if is_trigger_route(method, url) {
        answer_trigger(body)
    } else {
        not_found()
    }
}

} // verus!
