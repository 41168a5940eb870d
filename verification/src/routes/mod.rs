//! The HTTP-visible surface of the service, modelled as plain values: the
//! reply a handler decides on, and the trivial liveness probe.

use vstd::prelude::*;

pub mod pokemon;

use crate::routes::pokemon::ShakespearedDescription;

verus! {

/// The body of a reply, before serialization by the surrounding process.
#[derive(Debug)]
pub enum ReplyBody {
    /// No body at all; the opaque server-error replies carry nothing.
    Empty,
    /// A short human-readable message, sent as a JSON string.
    Message(String),
    /// The shaped output of a successful request, sent as a JSON object.
    Description(ShakespearedDescription),
}

/// The HTTP-visible outcome of one request: a status code and a body.
#[derive(Debug)]
pub struct HttpReply {
    pub status: u16,
    pub body: ReplyBody,
}

/// Liveness probe for `GET /healthz`: always 200 with an empty body. It
/// consults nothing, so upstream provider health cannot change it.
pub fn healthz() -> (r: HttpReply)
    ensures
        r.status == 200,
        r.body is Empty,
{
    HttpReply { status: 200, body: ReplyBody::Empty }
}

} // verus!
