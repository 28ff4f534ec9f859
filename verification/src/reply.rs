//! Reply construction: the write-once answer to one request.
//!
//! A `ReplyToken` is the capability to answer one request; it is consumed
//! (moved) when the reply is built, so a request can never be answered
//! twice. Reply-less operations never receive a token at all.

use vstd::prelude::*;
use crate::config::InitReply;
use crate::errno::Errno;
use crate::ops::Request;

verus! {

/// The payload of one reply, generic over the backend's own reply type,
/// which this core forwards without inspecting it.
#[derive(Debug)]
pub enum ReplyBody<R> {
    /// An error reply carrying one error class.
    Error(Errno),
    /// An empty acknowledgement.
    Empty,
    /// The negotiated configuration answering an accepted Init.
    Init(InitReply),
    /// A payload produced by a backend capability, forwarded verbatim.
    Op(R),
}

/// One completed reply, bound to the unique id of the request it answers.
#[derive(Debug)]
pub struct WireReply<R> {
    /// The correlation id of the originating request.
    pub unique: u64,
    /// The reply payload.
    pub body: ReplyBody<R>,
}

/// What one dispatch produced: exactly one reply, or none for the
/// reply-less operation subset.
#[derive(Debug)]
pub enum DispatchOutcome<R> {
    Replied(WireReply<R>),
    NoReply,
}

/// The capability to answer one request exactly once. Building a reply
/// consumes the token.
#[derive(Debug)]
pub struct ReplyToken {
    unique: u64,
}

impl ReplyToken {
    /// The unique id of the request this token answers.
    pub closed spec fn spec_unique(self) -> u64 {
        self.unique
    }

    /// The unique id of the request this token answers.
    pub fn unique(&self) -> (r: u64)
        ensures
            r == self.spec_unique(),
    {
        self.unique
    }

    /// Bind a fresh token to a request's unique id.
    pub(crate) fn bind(unique: u64) -> (r: ReplyToken)
        ensures
            r.spec_unique() == unique,
    {
        ReplyToken { unique }
    }

    /// Answer with an error class.
    pub fn error<R>(self, errno: Errno) -> (r: WireReply<R>)
        ensures
            r.unique == self.spec_unique(),
            r.body == ReplyBody::<R>::Error(errno),
    {
        WireReply { unique: self.unique, body: ReplyBody::Error(errno) }
    }

    /// Answer with an empty acknowledgement.
    pub fn empty<R>(self) -> (r: WireReply<R>)
        ensures
            r.unique == self.spec_unique(),
            r.body == ReplyBody::<R>::Empty,
    {
        WireReply { unique: self.unique, body: ReplyBody::Empty }
    }

    /// Answer an accepted Init with the negotiated configuration.
    pub fn init<R>(self, init: InitReply) -> (r: WireReply<R>)
        ensures
            r.unique == self.spec_unique(),
            r.body == ReplyBody::<R>::Init(init),
    {
        WireReply { unique: self.unique, body: ReplyBody::Init(init) }
    }

    /// Answer with a payload the backend produced.
    pub fn op<R>(self, payload: R) -> (r: WireReply<R>)
        ensures
            r.unique == self.spec_unique(),
            r.body == ReplyBody::<R>::Op(payload),
    {
        WireReply { unique: self.unique, body: ReplyBody::Op(payload) }
    }
}

impl Request {
    /// The capability to answer this request; each reply carries this
    /// request's unique id.
    pub fn reply(&self) -> (r: ReplyToken)
        ensures
            r.spec_unique() == self.header.unique,
    {
        ReplyToken::bind(self.header.unique)
    }
}

} // verus!
