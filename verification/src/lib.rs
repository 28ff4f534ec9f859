//! A user-space filesystem bridge core: it takes decoded kernel requests,
//! enforces the session lifecycle and access-control policy, routes each
//! operation to the matching backend capability, and produces at most one
//! reply per request, carrying the request's unique id.

pub mod acl;
pub mod config;
pub mod engine;
pub mod errno;
pub mod laws;
pub mod migrate;
pub mod ops;
pub mod reply;
pub mod session;
pub mod text;
pub mod validator;
pub mod workflow;
