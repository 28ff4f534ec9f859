//! The engine's protocol laws, stated over the decision spec.
//!
//! Each law quantifies over every operation and session state its premises
//! admit; together with `Session::dispatch`'s contract (which performs the
//! decided action exactly, leaves the state unchanged on every rejection,
//! and answers with the decided error class unless the operation is
//! reply-less) they pin the lifecycle and access-control behaviour.

use vstd::prelude::*;
use crate::acl::{SessionAcl, acl_denies, allowlisted};
use crate::config::version_below_min;
use crate::engine::{Action, SessionState, prepare_spec};
use crate::errno::Errno;
use crate::ops::{Operation, RequestHeader};

verus! {

/// Law: before a successful Init, every operation except Init itself is
/// rejected with the ordering-violation error, whenever the access-control
/// policy admits the caller. By `Session::dispatch`'s contract a rejection
/// leaves the session state unchanged, and a rejected reply-less operation
/// is dropped without an answer.
pub proof fn lemma_reject_before_init(op: Operation, h: RequestHeader, st: SessionState)
    requires
        st.wf(),
        !st.initialized,
        !(op is Init),
        !acl_denies(st.allowed, st.session_owner, h.uid) || allowlisted(
            op,
            st.proto_major,
            st.proto_minor,
        ),
    ensures
        prepare_spec(op, h, st) == Action::Reject(Errno::Io),
{
}

/// Law: after Destroy, every operation — Destroy itself included, which is
/// not re-enterable, so the backend's destroy capability runs at most once
/// per session — is rejected with the ordering-violation error, whenever
/// the access-control policy admits the caller.
pub proof fn lemma_reject_after_destroy(op: Operation, h: RequestHeader, st: SessionState)
    requires
        st.wf(),
        st.destroyed,
        !acl_denies(st.allowed, st.session_owner, h.uid) || allowlisted(
            op,
            st.proto_major,
            st.proto_minor,
        ),
    ensures
        prepare_spec(op, h, st) == Action::Reject(Errno::Io),
{
}

/// Law: under the root-and-owner policy, a caller who is neither the
/// session owner nor the superuser is denied with the permission error
/// exactly on the operations outside the kernel-mandated allowlist; every
/// allowlisted operation passes the access-control check.
pub proof fn lemma_acl_partition_root_and_owner(
    op: Operation,
    h: RequestHeader,
    st: SessionState,
)
    requires
        st.allowed == SessionAcl::RootAndOwner,
        h.uid != st.session_owner,
        h.uid != 0,
    ensures
        (prepare_spec(op, h, st) == Action::Reject(Errno::Access)) <==> !allowlisted(
            op,
            st.proto_major,
            st.proto_minor,
        ),
{
}

/// Law: under the owner-only policy, a caller other than the session owner
/// is denied with the permission error exactly on the operations outside
/// the kernel-mandated allowlist.
pub proof fn lemma_acl_partition_owner_only(op: Operation, h: RequestHeader, st: SessionState)
    requires
        st.allowed == SessionAcl::OwnerOnly,
        h.uid != st.session_owner,
    ensures
        (prepare_spec(op, h, st) == Action::Reject(Errno::Access)) <==> !allowlisted(
            op,
            st.proto_major,
            st.proto_minor,
        ),
{
}

/// Law: under the unrestricted policy, and likewise for the session owner
/// under any policy, no operation is ever denied with the permission error.
pub proof fn lemma_admitted_caller_never_denied(op: Operation, h: RequestHeader, st: SessionState)
    requires
        st.allowed == SessionAcl::Unrestricted || h.uid == st.session_owner,
    ensures
        prepare_spec(op, h, st) != Action::Reject(Errno::Access),
{
}

/// Law: an Init that claims a protocol version below the supported minimum
/// is rejected with the protocol-version error on any live, uninitialized
/// session; by `Session::dispatch`'s contract the session state is
/// unchanged, so `initialized` is never set by such an Init.
pub proof fn lemma_init_below_min_version(op: Operation, h: RequestHeader, st: SessionState)
    requires
        st.wf(),
        !st.initialized,
        op matches Operation::Init { major, minor, .. } && version_below_min(major, minor),
    ensures
        prepare_spec(op, h, st) == Action::Reject(Errno::Proto),
{
}

/// Law: the engine routes an operation to the backend — by invoking a
/// capability or passing on an advisory — only in an initialized, live
/// session; in particular nothing reaches the backend before Init or after
/// Destroy.
pub proof fn lemma_backend_only_when_live(op: Operation, h: RequestHeader, st: SessionState)
    requires
        prepare_spec(op, h, st) is Invoke || prepare_spec(op, h, st) is Advise,
    ensures
        st.initialized,
        !st.destroyed,
{
}

} // verus!
