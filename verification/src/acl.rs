//! The session's access-control policy and the kernel-mandated allowlist.
//!
//! The policy check runs before the lifecycle check. Operations on the
//! allowlist — those the kernel may issue without a trustworthy uid
//! context — bypass the policy entirely; the allowlist is a fixed table,
//! not backend-configurable.

use vstd::prelude::*;
use crate::ops::Operation;

verus! {

/// Which calling identities may issue requests against this mount.
#[derive(Clone, Copy, Debug, PartialEq, Eq, Structural)]
pub enum SessionAcl {
    /// Every caller passes.
    Unrestricted,
    /// Only the session owner passes.
    OwnerOnly,
    /// The session owner and the superuser (uid 0) pass.
    RootAndOwner,
}

/// Whether the policy denies a caller with the given uid.
pub open spec fn acl_denies(policy: SessionAcl, session_owner: u32, uid: u32) -> bool {
    ||| (policy == SessionAcl::RootAndOwner && uid != session_owner && uid != 0)
    ||| (policy == SessionAcl::OwnerOnly && uid != session_owner)
}

/// Whether the policy denies a caller with the given uid.
#[verifier::when_used_as_spec(acl_denies)]
pub fn check_acl_denies(policy: SessionAcl, session_owner: u32, uid: u32) -> (r: bool)
    ensures
        r == acl_denies(policy, session_owner, uid),
{
    (policy == SessionAcl::RootAndOwner && uid != session_owner && uid != 0)
        || (policy == SessionAcl::OwnerOnly && uid != session_owner)
}

/// Whether a protocol version is at least the given reference version,
/// comparing major.minor lexicographically.
pub open spec fn version_at_least(major: u32, minor: u32, ref_major: u32, ref_minor: u32) -> bool {
    major > ref_major || (major == ref_major && minor >= ref_minor)
}

/// Whether the negotiated protocol version supports the ReadDirPlus
/// operation (introduced in protocol revision 7.21). Before a successful
/// Init the recorded version is 0.0, which does not.
pub open spec fn supports_readdirplus(proto_major: u32, proto_minor: u32) -> bool {
    version_at_least(proto_major, proto_minor, 7, 21)
}

/// Whether an operation is on the fixed allowlist of operations the kernel
/// may issue without a trustworthy uid context. ReadDirPlus is allowlisted
/// exactly when the negotiated protocol supports it.
pub open spec fn allowlisted(op: Operation, proto_major: u32, proto_minor: u32) -> bool {
    match op {
        Operation::Init { .. } => true,
        Operation::Destroy => true,
        Operation::Read { .. } => true,
        Operation::ReadDir { .. } => true,
        Operation::ReadDirPlus { .. } => supports_readdirplus(proto_major, proto_minor),
        Operation::BatchForget { .. } => true,
        Operation::Forget { .. } => true,
        Operation::Write { .. } => true,
        Operation::FSync { .. } => true,
        Operation::FSyncDir { .. } => true,
        Operation::Release { .. } => true,
        Operation::ReleaseDir { .. } => true,
        _ => false,
    }
}

/// Whether an operation is on the fixed allowlist.
pub fn check_allowlisted(op: &Operation, proto_major: u32, proto_minor: u32) -> (r: bool)
    ensures
        r == allowlisted(*op, proto_major, proto_minor),
{
    match op {
        Operation::Init { .. } => true,
        Operation::Destroy => true,
        Operation::Read { .. } => true,
        Operation::ReadDir { .. } => true,
        Operation::ReadDirPlus { .. } => {
            proto_major > 7 || (proto_major == 7 && proto_minor >= 21)
        },
        Operation::BatchForget { .. } => true,
        Operation::Forget { .. } => true,
        Operation::Write { .. } => true,
        Operation::FSync { .. } => true,
        Operation::FSyncDir { .. } => true,
        Operation::Release { .. } => true,
        Operation::ReleaseDir { .. } => true,
        _ => false,
    }
}

} // verus!
