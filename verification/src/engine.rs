//! The dispatch decision: access control, lifecycle, and the routing table.
//!
//! `prepare` turns one decoded operation, its header, and a snapshot of the
//! session state into exactly one `Action`: reject with an error class,
//! begin the Init or Destroy transition, invoke one routed backend
//! capability, or pass on a reply-less advisory. Its result is pinned by
//! `prepare_spec`, so every execution model (serial or concurrent) that acts
//! on the returned `Action` enforces the same protocol.

use vstd::prelude::*;
use crate::acl::{SessionAcl, acl_denies, allowlisted, check_acl_denies, check_allowlisted};
use crate::config::{KernelConfig, check_version_below_min, version_below_min};
use crate::errno::Errno;
use crate::ops::{FileName, ForgetItem, Operation, RequestHeader, TimeOrNow, TimeSpec};

verus! {

/// The lifecycle and policy state of one mounted session, as plain fields.
///
/// The serial dispatcher owns one of these directly; a concurrent
/// dispatcher snapshots its shared cells into this form before deciding.
#[derive(Clone, Copy, Debug, PartialEq, Eq, Structural)]
pub struct SessionState {
    /// Protocol major version recorded by a successful Init; 0 before.
    pub proto_major: u32,
    /// Protocol minor version recorded by a successful Init; 0 before.
    pub proto_minor: u32,
    /// Whether a successful Init has completed.
    pub initialized: bool,
    /// Whether a Destroy has completed.
    pub destroyed: bool,
    /// The access-control policy fixed at mount time.
    pub allowed: SessionAcl,
    /// The owning uid captured at mount time.
    pub session_owner: u32,
}

impl SessionState {
    /// A session is well formed when a destroyed session has also been
    /// initialized: the lifecycle is linear and skips no state.
    pub open spec fn wf(self) -> bool {
        self.destroyed ==> self.initialized
    }

    /// The state of a session freshly created at mount time.
    pub open spec fn spec_new(allowed: SessionAcl, session_owner: u32) -> SessionState {
        SessionState {
            proto_major: 0,
            proto_minor: 0,
            initialized: false,
            destroyed: false,
            allowed,
            session_owner,
        }
    }

    /// Create the state of a session at mount time: uninitialized, with the
    /// policy and owner that never change thereafter.
    pub fn new(allowed: SessionAcl, session_owner: u32) -> (r: SessionState)
        ensures
            r == SessionState::spec_new(allowed, session_owner),
    {
        SessionState {
            proto_major: 0,
            proto_minor: 0,
            initialized: false,
            destroyed: false,
            allowed,
            session_owner,
        }
    }

    /// The state after a successful Init: the negotiated version is
    /// recorded and the session is marked initialized.
    pub open spec fn init_transition(self, major: u32, minor: u32) -> SessionState {
        SessionState { proto_major: major, proto_minor: minor, initialized: true, ..self }
    }

    /// The state after a Destroy: the session is marked destroyed.
    pub open spec fn destroy_transition(self) -> SessionState {
        SessionState { destroyed: true, ..self }
    }

    /// Record a successful Init.
    pub fn commit_init(&mut self, major: u32, minor: u32)
        ensures
            *final(self) == old(self).init_transition(major, minor),
    {
        self.proto_major = major;
        self.proto_minor = minor;
        self.initialized = true;
    }

    /// Record a completed Destroy.
    pub fn commit_destroy(&mut self)
        ensures
            *final(self) == old(self).destroy_transition(),
    {
        self.destroyed = true;
    }
}

/// One reply-less advisory handed to the backend: a lookup-count decrement.
#[derive(Debug)]
pub enum AdviseOp {
    Forget { ino: u64, nlookup: u64 },
    BatchForget { nodes: Vec<ForgetItem> },
}

/// One routed backend capability call with its fully resolved arguments.
/// Each answerable, non-lifecycle operation maps to exactly one of these.
#[derive(Debug)]
pub enum BackendOp {
    Lookup { parent: u64, name: FileName },
    GetAttr { ino: u64, fh: Option<u64> },
    SetAttr {
        ino: u64,
        mode: Option<u32>,
        uid: Option<u32>,
        gid: Option<u32>,
        size: Option<u64>,
        atime: Option<TimeOrNow>,
        mtime: Option<TimeOrNow>,
        ctime: Option<TimeSpec>,
        fh: Option<u64>,
        crtime: Option<TimeSpec>,
        chgtime: Option<TimeSpec>,
        bkuptime: Option<TimeSpec>,
        flags: Option<u32>,
    },
    ReadLink { ino: u64 },
    MkNod { parent: u64, name: FileName, mode: u32, umask: u32, rdev: u32 },
    MkDir { parent: u64, name: FileName, mode: u32, umask: u32 },
    Unlink { parent: u64, name: FileName },
    RmDir { parent: u64, name: FileName },
    SymLink { parent: u64, link_name: FileName, target: FileName },
    Rename { parent: u64, name: FileName, newparent: u64, newname: FileName, flags: u32 },
    Link { ino: u64, newparent: u64, newname: FileName },
    Open { ino: u64, flags: i32 },
    Read { ino: u64, fh: u64, offset: i64, size: u32, flags: i32, lock_owner: Option<u64> },
    Write {
        ino: u64,
        fh: u64,
        offset: i64,
        data: Vec<u8>,
        write_flags: u32,
        flags: i32,
        lock_owner: Option<u64>,
    },
    Flush { ino: u64, fh: u64, lock_owner: u64 },
    Release { ino: u64, fh: u64, flags: i32, lock_owner: Option<u64>, flush: bool },
    FSync { ino: u64, fh: u64, datasync: bool },
    OpenDir { ino: u64, flags: i32 },
    ReadDir { ino: u64, fh: u64, offset: i64, size: u32 },
    ReleaseDir { ino: u64, fh: u64, flags: i32 },
    FSyncDir { ino: u64, fh: u64, datasync: bool },
    StatFs { ino: u64 },
    SetXAttr { ino: u64, name: FileName, value: Vec<u8>, flags: i32, position: u32 },
    GetXAttr { ino: u64, name: FileName, size: u32 },
    ListXAttr { ino: u64, size: u32 },
    RemoveXAttr { ino: u64, name: FileName },
    Access { ino: u64, mask: i32 },
    Create { parent: u64, name: FileName, mode: u32, umask: u32, flags: i32 },
    GetLk { ino: u64, fh: u64, lock_owner: u64, start: u64, end: u64, typ: i32, pid: u32 },
    SetLk {
        ino: u64,
        fh: u64,
        lock_owner: u64,
        start: u64,
        end: u64,
        typ: i32,
        pid: u32,
        sleep: bool,
    },
    BMap { ino: u64, blocksize: u32, block: u64 },
    IoCtl { ino: u64, fh: u64, flags: u32, cmd: u32, in_data: Vec<u8>, out_size: u32 },
    Poll { ino: u64, fh: u64, kernel_handle: u64, events: u32, flags: u32 },
    ReadDirPlus { ino: u64, fh: u64, offset: i64, size: u32 },
    FAllocate { ino: u64, fh: u64, offset: i64, length: i64, mode: i32 },
    Lseek { ino: u64, fh: u64, offset: i64, whence: i32 },
    CopyFileRange {
        ino_in: u64,
        fh_in: u64,
        offset_in: i64,
        ino_out: u64,
        fh_out: u64,
        offset_out: i64,
        len: u64,
        flags: u32,
    },
    SetVolName { name: FileName },
    GetXTimes { ino: u64 },
    Exchange { from_dir: u64, from_name: FileName, to_dir: u64, to_name: FileName, options: u64 },
}

/// What the engine decided for one request.
#[derive(Debug)]
pub enum Action {
    /// Answer with this error class; the backend is not invoked.
    Reject(Errno),
    /// Begin the Init transition: call the backend's init capability with
    /// this fresh negotiation state, then commit the version on success.
    InitAccept { major: u32, minor: u32, config: KernelConfig },
    /// Begin the Destroy transition: call the backend's destroy capability,
    /// then mark the session destroyed and acknowledge.
    DestroyAccept,
    /// Invoke exactly this backend capability and forward its result.
    Invoke(BackendOp),
    /// Hand this advisory to the backend; no reply is ever produced.
    Advise(AdviseOp),
}

/// The routing table: which backend capability an answerable,
/// non-lifecycle operation maps to, with its arguments resolved against
/// the request header. A 1:1 mapping over the closed set of variants.
pub open spec fn route(op: Operation, h: RequestHeader) -> BackendOp {
    match op {
        Operation::Lookup { name } => BackendOp::Lookup { parent: h.nodeid, name },
        Operation::GetAttr { fh } => BackendOp::GetAttr { ino: h.nodeid, fh },
        Operation::SetAttr {
            mode, uid, gid, size, atime, mtime, ctime, fh, crtime, chgtime, bkuptime, flags,
        } => BackendOp::SetAttr {
            ino: h.nodeid,
            mode, uid, gid, size, atime, mtime, ctime, fh, crtime, chgtime, bkuptime, flags,
        },
        Operation::ReadLink => BackendOp::ReadLink { ino: h.nodeid },
        Operation::MkNod { name, mode, umask, rdev } => BackendOp::MkNod {
            parent: h.nodeid, name, mode, umask, rdev,
        },
        Operation::MkDir { name, mode, umask } => BackendOp::MkDir {
            parent: h.nodeid, name, mode, umask,
        },
        Operation::Unlink { name } => BackendOp::Unlink { parent: h.nodeid, name },
        Operation::RmDir { name } => BackendOp::RmDir { parent: h.nodeid, name },
        Operation::SymLink { link_name, target } => BackendOp::SymLink {
            parent: h.nodeid, link_name, target,
        },
        Operation::Rename { name, newparent, newname } => BackendOp::Rename {
            parent: h.nodeid, name, newparent, newname, flags: 0,
        },
        Operation::Rename2 { from_dir, from_name, to_dir, to_name, flags } => BackendOp::Rename {
            parent: from_dir, name: from_name, newparent: to_dir, newname: to_name, flags,
        },
        Operation::Link { ino, newname } => BackendOp::Link {
            ino, newparent: h.nodeid, newname,
        },
        Operation::Open { flags } => BackendOp::Open { ino: h.nodeid, flags },
        Operation::Read { fh, offset, size, flags, lock_owner } => BackendOp::Read {
            ino: h.nodeid, fh, offset, size, flags, lock_owner,
        },
        Operation::Write { fh, offset, data, write_flags, flags, lock_owner } => BackendOp::Write {
            ino: h.nodeid, fh, offset, data, write_flags, flags, lock_owner,
        },
        Operation::Flush { fh, lock_owner } => BackendOp::Flush { ino: h.nodeid, fh, lock_owner },
        Operation::Release { fh, flags, lock_owner, flush } => BackendOp::Release {
            ino: h.nodeid, fh, flags, lock_owner, flush,
        },
        Operation::FSync { fh, datasync } => BackendOp::FSync { ino: h.nodeid, fh, datasync },
        Operation::OpenDir { flags } => BackendOp::OpenDir { ino: h.nodeid, flags },
        Operation::ReadDir { fh, offset, size } => BackendOp::ReadDir {
            ino: h.nodeid, fh, offset, size,
        },
        Operation::ReleaseDir { fh, flags } => BackendOp::ReleaseDir { ino: h.nodeid, fh, flags },
        Operation::FSyncDir { fh, datasync } => BackendOp::FSyncDir {
            ino: h.nodeid, fh, datasync,
        },
        Operation::StatFs => BackendOp::StatFs { ino: h.nodeid },
        Operation::SetXAttr { name, value, flags, position } => BackendOp::SetXAttr {
            ino: h.nodeid, name, value, flags, position,
        },
        Operation::GetXAttr { name, size } => BackendOp::GetXAttr { ino: h.nodeid, name, size },
        Operation::ListXAttr { size } => BackendOp::ListXAttr { ino: h.nodeid, size },
        Operation::RemoveXAttr { name } => BackendOp::RemoveXAttr { ino: h.nodeid, name },
        Operation::Access { mask } => BackendOp::Access { ino: h.nodeid, mask },
        Operation::Create { name, mode, umask, flags } => BackendOp::Create {
            parent: h.nodeid, name, mode, umask, flags,
        },
        Operation::GetLk { fh, lock_owner, start, end, typ, pid } => BackendOp::GetLk {
            ino: h.nodeid, fh, lock_owner, start, end, typ, pid,
        },
        Operation::SetLk { fh, lock_owner, start, end, typ, pid } => BackendOp::SetLk {
            ino: h.nodeid, fh, lock_owner, start, end, typ, pid, sleep: false,
        },
        Operation::SetLkW { fh, lock_owner, start, end, typ, pid } => BackendOp::SetLk {
            ino: h.nodeid, fh, lock_owner, start, end, typ, pid, sleep: true,
        },
        Operation::BMap { blocksize, block } => BackendOp::BMap {
            ino: h.nodeid, blocksize, block,
        },
        Operation::IoCtl { unrestricted: _, fh, flags, cmd, in_data, out_size } => BackendOp::IoCtl {
            ino: h.nodeid, fh, flags, cmd, in_data, out_size,
        },
        Operation::Poll { fh, kernel_handle, events, flags } => BackendOp::Poll {
            ino: h.nodeid, fh, kernel_handle, events, flags,
        },
        Operation::ReadDirPlus { fh, offset, size } => BackendOp::ReadDirPlus {
            ino: h.nodeid, fh, offset, size,
        },
        Operation::FAllocate { fh, offset, length, mode } => BackendOp::FAllocate {
            ino: h.nodeid, fh, offset, length, mode,
        },
        Operation::Lseek { fh, offset, whence } => BackendOp::Lseek {
            ino: h.nodeid, fh, offset, whence,
        },
        Operation::CopyFileRange {
            ino_in, fh_in, offset_in, ino_out, fh_out, offset_out, len, flags,
        } => BackendOp::CopyFileRange {
            ino_in, fh_in, offset_in, ino_out, fh_out, offset_out, len, flags,
        },
        Operation::SetVolName { name } => BackendOp::SetVolName { name },
        Operation::GetXTimes => BackendOp::GetXTimes { ino: h.nodeid },
        Operation::Exchange { from_dir, from_name, to_dir, to_name, options } => {
            BackendOp::Exchange { from_dir, from_name, to_dir, to_name, options }
        },
        _ => arbitrary(),
    }
}

/// The advisory a reply-less operation hands to the backend.
pub open spec fn advise_of(op: Operation, h: RequestHeader) -> AdviseOp {
    match op {
        Operation::Forget { nlookup } => AdviseOp::Forget { ino: h.nodeid, nlookup },
        Operation::BatchForget { nodes } => AdviseOp::BatchForget { nodes },
        _ => arbitrary(),
    }
}

/// Whether the engine answers this operation with "not implemented":
/// Interrupt, NotifyReply and CuseInit are accepted at the protocol level
/// but not implemented, and only restricted IoCtl passthrough is supported.
pub open spec fn not_implemented(op: Operation) -> bool {
    match op {
        Operation::Interrupt { .. } => true,
        Operation::NotifyReply => true,
        Operation::CuseInit => true,
        Operation::IoCtl { unrestricted, .. } => unrestricted,
        _ => false,
    }
}

/// What the engine decides for one request, in evaluation order:
///
/// 1. a caller the policy denies may issue only allowlisted operations;
/// 2. after Destroy every operation is an ordering violation — Destroy is
///    not re-enterable, so the backend's destroy capability runs at most
///    once;
/// 3. Init is accepted exactly once, and only at or above the minimum
///    supported protocol version — the negotiated version is write-once;
/// 4. anything else before a successful Init is an ordering violation;
/// 5. Destroy begins the teardown transition;
/// 6. unimplemented operations are answered as such;
/// 7. reply-less advisories are passed on without a reply;
/// 8. everything else is routed to exactly one backend capability.
pub open spec fn prepare_spec(op: Operation, h: RequestHeader, st: SessionState) -> Action {
    if acl_denies(st.allowed, st.session_owner, h.uid)
        && !allowlisted(op, st.proto_major, st.proto_minor) {
        Action::Reject(Errno::Access)
    } else if st.destroyed {
        Action::Reject(Errno::Io)
    } else {
        match op {
            Operation::Init { major, minor, max_readahead, capabilities } => {
                if st.initialized {
                    Action::Reject(Errno::Io)
                } else if version_below_min(major, minor) {
                    Action::Reject(Errno::Proto)
                } else {
                    Action::InitAccept {
                        major,
                        minor,
                        config: KernelConfig::spec_new(capabilities, max_readahead),
                    }
                }
            },
            _ => {
                if !st.initialized {
                    Action::Reject(Errno::Io)
                } else if op is Destroy {
                    Action::DestroyAccept
                } else if not_implemented(op) {
                    Action::Reject(Errno::NotImplemented)
                } else if op.spec_is_reply_less() {
                    Action::Advise(advise_of(op, h))
                } else {
                    Action::Invoke(route(op, h))
                }
            },
        }
    }
}

/// Decide one request: apply the access-control check, the lifecycle state
/// machine and the routing table, exactly as `prepare_spec` states.
#[verifier::rlimit(50)]
pub fn prepare(op: Operation, h: RequestHeader, st: SessionState) -> (r: Action)
    ensures
        r == prepare_spec(op, h, st),
{
    if check_acl_denies(st.allowed, st.session_owner, h.uid)
        && !check_allowlisted(&op, st.proto_major, st.proto_minor) {
        return Action::Reject(Errno::Access);
    }
    if st.destroyed {
        return Action::Reject(Errno::Io);
    }
    match op {
        Operation::Init { major, minor, max_readahead, capabilities } => {
            if st.initialized {
                Action::Reject(Errno::Io)
            } else if check_version_below_min(major, minor) {
                Action::Reject(Errno::Proto)
            } else {
                Action::InitAccept { major, minor, config: KernelConfig::new(capabilities, max_readahead) }
            }
        },
        op => {
            if !st.initialized {
                return Action::Reject(Errno::Io);
            }
            match op {
                Operation::Destroy => Action::DestroyAccept,
                Operation::Interrupt { .. } => Action::Reject(Errno::NotImplemented),
                Operation::NotifyReply => Action::Reject(Errno::NotImplemented),
                Operation::CuseInit => Action::Reject(Errno::NotImplemented),
                Operation::Forget { nlookup } => Action::Advise(AdviseOp::Forget {
                    ino: h.nodeid,
                    nlookup,
                }),
                Operation::BatchForget { nodes } => Action::Advise(AdviseOp::BatchForget { nodes }),
                Operation::Lookup { name } => Action::Invoke(BackendOp::Lookup {
                    parent: h.nodeid,
                    name,
                }),
                Operation::GetAttr { fh } => Action::Invoke(BackendOp::GetAttr {
                    ino: h.nodeid,
                    fh,
                }),
                Operation::SetAttr {
                    mode, uid, gid, size, atime, mtime, ctime, fh, crtime, chgtime, bkuptime, flags,
                } => Action::Invoke(BackendOp::SetAttr {
                    ino: h.nodeid,
                    mode, uid, gid, size, atime, mtime, ctime, fh, crtime, chgtime, bkuptime, flags,
                }),
                Operation::ReadLink => Action::Invoke(BackendOp::ReadLink { ino: h.nodeid }),
                Operation::MkNod { name, mode, umask, rdev } => Action::Invoke(BackendOp::MkNod {
                    parent: h.nodeid, name, mode, umask, rdev,
                }),
                Operation::MkDir { name, mode, umask } => Action::Invoke(BackendOp::MkDir {
                    parent: h.nodeid, name, mode, umask,
                }),
                Operation::Unlink { name } => Action::Invoke(BackendOp::Unlink {
                    parent: h.nodeid, name,
                }),
                Operation::RmDir { name } => Action::Invoke(BackendOp::RmDir {
                    parent: h.nodeid, name,
                }),
                Operation::SymLink { link_name, target } => Action::Invoke(BackendOp::SymLink {
                    parent: h.nodeid, link_name, target,
                }),
                Operation::Rename { name, newparent, newname } => Action::Invoke(BackendOp::Rename {
                    parent: h.nodeid, name, newparent, newname, flags: 0,
                }),
                Operation::Rename2 { from_dir, from_name, to_dir, to_name, flags } => Action::Invoke(
                    BackendOp::Rename {
                        parent: from_dir, name: from_name, newparent: to_dir, newname: to_name, flags,
                    },
                ),
                Operation::Link { ino, newname } => Action::Invoke(BackendOp::Link {
                    ino, newparent: h.nodeid, newname,
                }),
                Operation::Open { flags } => Action::Invoke(BackendOp::Open {
                    ino: h.nodeid, flags,
                }),
                Operation::Read { fh, offset, size, flags, lock_owner } => Action::Invoke(
                    BackendOp::Read { ino: h.nodeid, fh, offset, size, flags, lock_owner },
                ),
                Operation::Write { fh, offset, data, write_flags, flags, lock_owner } => Action::Invoke(
                    BackendOp::Write {
                        ino: h.nodeid, fh, offset, data, write_flags, flags, lock_owner,
                    },
                ),
                Operation::Flush { fh, lock_owner } => Action::Invoke(BackendOp::Flush {
                    ino: h.nodeid, fh, lock_owner,
                }),
                Operation::Release { fh, flags, lock_owner, flush } => Action::Invoke(
                    BackendOp::Release { ino: h.nodeid, fh, flags, lock_owner, flush },
                ),
                Operation::FSync { fh, datasync } => Action::Invoke(BackendOp::FSync {
                    ino: h.nodeid, fh, datasync,
                }),
                Operation::OpenDir { flags } => Action::Invoke(BackendOp::OpenDir {
                    ino: h.nodeid, flags,
                }),
                Operation::ReadDir { fh, offset, size } => Action::Invoke(BackendOp::ReadDir {
                    ino: h.nodeid, fh, offset, size,
                }),
                Operation::ReleaseDir { fh, flags } => Action::Invoke(BackendOp::ReleaseDir {
                    ino: h.nodeid, fh, flags,
                }),
                Operation::FSyncDir { fh, datasync } => Action::Invoke(BackendOp::FSyncDir {
                    ino: h.nodeid, fh, datasync,
                }),
                Operation::StatFs => Action::Invoke(BackendOp::StatFs { ino: h.nodeid }),
                Operation::SetXAttr { name, value, flags, position } => Action::Invoke(
                    BackendOp::SetXAttr { ino: h.nodeid, name, value, flags, position },
                ),
                Operation::GetXAttr { name, size } => Action::Invoke(BackendOp::GetXAttr {
                    ino: h.nodeid, name, size,
                }),
                Operation::ListXAttr { size } => Action::Invoke(BackendOp::ListXAttr {
                    ino: h.nodeid, size,
                }),
                Operation::RemoveXAttr { name } => Action::Invoke(BackendOp::RemoveXAttr {
                    ino: h.nodeid, name,
                }),
                Operation::Access { mask } => Action::Invoke(BackendOp::Access {
                    ino: h.nodeid, mask,
                }),
                Operation::Create { name, mode, umask, flags } => Action::Invoke(BackendOp::Create {
                    parent: h.nodeid, name, mode, umask, flags,
                }),
                Operation::GetLk { fh, lock_owner, start, end, typ, pid } => Action::Invoke(
                    BackendOp::GetLk { ino: h.nodeid, fh, lock_owner, start, end, typ, pid },
                ),
                Operation::SetLk { fh, lock_owner, start, end, typ, pid } => Action::Invoke(
                    BackendOp::SetLk {
                        ino: h.nodeid, fh, lock_owner, start, end, typ, pid, sleep: false,
                    },
                ),
                Operation::SetLkW { fh, lock_owner, start, end, typ, pid } => Action::Invoke(
                    BackendOp::SetLk {
                        ino: h.nodeid, fh, lock_owner, start, end, typ, pid, sleep: true,
                    },
                ),
                Operation::BMap { blocksize, block } => Action::Invoke(BackendOp::BMap {
                    ino: h.nodeid, blocksize, block,
                }),
                Operation::IoCtl { unrestricted, fh, flags, cmd, in_data, out_size } => {
                    if unrestricted {
                        Action::Reject(Errno::NotImplemented)
                    } else {
                        Action::Invoke(BackendOp::IoCtl {
                            ino: h.nodeid, fh, flags, cmd, in_data, out_size,
                        })
                    }
                },
                Operation::Poll { fh, kernel_handle, events, flags } => Action::Invoke(
                    BackendOp::Poll { ino: h.nodeid, fh, kernel_handle, events, flags },
                ),
                Operation::ReadDirPlus { fh, offset, size } => Action::Invoke(
                    BackendOp::ReadDirPlus { ino: h.nodeid, fh, offset, size },
                ),
                Operation::FAllocate { fh, offset, length, mode } => Action::Invoke(
                    BackendOp::FAllocate { ino: h.nodeid, fh, offset, length, mode },
                ),
                Operation::Lseek { fh, offset, whence } => Action::Invoke(BackendOp::Lseek {
                    ino: h.nodeid, fh, offset, whence,
                }),
                Operation::CopyFileRange {
                    ino_in, fh_in, offset_in, ino_out, fh_out, offset_out, len, flags,
                } => Action::Invoke(BackendOp::CopyFileRange {
                    ino_in, fh_in, offset_in, ino_out, fh_out, offset_out, len, flags,
                }),
                Operation::SetVolName { name } => Action::Invoke(BackendOp::SetVolName { name }),
                Operation::GetXTimes => Action::Invoke(BackendOp::GetXTimes { ino: h.nodeid }),
                Operation::Exchange { from_dir, from_name, to_dir, to_name, options } => {
                    Action::Invoke(BackendOp::Exchange {
                        from_dir, from_name, to_dir, to_name, options,
                    })
                },
                Operation::Init { .. } => {
                    // Unreachable: Init is handled by the outer match.
                    proof {
                        assert(false);
                    }
                    Action::Reject(Errno::Io)
                },
            }
        },
    }
}

} // verus!
