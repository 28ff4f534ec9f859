//! The serial dispatch engine: one session, one request in flight.
//!
//! `Session::dispatch` applies the decision from `prepare` to an owned
//! session and a backend implementing the `Filesystem` capability set, and
//! produces exactly one reply — or none, for the reply-less operations.

use vstd::prelude::*;
use crate::acl::SessionAcl;
use crate::config::{KernelConfig, SUPPORTED_MAJOR, SUPPORTED_MINOR, init_reply_for};
use crate::engine::{Action, AdviseOp, BackendOp, SessionState, prepare, prepare_spec};
use crate::errno::Errno;
use crate::ops::{FileName, ForgetItem, Request, RequestHeader, TimeOrNow, TimeSpec};
use crate::reply::{DispatchOutcome, ReplyBody, ReplyToken};

verus! {

/// The backend capability set: one method per routed operation.
///
/// Implementations are supplied by the library's users; each answerable
/// method returns either a reply payload — forwarded verbatim to the
/// kernel — or an error code, replied verbatim as an error. The advisory
/// methods (`forget`, `batch_forget`) have no result channel at all.
pub trait Filesystem {
    /// The backend's reply payload type; this core forwards it opaquely.
    type Reply;

    fn init(&self, req: &RequestHeader, config: &mut KernelConfig) -> Result<(), i32>;

    fn destroy(&self);

    fn forget(&self, req: &RequestHeader, ino: u64, nlookup: u64);

    fn batch_forget(&self, req: &RequestHeader, nodes: &Vec<ForgetItem>);

    fn lookup(&self, req: &RequestHeader, parent: u64, name: &FileName) -> Result<
        Self::Reply,
        i32,
    >;

    fn getattr(&self, req: &RequestHeader, ino: u64, fh: Option<u64>) -> Result<Self::Reply, i32>;

    fn setattr(
        &self,
        req: &RequestHeader,
        ino: u64,
        mode: Option<u32>,
        uid: Option<u32>,
        gid: Option<u32>,
        size: Option<u64>,
        atime: Option<TimeOrNow>,
        mtime: Option<TimeOrNow>,
        ctime: Option<TimeSpec>,
        fh: Option<u64>,
        crtime: Option<TimeSpec>,
        chgtime: Option<TimeSpec>,
        bkuptime: Option<TimeSpec>,
        flags: Option<u32>,
    ) -> Result<Self::Reply, i32>;

    fn readlink(&self, req: &RequestHeader, ino: u64) -> Result<Self::Reply, i32>;

    fn mknod(
        &self,
        req: &RequestHeader,
        parent: u64,
        name: &FileName,
        mode: u32,
        umask: u32,
        rdev: u32,
    ) -> Result<Self::Reply, i32>;

    fn mkdir(
        &self,
        req: &RequestHeader,
        parent: u64,
        name: &FileName,
        mode: u32,
        umask: u32,
    ) -> Result<Self::Reply, i32>;

    fn unlink(&self, req: &RequestHeader, parent: u64, name: &FileName) -> Result<
        Self::Reply,
        i32,
    >;

    fn rmdir(&self, req: &RequestHeader, parent: u64, name: &FileName) -> Result<Self::Reply, i32>;

    fn symlink(
        &self,
        req: &RequestHeader,
        parent: u64,
        link_name: &FileName,
        target: &FileName,
    ) -> Result<Self::Reply, i32>;

    fn rename(
        &self,
        req: &RequestHeader,
        parent: u64,
        name: &FileName,
        newparent: u64,
        newname: &FileName,
        flags: u32,
    ) -> Result<Self::Reply, i32>;

    fn link(&self, req: &RequestHeader, ino: u64, newparent: u64, newname: &FileName) -> Result<
        Self::Reply,
        i32,
    >;

    fn open(&self, req: &RequestHeader, ino: u64, flags: i32) -> Result<Self::Reply, i32>;

    fn read(
        &self,
        req: &RequestHeader,
        ino: u64,
        fh: u64,
        offset: i64,
        size: u32,
        flags: i32,
        lock_owner: Option<u64>,
    ) -> Result<Self::Reply, i32>;

    fn write(
        &self,
        req: &RequestHeader,
        ino: u64,
        fh: u64,
        offset: i64,
        data: &Vec<u8>,
        write_flags: u32,
        flags: i32,
        lock_owner: Option<u64>,
    ) -> Result<Self::Reply, i32>;

    fn flush(&self, req: &RequestHeader, ino: u64, fh: u64, lock_owner: u64) -> Result<
        Self::Reply,
        i32,
    >;

    fn release(
        &self,
        req: &RequestHeader,
        ino: u64,
        fh: u64,
        flags: i32,
        lock_owner: Option<u64>,
        flush: bool,
    ) -> Result<Self::Reply, i32>;

    fn fsync(&self, req: &RequestHeader, ino: u64, fh: u64, datasync: bool) -> Result<
        Self::Reply,
        i32,
    >;

    fn opendir(&self, req: &RequestHeader, ino: u64, flags: i32) -> Result<Self::Reply, i32>;

    fn readdir(&self, req: &RequestHeader, ino: u64, fh: u64, offset: i64, size: u32) -> Result<
        Self::Reply,
        i32,
    >;

    fn releasedir(&self, req: &RequestHeader, ino: u64, fh: u64, flags: i32) -> Result<
        Self::Reply,
        i32,
    >;

    fn fsyncdir(&self, req: &RequestHeader, ino: u64, fh: u64, datasync: bool) -> Result<
        Self::Reply,
        i32,
    >;

    fn statfs(&self, req: &RequestHeader, ino: u64) -> Result<Self::Reply, i32>;

    fn setxattr(
        &self,
        req: &RequestHeader,
        ino: u64,
        name: &FileName,
        value: &Vec<u8>,
        flags: i32,
        position: u32,
    ) -> Result<Self::Reply, i32>;

    fn getxattr(&self, req: &RequestHeader, ino: u64, name: &FileName, size: u32) -> Result<
        Self::Reply,
        i32,
    >;

    fn listxattr(&self, req: &RequestHeader, ino: u64, size: u32) -> Result<Self::Reply, i32>;

    fn removexattr(&self, req: &RequestHeader, ino: u64, name: &FileName) -> Result<
        Self::Reply,
        i32,
    >;

    fn access(&self, req: &RequestHeader, ino: u64, mask: i32) -> Result<Self::Reply, i32>;

    fn create(
        &self,
        req: &RequestHeader,
        parent: u64,
        name: &FileName,
        mode: u32,
        umask: u32,
        flags: i32,
    ) -> Result<Self::Reply, i32>;

    fn getlk(
        &self,
        req: &RequestHeader,
        ino: u64,
        fh: u64,
        lock_owner: u64,
        start: u64,
        end: u64,
        typ: i32,
        pid: u32,
    ) -> Result<Self::Reply, i32>;

    fn setlk(
        &self,
        req: &RequestHeader,
        ino: u64,
        fh: u64,
        lock_owner: u64,
        start: u64,
        end: u64,
        typ: i32,
        pid: u32,
        sleep: bool,
    ) -> Result<Self::Reply, i32>;

    fn bmap(&self, req: &RequestHeader, ino: u64, blocksize: u32, block: u64) -> Result<
        Self::Reply,
        i32,
    >;

    fn ioctl(
        &self,
        req: &RequestHeader,
        ino: u64,
        fh: u64,
        flags: u32,
        cmd: u32,
        in_data: &Vec<u8>,
        out_size: u32,
    ) -> Result<Self::Reply, i32>;

    fn poll(
        &self,
        req: &RequestHeader,
        ino: u64,
        fh: u64,
        kernel_handle: u64,
        events: u32,
        flags: u32,
    ) -> Result<Self::Reply, i32>;

    fn fallocate(
        &self,
        req: &RequestHeader,
        ino: u64,
        fh: u64,
        offset: i64,
        length: i64,
        mode: i32,
    ) -> Result<Self::Reply, i32>;

    fn readdirplus(
        &self,
        req: &RequestHeader,
        ino: u64,
        fh: u64,
        offset: i64,
        size: u32,
    ) -> Result<Self::Reply, i32>;

    fn lseek(&self, req: &RequestHeader, ino: u64, fh: u64, offset: i64, whence: i32) -> Result<
        Self::Reply,
        i32,
    >;

    fn copy_file_range(
        &self,
        req: &RequestHeader,
        ino_in: u64,
        fh_in: u64,
        offset_in: i64,
        ino_out: u64,
        fh_out: u64,
        offset_out: i64,
        len: u64,
        flags: u32,
    ) -> Result<Self::Reply, i32>;

    fn setvolname(&self, req: &RequestHeader, name: &FileName) -> Result<Self::Reply, i32>;

    fn getxtimes(&self, req: &RequestHeader, ino: u64) -> Result<Self::Reply, i32>;

    fn exchange(
        &self,
        req: &RequestHeader,
        from_dir: u64,
        from_name: &FileName,
        to_dir: u64,
        to_name: &FileName,
        options: u64,
    ) -> Result<Self::Reply, i32>;
}

/// Invoke the one backend capability a routed operation maps to, handing it
/// the resolved arguments, and return the backend's own result.
pub fn invoke_backend<FS: Filesystem>(fs: &FS, h: &RequestHeader, op: BackendOp) -> Result<
    FS::Reply,
    i32,
> {
    match op {
        BackendOp::Lookup { parent, name } => fs.lookup(h, parent, &name),
        BackendOp::GetAttr { ino, fh } => fs.getattr(h, ino, fh),
        BackendOp::SetAttr {
            ino, mode, uid, gid, size, atime, mtime, ctime, fh, crtime, chgtime, bkuptime, flags,
        } => fs.setattr(
            h, ino, mode, uid, gid, size, atime, mtime, ctime, fh, crtime, chgtime, bkuptime, flags,
        ),
        BackendOp::ReadLink { ino } => fs.readlink(h, ino),
        BackendOp::MkNod { parent, name, mode, umask, rdev } => fs.mknod(
            h, parent, &name, mode, umask, rdev,
        ),
        BackendOp::MkDir { parent, name, mode, umask } => fs.mkdir(h, parent, &name, mode, umask),
        BackendOp::Unlink { parent, name } => fs.unlink(h, parent, &name),
        BackendOp::RmDir { parent, name } => fs.rmdir(h, parent, &name),
        BackendOp::SymLink { parent, link_name, target } => fs.symlink(
            h, parent, &link_name, &target,
        ),
        BackendOp::Rename { parent, name, newparent, newname, flags } => fs.rename(
            h, parent, &name, newparent, &newname, flags,
        ),
        BackendOp::Link { ino, newparent, newname } => fs.link(h, ino, newparent, &newname),
        BackendOp::Open { ino, flags } => fs.open(h, ino, flags),
        BackendOp::Read { ino, fh, offset, size, flags, lock_owner } => fs.read(
            h, ino, fh, offset, size, flags, lock_owner,
        ),
        BackendOp::Write { ino, fh, offset, data, write_flags, flags, lock_owner } => fs.write(
            h, ino, fh, offset, &data, write_flags, flags, lock_owner,
        ),
        BackendOp::Flush { ino, fh, lock_owner } => fs.flush(h, ino, fh, lock_owner),
        BackendOp::Release { ino, fh, flags, lock_owner, flush } => fs.release(
            h, ino, fh, flags, lock_owner, flush,
        ),
        BackendOp::FSync { ino, fh, datasync } => fs.fsync(h, ino, fh, datasync),
        BackendOp::OpenDir { ino, flags } => fs.opendir(h, ino, flags),
        BackendOp::ReadDir { ino, fh, offset, size } => fs.readdir(h, ino, fh, offset, size),
        BackendOp::ReleaseDir { ino, fh, flags } => fs.releasedir(h, ino, fh, flags),
        BackendOp::FSyncDir { ino, fh, datasync } => fs.fsyncdir(h, ino, fh, datasync),
        BackendOp::StatFs { ino } => fs.statfs(h, ino),
        BackendOp::SetXAttr { ino, name, value, flags, position } => fs.setxattr(
            h, ino, &name, &value, flags, position,
        ),
        BackendOp::GetXAttr { ino, name, size } => fs.getxattr(h, ino, &name, size),
        BackendOp::ListXAttr { ino, size } => fs.listxattr(h, ino, size),
        BackendOp::RemoveXAttr { ino, name } => fs.removexattr(h, ino, &name),
        BackendOp::Access { ino, mask } => fs.access(h, ino, mask),
        BackendOp::Create { parent, name, mode, umask, flags } => fs.create(
            h, parent, &name, mode, umask, flags,
        ),
        BackendOp::GetLk { ino, fh, lock_owner, start, end, typ, pid } => fs.getlk(
            h, ino, fh, lock_owner, start, end, typ, pid,
        ),
        BackendOp::SetLk { ino, fh, lock_owner, start, end, typ, pid, sleep } => fs.setlk(
            h, ino, fh, lock_owner, start, end, typ, pid, sleep,
        ),
        BackendOp::BMap { ino, blocksize, block } => fs.bmap(h, ino, blocksize, block),
        BackendOp::IoCtl { ino, fh, flags, cmd, in_data, out_size } => fs.ioctl(
            h, ino, fh, flags, cmd, &in_data, out_size,
        ),
        BackendOp::Poll { ino, fh, kernel_handle, events, flags } => fs.poll(
            h, ino, fh, kernel_handle, events, flags,
        ),
        BackendOp::ReadDirPlus { ino, fh, offset, size } => fs.readdirplus(
            h, ino, fh, offset, size,
        ),
        BackendOp::FAllocate { ino, fh, offset, length, mode } => fs.fallocate(
            h, ino, fh, offset, length, mode,
        ),
        BackendOp::Lseek { ino, fh, offset, whence } => fs.lseek(h, ino, fh, offset, whence),
        BackendOp::CopyFileRange {
            ino_in, fh_in, offset_in, ino_out, fh_out, offset_out, len, flags,
        } => fs.copy_file_range(
            h, ino_in, fh_in, offset_in, ino_out, fh_out, offset_out, len, flags,
        ),
        BackendOp::SetVolName { name } => fs.setvolname(h, &name),
        BackendOp::GetXTimes { ino } => fs.getxtimes(h, ino),
        BackendOp::Exchange { from_dir, from_name, to_dir, to_name, options } => fs.exchange(
            h, from_dir, &from_name, to_dir, &to_name, options,
        ),
    }
}

/// Hand a reply-less advisory to the backend.
pub fn advise_backend<FS: Filesystem>(fs: &FS, h: &RequestHeader, op: AdviseOp) {
    match op {
        AdviseOp::Forget { ino, nlookup } => fs.forget(h, ino, nlookup),
        AdviseOp::BatchForget { nodes } => fs.batch_forget(h, &nodes),
    }
}

/// One mounted session together with the backend it dispatches into.
pub struct Session<FS> {
    /// The backend capability set.
    pub filesystem: FS,
    /// The lifecycle and policy state.
    pub state: SessionState,
}

impl<FS: Filesystem> Session<FS> {
    /// Create a session at mount time: uninitialized, with the policy and
    /// owning uid that never change thereafter.
    pub fn new(filesystem: FS, allowed: SessionAcl, session_owner: u32) -> (r: Session<FS>)
        ensures
            r.state == SessionState::spec_new(allowed, session_owner),
            r.filesystem == filesystem,
    {
        Session { filesystem, state: SessionState::new(allowed, session_owner) }
    }

    /// Dispatch one decoded request: decide per `prepare_spec`, perform the
    /// decided action against the backend, and produce the reply.
    ///
    /// The contract states the whole reply discipline: a reply is produced
    /// exactly for the answerable operations and always carries the
    /// request's unique id; the policy and owner never change; the
    /// lifecycle flags only ever advance; the negotiated version is
    /// write-once; and the session state changes exactly at the Init and
    /// Destroy transitions.
    pub fn dispatch(&mut self, req: Request) -> (r: DispatchOutcome<FS::Reply>)
        requires
            old(self).state.wf(),
        ensures
            final(self).state.wf(),
            final(self).state.allowed == old(self).state.allowed,
            final(self).state.session_owner == old(self).state.session_owner,
            old(self).state.initialized ==> final(self).state.initialized,
            old(self).state.destroyed ==> final(self).state.destroyed,
            old(self).state.initialized ==> final(self).state.proto_major == old(
                self,
            ).state.proto_major && final(self).state.proto_minor == old(self).state.proto_minor,
            // The reply-less subset and only it goes unanswered.
            (r is NoReply) <==> req.op.spec_is_reply_less(),
            // Every answer carries the unique id of its request.
            (r matches DispatchOutcome::Replied(w) ==> w.unique == req.header.unique),
            // The decided action is performed exactly.
            match prepare_spec(req.op, req.header, old(self).state) {
                Action::Reject(e) => {
                    &&& final(self).state == old(self).state
                    &&& !req.op.spec_is_reply_less() ==> (r matches DispatchOutcome::Replied(w)
                        && w.body == ReplyBody::<FS::Reply>::Error(e))
                },
                Action::InitAccept { major, minor, config: _ } => {
                    ||| (final(self).state == old(self).state && (r matches
                        DispatchOutcome::Replied(w) && w.body matches ReplyBody::Error(e)
                        && e is Backend))
                    ||| (final(self).state == old(self).state.init_transition(major, minor) && (r
                        matches DispatchOutcome::Replied(w) && w.body matches ReplyBody::Init(ir)
                        && ir.major == SUPPORTED_MAJOR && ir.minor == SUPPORTED_MINOR))
                },
                Action::DestroyAccept => {
                    &&& final(self).state == old(self).state.destroy_transition()
                    &&& (r matches DispatchOutcome::Replied(w) && w.body is Empty)
                },
                Action::Invoke(_) => {
                    &&& final(self).state == old(self).state
                    &&& (r matches DispatchOutcome::Replied(w) && (w.body is Op || (w.body matches
                        ReplyBody::Error(e) && e is Backend)))
                },
                Action::Advise(_) => {
                    &&& final(self).state == old(self).state
                    &&& r is NoReply
                },
            },
    {
        let Request { header, op } = req;
        let reply_less = op.is_reply_less();
        let token = ReplyToken::bind(header.unique);
        let action = prepare(op, header, self.state);
        match action {
            Action::Reject(e) => {
                if reply_less {
                    DispatchOutcome::NoReply
                } else {
                    DispatchOutcome::Replied(token.error(e))
                }
            },
            Action::InitAccept { major, minor, config } => {
                let mut config = config;
                match self.filesystem.init(&header, &mut config) {
                    Err(code) => DispatchOutcome::Replied(token.error(Errno::Backend(code))),
                    Ok(()) => {
                        self.state.commit_init(major, minor);
                        let ir = init_reply_for(&config);
                        DispatchOutcome::Replied(token.init(ir))
                    },
                }
            },
            Action::DestroyAccept => {
                self.filesystem.destroy();
                self.state.commit_destroy();
                DispatchOutcome::Replied(token.empty())
            },
            Action::Invoke(bop) => {
                match invoke_backend(&self.filesystem, &header, bop) {
                    Ok(payload) => DispatchOutcome::Replied(token.op(payload)),
                    Err(code) => DispatchOutcome::Replied(token.error(Errno::Backend(code))),
                }
            },
            Action::Advise(adv) => {
                advise_backend(&self.filesystem, &header, adv);
                DispatchOutcome::NoReply
            },
        }
    }
}

} // verus!
