//! Decoded kernel requests: the header and the typed operation payload.
//!
//! The byte-level wire codec is an external collaborator: it hands this core
//! a `RequestHeader` together with exactly one `Operation` variant, and
//! unknown opcodes fail decoding before a variant is ever produced.

use vstd::prelude::*;

verus! {

/// A point in time as the kernel transmits it: seconds and nanoseconds.
#[derive(Clone, Copy, Debug, PartialEq, Eq, Structural)]
pub struct TimeSpec {
    pub secs: i64,
    pub nsecs: u32,
}

/// A timestamp argument that is either an explicit time or "now".
#[derive(Clone, Copy, Debug, PartialEq, Eq, Structural)]
pub enum TimeOrNow {
    Specific(TimeSpec),
    Now,
}

/// One node of a batched lookup-count decrement.
#[derive(Clone, Copy, Debug, PartialEq, Eq, Structural)]
pub struct ForgetItem {
    pub ino: u64,
    pub nlookup: u64,
}

/// A file name as the kernel transmits it: a byte string.
pub type FileName = Vec<u8>;

/// The per-request metadata every operation carries.
#[derive(Clone, Copy, Debug, PartialEq, Eq, Structural)]
pub struct RequestHeader {
    /// Correlation id assigned by the kernel; echoed on the matching reply.
    pub unique: u64,
    /// The node the operation targets.
    pub nodeid: u64,
    /// Uid of the originating caller.
    pub uid: u32,
    /// Gid of the originating caller.
    pub gid: u32,
    /// Pid of the originating caller.
    pub pid: u32,
}

/// The typed payload of one decoded request: exactly one variant is active.
#[derive(Debug)]
pub enum Operation {
    // Lifecycle operations.
    Init { major: u32, minor: u32, max_readahead: u32, capabilities: u64 },
    Destroy,
    Interrupt { unique: u64 },
    NotifyReply,
    CuseInit,
    // Metadata operations.
    Lookup { name: FileName },
    GetAttr { fh: Option<u64> },
    SetAttr {
        mode: Option<u32>,
        uid: Option<u32>,
        gid: Option<u32>,
        size: Option<u64>,
        atime: Option<TimeOrNow>,
        mtime: Option<TimeOrNow>,
        ctime: Option<TimeSpec>,
        fh: Option<u64>,
        crtime: Option<TimeSpec>,
        chgtime: Option<TimeSpec>,
        bkuptime: Option<TimeSpec>,
        flags: Option<u32>,
    },
    ReadLink,
    Access { mask: i32 },
    StatFs,
    // Namespace operations.
    MkNod { name: FileName, mode: u32, umask: u32, rdev: u32 },
    MkDir { name: FileName, mode: u32, umask: u32 },
    Unlink { name: FileName },
    RmDir { name: FileName },
    SymLink { link_name: FileName, target: FileName },
    Rename { name: FileName, newparent: u64, newname: FileName },
    Rename2 { from_dir: u64, from_name: FileName, to_dir: u64, to_name: FileName, flags: u32 },
    Link { ino: u64, newname: FileName },
    // Data operations.
    Open { flags: i32 },
    Read { fh: u64, offset: i64, size: u32, flags: i32, lock_owner: Option<u64> },
    Write {
        fh: u64,
        offset: i64,
        data: Vec<u8>,
        write_flags: u32,
        flags: i32,
        lock_owner: Option<u64>,
    },
    Flush { fh: u64, lock_owner: u64 },
    Release { fh: u64, flags: i32, lock_owner: Option<u64>, flush: bool },
    FSync { fh: u64, datasync: bool },
    Create { name: FileName, mode: u32, umask: u32, flags: i32 },
    // Directory operations.
    OpenDir { flags: i32 },
    ReadDir { fh: u64, offset: i64, size: u32 },
    ReadDirPlus { fh: u64, offset: i64, size: u32 },
    ReleaseDir { fh: u64, flags: i32 },
    FSyncDir { fh: u64, datasync: bool },
    // Extended-attribute operations.
    SetXAttr { name: FileName, value: Vec<u8>, flags: i32, position: u32 },
    GetXAttr { name: FileName, size: u32 },
    ListXAttr { size: u32 },
    RemoveXAttr { name: FileName },
    // Lock operations.
    GetLk { fh: u64, lock_owner: u64, start: u64, end: u64, typ: i32, pid: u32 },
    SetLk { fh: u64, lock_owner: u64, start: u64, end: u64, typ: i32, pid: u32 },
    SetLkW { fh: u64, lock_owner: u64, start: u64, end: u64, typ: i32, pid: u32 },
    // Miscellaneous operations.
    BMap { blocksize: u32, block: u64 },
    IoCtl { unrestricted: bool, fh: u64, flags: u32, cmd: u32, in_data: Vec<u8>, out_size: u32 },
    Poll { fh: u64, kernel_handle: u64, events: u32, flags: u32 },
    FAllocate { fh: u64, offset: i64, length: i64, mode: i32 },
    Lseek { fh: u64, offset: i64, whence: i32 },
    CopyFileRange {
        ino_in: u64,
        fh_in: u64,
        offset_in: i64,
        ino_out: u64,
        fh_out: u64,
        offset_out: i64,
        len: u64,
        flags: u32,
    },
    BatchForget { nodes: Vec<ForgetItem> },
    Forget { nlookup: u64 },
    // Platform-specific operations.
    SetVolName { name: FileName },
    GetXTimes,
    Exchange { from_dir: u64, from_name: FileName, to_dir: u64, to_name: FileName, options: u64 },
}

impl Operation {
    /// Whether this operation belongs to the reply-less (advisory) subset:
    /// a lookup-count decrement that is never answered.
    pub open spec fn spec_is_reply_less(&self) -> bool {
        self is Forget || self is BatchForget
    }

    /// Whether this operation belongs to the reply-less (advisory) subset.
    #[verifier::when_used_as_spec(spec_is_reply_less)]
    pub fn is_reply_less(&self) -> (r: bool)
        ensures
            r == self.spec_is_reply_less(),
    {
        match self {
            Operation::Forget { .. } => true,
            Operation::BatchForget { .. } => true,
            _ => false,
        }
    }
}

/// One decoded request: the header and its operation, alive for the span of
/// one dispatch.
#[derive(Debug)]
pub struct Request {
    pub header: RequestHeader,
    pub op: Operation,
}

impl Request {
    /// Bundle a decoded header and operation into a request.
    pub fn new(header: RequestHeader, op: Operation) -> (r: Request)
        ensures
            r.header == header,
            r.op == op,
    {
        Request { header, op }
    }

    /// The unique identifier of this request.
    pub fn unique(&self) -> (r: u64)
        ensures
            r == self.header.unique,
    {
        self.header.unique
    }

    /// The uid of this request's caller.
    pub fn uid(&self) -> (r: u32)
        ensures
            r == self.header.uid,
    {
        self.header.uid
    }

    /// The gid of this request's caller.
    pub fn gid(&self) -> (r: u32)
        ensures
            r == self.header.gid,
    {
        self.header.gid
    }

    /// The pid of this request's caller.
    pub fn pid(&self) -> (r: u32)
        ensures
            r == self.header.pid,
    {
        self.header.pid
    }
}

} // verus!
