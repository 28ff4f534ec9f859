//! Scenario tests for the dispatch engine: lifecycle, access control,
//! version negotiation, routing and the reply discipline.

use std::cell::RefCell;

use levfs::acl::SessionAcl;
use levfs::config::{KernelConfig, SUPPORTED_MAJOR, SUPPORTED_MINOR};
use levfs::engine::SessionState;
use levfs::errno::Errno;
use levfs::ops::{ForgetItem, Operation, Request, RequestHeader};
use levfs::reply::{DispatchOutcome, ReplyBody, WireReply};
use levfs::session::{Filesystem, Session};

struct TestFs {
    calls: RefCell<Vec<String>>,
    init_error: Option<i32>,
    requested_caps: u64,
    op_error: Option<i32>,
}

impl TestFs {
    fn new() -> TestFs {
        TestFs { calls: RefCell::new(Vec::new()), init_error: None, requested_caps: 0, op_error: None }
    }

    fn with_requested_caps(caps: u64) -> TestFs {
        TestFs { requested_caps: caps, ..TestFs::new() }
    }

    fn rec(&self, name: &str) -> Result<String, i32> {
        self.calls.borrow_mut().push(name.to_string());
        match self.op_error {
            Some(code) => Err(code),
            None => Ok(name.to_string()),
        }
    }

    fn count(&self, name: &str) -> usize {
        self.calls.borrow().iter().filter(|c| c.as_str() == name).count()
    }
}

impl Filesystem for TestFs {
    type Reply = String;

    fn init(&self, _req: &RequestHeader, config: &mut KernelConfig) -> Result<(), i32> {
        self.calls.borrow_mut().push("init".to_string());
        if let Some(code) = self.init_error {
            return Err(code);
        }
        config.add_capabilities(self.requested_caps);
        Ok(())
    }

    fn destroy(&self) {
        self.calls.borrow_mut().push("destroy".to_string());
    }

    fn forget(&self, _req: &RequestHeader, _ino: u64, _nlookup: u64) {
        self.calls.borrow_mut().push("forget".to_string());
    }

    fn batch_forget(&self, _req: &RequestHeader, _nodes: &Vec<ForgetItem>) {
        self.calls.borrow_mut().push("batch_forget".to_string());
    }

    fn lookup(&self, _req: &RequestHeader, _parent: u64, _name: &Vec<u8>) -> Result<String, i32> {
        self.rec("lookup")
    }

    fn getattr(&self, _req: &RequestHeader, _ino: u64, _fh: Option<u64>) -> Result<String, i32> {
        self.rec("getattr")
    }

    fn setattr(
        &self,
        _req: &RequestHeader,
        _ino: u64,
        _mode: Option<u32>,
        _uid: Option<u32>,
        _gid: Option<u32>,
        _size: Option<u64>,
        _atime: Option<levfs::ops::TimeOrNow>,
        _mtime: Option<levfs::ops::TimeOrNow>,
        _ctime: Option<levfs::ops::TimeSpec>,
        _fh: Option<u64>,
        _crtime: Option<levfs::ops::TimeSpec>,
        _chgtime: Option<levfs::ops::TimeSpec>,
        _bkuptime: Option<levfs::ops::TimeSpec>,
        _flags: Option<u32>,
    ) -> Result<String, i32> {
        self.rec("setattr")
    }

    fn readlink(&self, _req: &RequestHeader, _ino: u64) -> Result<String, i32> {
        self.rec("readlink")
    }

    fn mknod(
        &self,
        _req: &RequestHeader,
        _parent: u64,
        _name: &Vec<u8>,
        _mode: u32,
        _umask: u32,
        _rdev: u32,
    ) -> Result<String, i32> {
        self.rec("mknod")
    }

    fn mkdir(
        &self,
        _req: &RequestHeader,
        _parent: u64,
        _name: &Vec<u8>,
        _mode: u32,
        _umask: u32,
    ) -> Result<String, i32> {
        self.rec("mkdir")
    }

    fn unlink(&self, _req: &RequestHeader, _parent: u64, _name: &Vec<u8>) -> Result<String, i32> {
        self.rec("unlink")
    }

    fn rmdir(&self, _req: &RequestHeader, _parent: u64, _name: &Vec<u8>) -> Result<String, i32> {
        self.rec("rmdir")
    }

    fn symlink(
        &self,
        _req: &RequestHeader,
        _parent: u64,
        _link_name: &Vec<u8>,
        _target: &Vec<u8>,
    ) -> Result<String, i32> {
        self.rec("symlink")
    }

    fn rename(
        &self,
        _req: &RequestHeader,
        _parent: u64,
        _name: &Vec<u8>,
        _newparent: u64,
        _newname: &Vec<u8>,
        flags: u32,
    ) -> Result<String, i32> {
        self.rec(&format!("rename:{flags}"))
    }

    fn link(
        &self,
        _req: &RequestHeader,
        _ino: u64,
        _newparent: u64,
        _newname: &Vec<u8>,
    ) -> Result<String, i32> {
        self.rec("link")
    }

    fn open(&self, _req: &RequestHeader, _ino: u64, _flags: i32) -> Result<String, i32> {
        self.rec("open")
    }

    fn read(
        &self,
        _req: &RequestHeader,
        _ino: u64,
        _fh: u64,
        _offset: i64,
        _size: u32,
        _flags: i32,
        _lock_owner: Option<u64>,
    ) -> Result<String, i32> {
        self.rec("read")
    }

    fn write(
        &self,
        _req: &RequestHeader,
        _ino: u64,
        _fh: u64,
        _offset: i64,
        _data: &Vec<u8>,
        _write_flags: u32,
        _flags: i32,
        _lock_owner: Option<u64>,
    ) -> Result<String, i32> {
        self.rec("write")
    }

    fn flush(&self, _req: &RequestHeader, _ino: u64, _fh: u64, _lock_owner: u64) -> Result<String, i32> {
        self.rec("flush")
    }

    fn release(
        &self,
        _req: &RequestHeader,
        _ino: u64,
        _fh: u64,
        _flags: i32,
        _lock_owner: Option<u64>,
        _flush: bool,
    ) -> Result<String, i32> {
        self.rec("release")
    }

    fn fsync(&self, _req: &RequestHeader, _ino: u64, _fh: u64, _datasync: bool) -> Result<String, i32> {
        self.rec("fsync")
    }

    fn opendir(&self, _req: &RequestHeader, _ino: u64, _flags: i32) -> Result<String, i32> {
        self.rec("opendir")
    }

    fn readdir(
        &self,
        _req: &RequestHeader,
        _ino: u64,
        _fh: u64,
        _offset: i64,
        _size: u32,
    ) -> Result<String, i32> {
        self.rec("readdir")
    }

    fn releasedir(&self, _req: &RequestHeader, _ino: u64, _fh: u64, _flags: i32) -> Result<String, i32> {
        self.rec("releasedir")
    }

    fn fsyncdir(&self, _req: &RequestHeader, _ino: u64, _fh: u64, _datasync: bool) -> Result<String, i32> {
        self.rec("fsyncdir")
    }

    fn statfs(&self, _req: &RequestHeader, _ino: u64) -> Result<String, i32> {
        self.rec("statfs")
    }

    fn setxattr(
        &self,
        _req: &RequestHeader,
        _ino: u64,
        _name: &Vec<u8>,
        _value: &Vec<u8>,
        _flags: i32,
        _position: u32,
    ) -> Result<String, i32> {
        self.rec("setxattr")
    }

    fn getxattr(
        &self,
        _req: &RequestHeader,
        _ino: u64,
        _name: &Vec<u8>,
        _size: u32,
    ) -> Result<String, i32> {
        self.rec("getxattr")
    }

    fn listxattr(&self, _req: &RequestHeader, _ino: u64, _size: u32) -> Result<String, i32> {
        self.rec("listxattr")
    }

    fn removexattr(&self, _req: &RequestHeader, _ino: u64, _name: &Vec<u8>) -> Result<String, i32> {
        self.rec("removexattr")
    }

    fn access(&self, _req: &RequestHeader, _ino: u64, _mask: i32) -> Result<String, i32> {
        self.rec("access")
    }

    fn create(
        &self,
        _req: &RequestHeader,
        _parent: u64,
        _name: &Vec<u8>,
        _mode: u32,
        _umask: u32,
        _flags: i32,
    ) -> Result<String, i32> {
        self.rec("create")
    }

    fn getlk(
        &self,
        _req: &RequestHeader,
        _ino: u64,
        _fh: u64,
        _lock_owner: u64,
        _start: u64,
        _end: u64,
        _typ: i32,
        _pid: u32,
    ) -> Result<String, i32> {
        self.rec("getlk")
    }

    fn setlk(
        &self,
        _req: &RequestHeader,
        _ino: u64,
        _fh: u64,
        _lock_owner: u64,
        _start: u64,
        _end: u64,
        _typ: i32,
        _pid: u32,
        sleep: bool,
    ) -> Result<String, i32> {
        self.rec(&format!("setlk:{sleep}"))
    }

    fn bmap(&self, _req: &RequestHeader, _ino: u64, _blocksize: u32, _block: u64) -> Result<String, i32> {
        self.rec("bmap")
    }

    fn ioctl(
        &self,
        _req: &RequestHeader,
        _ino: u64,
        _fh: u64,
        _flags: u32,
        _cmd: u32,
        _in_data: &Vec<u8>,
        _out_size: u32,
    ) -> Result<String, i32> {
        self.rec("ioctl")
    }

    fn poll(
        &self,
        _req: &RequestHeader,
        _ino: u64,
        _fh: u64,
        _kernel_handle: u64,
        _events: u32,
        _flags: u32,
    ) -> Result<String, i32> {
        self.rec("poll")
    }

    fn fallocate(
        &self,
        _req: &RequestHeader,
        _ino: u64,
        _fh: u64,
        _offset: i64,
        _length: i64,
        _mode: i32,
    ) -> Result<String, i32> {
        self.rec("fallocate")
    }

    fn readdirplus(
        &self,
        _req: &RequestHeader,
        _ino: u64,
        _fh: u64,
        _offset: i64,
        _size: u32,
    ) -> Result<String, i32> {
        self.rec("readdirplus")
    }

    fn lseek(
        &self,
        _req: &RequestHeader,
        _ino: u64,
        _fh: u64,
        _offset: i64,
        _whence: i32,
    ) -> Result<String, i32> {
        self.rec("lseek")
    }

    fn copy_file_range(
        &self,
        _req: &RequestHeader,
        _ino_in: u64,
        _fh_in: u64,
        _offset_in: i64,
        _ino_out: u64,
        _fh_out: u64,
        _offset_out: i64,
        _len: u64,
        _flags: u32,
    ) -> Result<String, i32> {
        self.rec("copy_file_range")
    }

    fn setvolname(&self, _req: &RequestHeader, _name: &Vec<u8>) -> Result<String, i32> {
        self.rec("setvolname")
    }

    fn getxtimes(&self, _req: &RequestHeader, _ino: u64) -> Result<String, i32> {
        self.rec("getxtimes")
    }

    fn exchange(
        &self,
        _req: &RequestHeader,
        _from_dir: u64,
        _from_name: &Vec<u8>,
        _to_dir: u64,
        _to_name: &Vec<u8>,
        _options: u64,
    ) -> Result<String, i32> {
        self.rec("exchange")
    }
}

fn hdr(unique: u64, nodeid: u64, uid: u32) -> RequestHeader {
    RequestHeader { unique, nodeid, uid, gid: 0, pid: 0 }
}

fn init_op(major: u32, minor: u32) -> Operation {
    Operation::Init { major, minor, max_readahead: 65536, capabilities: 0xABC }
}

fn lookup_op() -> Operation {
    Operation::Lookup { name: b"file".to_vec() }
}

fn session(acl: SessionAcl, owner: u32) -> Session<TestFs> {
    Session::new(TestFs::new(), acl, owner)
}

fn expect_reply(out: DispatchOutcome<String>) -> WireReply<String> {
    match out {
        DispatchOutcome::Replied(w) => w,
        DispatchOutcome::NoReply => panic!("expected a reply"),
    }
}

fn expect_error(out: DispatchOutcome<String>) -> (u64, Errno) {
    let w = expect_reply(out);
    match w.body {
        ReplyBody::Error(e) => (w.unique, e),
        _ => panic!("expected an error reply"),
    }
}

fn run_init(se: &mut Session<TestFs>) {
    let out = se.dispatch(Request::new(hdr(1, 0, 0), init_op(7, 31)));
    let w = expect_reply(out);
    assert!(matches!(w.body, ReplyBody::Init(_)));
}

#[test]
fn init_accepted_at_supported_version() {
    let mut se = Session::new(TestFs::with_requested_caps(0xF0F), SessionAcl::Unrestricted, 0);
    let out = se.dispatch(Request::new(hdr(9, 0, 0), init_op(7, 6)));
    let w = expect_reply(out);
    assert_eq!(w.unique, 9);
    match w.body {
        ReplyBody::Init(ir) => {
            assert_eq!(ir.major, SUPPORTED_MAJOR);
            assert_eq!(ir.minor, SUPPORTED_MINOR);
            // The granted capabilities are the intersection of what the
            // kernel offered and what the backend requested.
            assert_eq!(ir.capabilities, 0xABC & 0xF0F);
            assert_eq!(ir.max_readahead, 65536);
        },
        _ => panic!("expected an init reply"),
    }
    assert!(se.state.initialized);
    assert!(!se.state.destroyed);
    assert_eq!(se.state.proto_major, 7);
    assert_eq!(se.state.proto_minor, 6);
    assert_eq!(se.filesystem.count("init"), 1);
}

#[test]
fn init_below_minimum_version_rejected() {
    let mut se = session(SessionAcl::Unrestricted, 0);
    let out = se.dispatch(Request::new(hdr(2, 0, 0), init_op(6, 0)));
    let (unique, errno) = expect_error(out);
    assert_eq!(unique, 2);
    assert_eq!(errno, Errno::Proto);
    assert_eq!(errno.code(), 71);
    assert!(!se.state.initialized);
    // The backend's init capability was never invoked.
    assert_eq!(se.filesystem.count("init"), 0);
    // A subsequent lookup is still rejected as "before init".
    let out = se.dispatch(Request::new(hdr(3, 1, 0), lookup_op()));
    let (_, errno) = expect_error(out);
    assert_eq!(errno, Errno::Io);
    assert_eq!(errno.code(), 5);
}

#[test]
fn operations_before_init_rejected() {
    let mut se = session(SessionAcl::Unrestricted, 0);
    for (unique, op) in [
        (10, Operation::GetAttr { fh: None }),
        (11, Operation::StatFs),
        (12, Operation::Destroy),
        (13, Operation::Open { flags: 0 }),
    ] {
        let out = se.dispatch(Request::new(hdr(unique, 1, 0), op));
        let (u, errno) = expect_error(out);
        assert_eq!(u, unique);
        assert_eq!(errno, Errno::Io);
    }
    assert!(!se.state.initialized);
    assert!(se.filesystem.calls.borrow().is_empty());
}

#[test]
fn operations_after_destroy_rejected() {
    let mut se = session(SessionAcl::Unrestricted, 0);
    run_init(&mut se);
    let out = se.dispatch(Request::new(hdr(5, 0, 0), Operation::Destroy));
    let w = expect_reply(out);
    assert_eq!(w.unique, 5);
    assert!(matches!(w.body, ReplyBody::Empty));
    assert!(se.state.destroyed);
    // The backend's destroy capability was invoked exactly once.
    assert_eq!(se.filesystem.count("destroy"), 1);
    // Subsequent operations — a second Destroy included — are rejected.
    let out = se.dispatch(Request::new(hdr(6, 1, 0), Operation::GetAttr { fh: None }));
    let (_, errno) = expect_error(out);
    assert_eq!(errno, Errno::Io);
    let out = se.dispatch(Request::new(hdr(7, 0, 0), Operation::Destroy));
    let (_, errno) = expect_error(out);
    assert_eq!(errno, Errno::Io);
    assert_eq!(se.filesystem.count("destroy"), 1);
}

fn sample_ops() -> Vec<(&'static str, Operation)> {
    vec![
        ("Init", init_op(7, 31)),
        ("Destroy", Operation::Destroy),
        ("Interrupt", Operation::Interrupt { unique: 4 }),
        ("NotifyReply", Operation::NotifyReply),
        ("CuseInit", Operation::CuseInit),
        ("Lookup", lookup_op()),
        ("GetAttr", Operation::GetAttr { fh: None }),
        ("SetAttr", Operation::SetAttr {
            mode: None, uid: None, gid: None, size: None, atime: None, mtime: None,
            ctime: None, fh: None, crtime: None, chgtime: None, bkuptime: None, flags: None,
        }),
        ("ReadLink", Operation::ReadLink),
        ("Access", Operation::Access { mask: 4 }),
        ("StatFs", Operation::StatFs),
        ("MkNod", Operation::MkNod { name: b"n".to_vec(), mode: 0, umask: 0, rdev: 0 }),
        ("MkDir", Operation::MkDir { name: b"d".to_vec(), mode: 0, umask: 0 }),
        ("Unlink", Operation::Unlink { name: b"f".to_vec() }),
        ("RmDir", Operation::RmDir { name: b"d".to_vec() }),
        ("SymLink", Operation::SymLink { link_name: b"l".to_vec(), target: b"t".to_vec() }),
        ("Rename", Operation::Rename { name: b"a".to_vec(), newparent: 2, newname: b"b".to_vec() }),
        ("Rename2", Operation::Rename2 {
            from_dir: 1, from_name: b"a".to_vec(), to_dir: 2, to_name: b"b".to_vec(), flags: 1,
        }),
        ("Link", Operation::Link { ino: 3, newname: b"l".to_vec() }),
        ("Open", Operation::Open { flags: 0 }),
        ("Read", Operation::Read { fh: 1, offset: 0, size: 16, flags: 0, lock_owner: None }),
        ("Write", Operation::Write {
            fh: 1, offset: 0, data: b"x".to_vec(), write_flags: 0, flags: 0, lock_owner: None,
        }),
        ("Flush", Operation::Flush { fh: 1, lock_owner: 0 }),
        ("Release", Operation::Release { fh: 1, flags: 0, lock_owner: None, flush: false }),
        ("FSync", Operation::FSync { fh: 1, datasync: false }),
        ("Create", Operation::Create { name: b"c".to_vec(), mode: 0, umask: 0, flags: 0 }),
        ("OpenDir", Operation::OpenDir { flags: 0 }),
        ("ReadDir", Operation::ReadDir { fh: 1, offset: 0, size: 4096 }),
        ("ReadDirPlus", Operation::ReadDirPlus { fh: 1, offset: 0, size: 4096 }),
        ("ReleaseDir", Operation::ReleaseDir { fh: 1, flags: 0 }),
        ("FSyncDir", Operation::FSyncDir { fh: 1, datasync: false }),
        ("SetXAttr", Operation::SetXAttr {
            name: b"k".to_vec(), value: b"v".to_vec(), flags: 0, position: 0,
        }),
        ("GetXAttr", Operation::GetXAttr { name: b"k".to_vec(), size: 16 }),
        ("ListXAttr", Operation::ListXAttr { size: 16 }),
        ("RemoveXAttr", Operation::RemoveXAttr { name: b"k".to_vec() }),
        ("GetLk", Operation::GetLk { fh: 1, lock_owner: 0, start: 0, end: 1, typ: 0, pid: 1 }),
        ("SetLk", Operation::SetLk { fh: 1, lock_owner: 0, start: 0, end: 1, typ: 0, pid: 1 }),
        ("SetLkW", Operation::SetLkW { fh: 1, lock_owner: 0, start: 0, end: 1, typ: 0, pid: 1 }),
        ("BMap", Operation::BMap { blocksize: 512, block: 1 }),
        ("IoCtl", Operation::IoCtl {
            unrestricted: false, fh: 1, flags: 0, cmd: 0, in_data: Vec::new(), out_size: 0,
        }),
        ("Poll", Operation::Poll { fh: 1, kernel_handle: 1, events: 0, flags: 0 }),
        ("FAllocate", Operation::FAllocate { fh: 1, offset: 0, length: 1, mode: 0 }),
        ("Lseek", Operation::Lseek { fh: 1, offset: 0, whence: 0 }),
        ("CopyFileRange", Operation::CopyFileRange {
            ino_in: 1, fh_in: 1, offset_in: 0, ino_out: 2, fh_out: 2, offset_out: 0, len: 1,
            flags: 0,
        }),
        ("SetVolName", Operation::SetVolName { name: b"v".to_vec() }),
        ("GetXTimes", Operation::GetXTimes),
        ("Exchange", Operation::Exchange {
            from_dir: 1, from_name: b"a".to_vec(), to_dir: 2, to_name: b"b".to_vec(), options: 0,
        }),
        ("Forget", Operation::Forget { nlookup: 1 }),
        ("BatchForget", Operation::BatchForget {
            nodes: vec![ForgetItem { ino: 1, nlookup: 1 }],
        }),
    ]
}

/// Over the full allowlist/non-allowlist partition: with a denied caller
/// under RootAndOwner, exactly the non-allowlisted operations fail with
/// the permission error. (At the negotiated 7.31, ReadDirPlus is
/// allowlisted.)
#[test]
fn acl_partition_under_root_and_owner() {
    let allowlisted = [
        "Init", "Destroy", "Read", "ReadDir", "ReadDirPlus", "BatchForget", "Forget", "Write",
        "FSync", "FSyncDir", "Release", "ReleaseDir",
    ];
    for (name, op) in sample_ops() {
        let mut se = session(SessionAcl::RootAndOwner, 1000);
        run_init(&mut se);
        // uid 7 is neither the owner (1000) nor root (0).
        let out = se.dispatch(Request::new(hdr(50, 1, 7), op));
        let denied = match out {
            DispatchOutcome::Replied(w) => matches!(w.body, ReplyBody::Error(Errno::Access)),
            DispatchOutcome::NoReply => false,
        };
        if allowlisted.contains(&name) {
            assert!(!denied, "{name} is allowlisted but was denied");
        } else {
            assert!(denied, "{name} is not allowlisted but passed the ACL");
        }
    }
}

/// Before Init the recorded protocol version is 0.0, so ReadDirPlus is
/// not allowlisted and a denied caller gets the permission error.
#[test]
fn readdirplus_not_allowlisted_before_negotiation() {
    let mut se = session(SessionAcl::RootAndOwner, 1000);
    let out = se.dispatch(Request::new(
        hdr(60, 1, 7),
        Operation::ReadDirPlus { fh: 1, offset: 0, size: 4096 },
    ));
    let (_, errno) = expect_error(out);
    assert_eq!(errno, Errno::Access);
}

#[test]
fn owner_only_policy_scenario() {
    // Session with OwnerOnly policy, owner uid 1000.
    let mut se = session(SessionAcl::OwnerOnly, 1000);
    run_init(&mut se);
    // A Read from uid 1000 is routed to the backend.
    let read_op = |unique| Request::new(
        hdr(unique, 1, if unique == 20 { 1000 } else { 1001 }),
        Operation::Read { fh: 1, offset: 0, size: 16, flags: 0, lock_owner: None },
    );
    let w = expect_reply(se.dispatch(read_op(20)));
    assert!(matches!(w.body, ReplyBody::Op(ref p) if p == "read"));
    // A Read from uid 1001 is allowed too: Read is on the allowlist.
    let w = expect_reply(se.dispatch(read_op(21)));
    assert!(matches!(w.body, ReplyBody::Op(ref p) if p == "read"));
    assert_eq!(se.filesystem.count("read"), 2);
    // A SetAttr from uid 1001 is rejected with the permission error.
    let out = se.dispatch(Request::new(hdr(22, 1, 1001), Operation::SetAttr {
        mode: None, uid: None, gid: None, size: None, atime: None, mtime: None,
        ctime: None, fh: None, crtime: None, chgtime: None, bkuptime: None, flags: None,
    }));
    let (_, errno) = expect_error(out);
    assert_eq!(errno, Errno::Access);
    assert_eq!(errno.code(), 13);
    assert_eq!(se.filesystem.count("setattr"), 0);
}

/// Every answered request's reply carries the unique id of its request.
#[test]
fn replies_echo_the_request_unique() {
    let mut se = session(SessionAcl::Unrestricted, 0);
    run_init(&mut se);
    for (unique, op) in [
        (100, lookup_op()),
        (101, Operation::GetAttr { fh: None }),
        (102, Operation::Interrupt { unique: 4 }),
        (103, Operation::StatFs),
    ] {
        let w = expect_reply(se.dispatch(Request::new(hdr(unique, 1, 0), op)));
        assert_eq!(w.unique, unique);
    }
}

/// Forget and BatchForget never produce a reply, whatever the session
/// state or the outcome.
#[test]
fn forget_ops_never_reply() {
    // Before init: dropped, not answered.
    let mut se = session(SessionAcl::Unrestricted, 0);
    let out = se.dispatch(Request::new(hdr(1, 1, 0), Operation::Forget { nlookup: 1 }));
    assert!(matches!(out, DispatchOutcome::NoReply));
    assert_eq!(se.filesystem.count("forget"), 0);
    // Initialized: passed to the backend, still not answered.
    run_init(&mut se);
    let out = se.dispatch(Request::new(hdr(2, 1, 0), Operation::Forget { nlookup: 1 }));
    assert!(matches!(out, DispatchOutcome::NoReply));
    assert_eq!(se.filesystem.count("forget"), 1);
    let out = se.dispatch(Request::new(
        hdr(3, 1, 0),
        Operation::BatchForget { nodes: vec![ForgetItem { ino: 1, nlookup: 2 }] },
    ));
    assert!(matches!(out, DispatchOutcome::NoReply));
    assert_eq!(se.filesystem.count("batch_forget"), 1);
}

#[test]
fn not_implemented_operations() {
    let mut se = session(SessionAcl::Unrestricted, 0);
    run_init(&mut se);
    for (unique, op) in [
        (30, Operation::Interrupt { unique: 1 }),
        (31, Operation::NotifyReply),
        (32, Operation::CuseInit),
        (33, Operation::IoCtl {
            unrestricted: true, fh: 1, flags: 0, cmd: 0, in_data: Vec::new(), out_size: 0,
        }),
    ] {
        let (u, errno) = expect_error(se.dispatch(Request::new(hdr(unique, 1, 0), op)));
        assert_eq!(u, unique);
        assert_eq!(errno, Errno::NotImplemented);
        assert_eq!(errno.code(), 38);
    }
    // Restricted IoCtl reaches the backend.
    let w = expect_reply(se.dispatch(Request::new(hdr(34, 1, 0), Operation::IoCtl {
        unrestricted: false, fh: 1, flags: 0, cmd: 0, in_data: Vec::new(), out_size: 0,
    })));
    assert!(matches!(w.body, ReplyBody::Op(ref p) if p == "ioctl"));
}

#[test]
fn backend_errors_pass_through_verbatim() {
    let mut se = session(SessionAcl::Unrestricted, 0);
    run_init(&mut se);
    se.filesystem.op_error = Some(61);
    let (_, errno) = expect_error(se.dispatch(Request::new(hdr(40, 1, 0), lookup_op())));
    assert_eq!(errno, Errno::Backend(61));
    assert_eq!(errno.code(), 61);
}

#[test]
fn failed_backend_init_aborts_the_transition() {
    let mut se = Session::new(
        TestFs { init_error: Some(5), ..TestFs::new() },
        SessionAcl::Unrestricted,
        0,
    );
    let (_, errno) = expect_error(se.dispatch(Request::new(hdr(1, 0, 0), init_op(7, 31))));
    assert_eq!(errno, Errno::Backend(5));
    assert!(!se.state.initialized);
    assert_eq!(se.state.proto_major, 0);
    assert_eq!(se.state.proto_minor, 0);
}

#[test]
fn rename_variants_route_to_one_capability() {
    let mut se = session(SessionAcl::Unrestricted, 0);
    run_init(&mut se);
    // Plain Rename carries flags 0.
    se.dispatch(Request::new(hdr(70, 1, 0), Operation::Rename {
        name: b"a".to_vec(), newparent: 2, newname: b"b".to_vec(),
    }));
    assert_eq!(se.filesystem.count("rename:0"), 1);
    // Rename2 carries its own flags.
    se.dispatch(Request::new(hdr(71, 1, 0), Operation::Rename2 {
        from_dir: 1, from_name: b"a".to_vec(), to_dir: 2, to_name: b"b".to_vec(), flags: 3,
    }));
    assert_eq!(se.filesystem.count("rename:3"), 1);
    // SetLk and SetLkW route to one capability with the sleep flag.
    se.dispatch(Request::new(hdr(72, 1, 0), Operation::SetLk {
        fh: 1, lock_owner: 0, start: 0, end: 1, typ: 0, pid: 1,
    }));
    se.dispatch(Request::new(hdr(73, 1, 0), Operation::SetLkW {
        fh: 1, lock_owner: 0, start: 0, end: 1, typ: 0, pid: 1,
    }));
    assert_eq!(se.filesystem.count("setlk:false"), 1);
    assert_eq!(se.filesystem.count("setlk:true"), 1);
}

#[test]
fn second_init_rejected_and_version_write_once() {
    let mut se = session(SessionAcl::Unrestricted, 0);
    let w = expect_reply(se.dispatch(Request::new(hdr(1, 0, 0), init_op(7, 19))));
    assert!(matches!(w.body, ReplyBody::Init(_)));
    assert_eq!((se.state.proto_major, se.state.proto_minor), (7, 19));
    let (_, errno) = expect_error(se.dispatch(Request::new(hdr(2, 0, 0), init_op(7, 31))));
    assert_eq!(errno, Errno::Io);
    assert_eq!((se.state.proto_major, se.state.proto_minor), (7, 19));
    assert_eq!(se.filesystem.count("init"), 1);
}

#[test]
fn session_state_fresh_at_mount() {
    let st = SessionState::new(SessionAcl::RootAndOwner, 501);
    assert!(!st.initialized);
    assert!(!st.destroyed);
    assert_eq!(st.proto_major, 0);
    assert_eq!(st.proto_minor, 0);
    assert_eq!(st.allowed, SessionAcl::RootAndOwner);
    assert_eq!(st.session_owner, 501);
}

#[test]
fn request_accessors() {
    let req = Request::new(hdr(77, 5, 42), Operation::StatFs);
    assert_eq!(req.unique(), 77);
    assert_eq!(req.uid(), 42);
    assert_eq!(req.gid(), 0);
    assert_eq!(req.pid(), 0);
    assert_eq!(req.reply().unique(), 77);
}
