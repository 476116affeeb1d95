use vstd::prelude::*;
use vstd::utf8::*;
use crate::cstring::{c_string_of, nul_free, str_to_cstring};
use crate::error::{os_error, Error};
use crate::kind::ProgramAttachType;
use crate::link::Link;
use crate::opts::{TracepointOpts, UprobeOpts, UsdtOpts};

verus! {

/// A request to attach a loaded program to a kernel hook: one variant per
/// hook family, each with the parameters that family takes.
#[derive(Debug)]
pub enum AttachRequest {
    /// Attach as the program's own section and kind say.
    Auto,
    /// Attach to a cgroup.
    Cgroup { cgroup_fd: i32 },
    /// Attach to a perf event.
    PerfEvent { pfd: i32 },
    /// Attach to a userspace probe at an offset in a binary (`pid` 0: any process).
    Uprobe { retprobe: bool, pid: i32, binary_path: String, func_offset: usize },
    /// Attach to a userspace probe, with further options.
    UprobeWithOpts { pid: i32, binary_path: String, func_offset: usize, opts: UprobeOpts },
    /// Attach to a kernel probe on a function.
    Kprobe { retprobe: bool, func_name: String },
    /// Attach to a system call.
    Ksyscall { retprobe: bool, syscall_name: String },
    /// Attach to a kernel tracepoint, with or without options.
    Tracepoint { category: String, name: String, tp_opts: Option<TracepointOpts> },
    /// Attach to a raw kernel tracepoint.
    RawTracepoint { name: String },
    /// Attach to the LSM hook that the program names.
    Lsm,
    /// Attach as an fentry, fexit or modify-return program.
    Trace,
    /// Attach to XDP on a network interface.
    Xdp { ifindex: i32 },
    /// Attach to a network namespace.
    Netns { netns_fd: i32 },
    /// Attach to a USDT probe point, with or without options.
    Usdt {
        pid: i32,
        binary_path: String,
        provider: String,
        name: String,
        usdt_opts: Option<UsdtOpts>,
    },
    /// Attach as an iterator over a map.
    Iter { map_fd: i32 },
}

/// An attach call as the kernel interface takes it: every name and path
/// encoded as a NUL-terminated byte string, options in the call's shape.
/// The buffers live in the call, so they outlive it.
#[derive(Debug)]
pub enum AttachCall {
    Auto,
    Cgroup { cgroup_fd: i32 },
    PerfEvent { pfd: i32 },
    Uprobe { retprobe: bool, pid: i32, binary_path: Vec<u8>, func_offset: usize },
    UprobeWithOpts {
        pid: i32,
        binary_path: Vec<u8>,
        func_offset: usize,
        ref_ctr_offset: usize,
        cookie: u64,
        retprobe: bool,
        func_name: Vec<u8>,
    },
    Kprobe { retprobe: bool, func_name: Vec<u8> },
    /// The system-call attach always passes an options record, holding at
    /// least the return-probe flag.
    Ksyscall { retprobe: bool, syscall_name: Vec<u8> },
    /// `opt_cookie` is `None` where no options were given: the call then goes
    /// without an options record.
    Tracepoint { category: Vec<u8>, name: Vec<u8>, opt_cookie: Option<u64> },
    RawTracepoint { name: Vec<u8> },
    Lsm,
    Trace,
    Xdp { ifindex: i32 },
    Netns { netns_fd: i32 },
    /// `opt_cookie` is `None` where no options were given.
    Usdt {
        pid: i32,
        binary_path: Vec<u8>,
        provider: Vec<u8>,
        name: Vec<u8>,
        opt_cookie: Option<u64>,
    },
    /// The map's descriptor, as the iterator's link information holds it.
    Iter { map_fd: u32 },
}

/// Whether text can be encoded for the kernel interface.
pub open spec fn text_ok(s: String) -> bool {
    nul_free(encode_utf8(s@))
}

/// The NUL-terminated bytes that encode text for the kernel interface.
pub open spec fn c_text(s: String) -> Seq<u8> {
    c_string_of(encode_utf8(s@))
}

/// The cookie of optional tracepoint options.
pub open spec fn tracepoint_cookie(opts: Option<TracepointOpts>) -> Option<u64> {
    match opts {
        Some(o) => Some(o.cookie),
        None => None,
    }
}

/// The cookie of optional USDT options.
pub open spec fn usdt_cookie(opts: Option<UsdtOpts>) -> Option<u64> {
    match opts {
        Some(o) => Some(o.cookie),
        None => None,
    }
}

/// Whether every name and path in the request can be encoded.
pub open spec fn encodable(req: AttachRequest) -> bool {
    match req {
        AttachRequest::Uprobe { binary_path, .. } => text_ok(binary_path),
        AttachRequest::UprobeWithOpts { binary_path, opts, .. } => text_ok(binary_path)
            && text_ok(opts.func_name),
        AttachRequest::Kprobe { func_name, .. } => text_ok(func_name),
        AttachRequest::Ksyscall { syscall_name, .. } => text_ok(syscall_name),
        AttachRequest::Tracepoint { category, name, .. } => text_ok(category) && text_ok(name),
        AttachRequest::RawTracepoint { name } => text_ok(name),
        AttachRequest::Usdt { binary_path, provider, name, .. } => text_ok(binary_path)
            && text_ok(provider) && text_ok(name),
        _ => true,
    }
}

/// Whether `call` is the marshaled form of `req`.
pub open spec fn plans(req: AttachRequest, call: AttachCall) -> bool {
    match (req, call) {
        (AttachRequest::Auto, AttachCall::Auto) => true,
        (AttachRequest::Cgroup { cgroup_fd: a }, AttachCall::Cgroup { cgroup_fd: b }) => a == b,
        (AttachRequest::PerfEvent { pfd: a }, AttachCall::PerfEvent { pfd: b }) => a == b,
        (
            AttachRequest::Uprobe { retprobe: r1, pid: p1, binary_path: b1, func_offset: o1 },
            AttachCall::Uprobe { retprobe: r2, pid: p2, binary_path: b2, func_offset: o2 },
        ) => r1 == r2 && p1 == p2 && b2@ == c_text(b1) && o1 == o2,
        (
            AttachRequest::UprobeWithOpts { pid: p1, binary_path: b1, func_offset: o1, opts },
            AttachCall::UprobeWithOpts {
                pid: p2,
                binary_path: b2,
                func_offset: o2,
                ref_ctr_offset,
                cookie,
                retprobe,
                func_name,
            },
        ) => p1 == p2 && b2@ == c_text(b1) && o1 == o2 && ref_ctr_offset == opts.ref_ctr_offset
            && cookie == opts.cookie && retprobe == opts.retprobe && func_name@ == c_text(
            opts.func_name,
        ),
        (
            AttachRequest::Kprobe { retprobe: r1, func_name: f1 },
            AttachCall::Kprobe { retprobe: r2, func_name: f2 },
        ) => r1 == r2 && f2@ == c_text(f1),
        (
            AttachRequest::Ksyscall { retprobe: r1, syscall_name: s1 },
            AttachCall::Ksyscall { retprobe: r2, syscall_name: s2 },
        ) => r1 == r2 && s2@ == c_text(s1),
        (
            AttachRequest::Tracepoint { category: c1, name: n1, tp_opts },
            AttachCall::Tracepoint { category: c2, name: n2, opt_cookie },
        ) => c2@ == c_text(c1) && n2@ == c_text(n1) && opt_cookie == tracepoint_cookie(tp_opts),
        (AttachRequest::RawTracepoint { name: n1 }, AttachCall::RawTracepoint { name: n2 }) => n2@
            == c_text(n1),
        (AttachRequest::Lsm, AttachCall::Lsm) => true,
        (AttachRequest::Trace, AttachCall::Trace) => true,
        (AttachRequest::Xdp { ifindex: a }, AttachCall::Xdp { ifindex: b }) => a == b,
        (AttachRequest::Netns { netns_fd: a }, AttachCall::Netns { netns_fd: b }) => a == b,
        (
            AttachRequest::Usdt { pid: p1, binary_path: b1, provider: v1, name: n1, usdt_opts },
            AttachCall::Usdt { pid: p2, binary_path: b2, provider: v2, name: n2, opt_cookie },
        ) => p1 == p2 && b2@ == c_text(b1) && v2@ == c_text(v1) && n2@ == c_text(n1)
            && opt_cookie == usdt_cookie(usdt_opts),
        (AttachRequest::Iter { map_fd: a }, AttachCall::Iter { map_fd: b }) => b == a as u32,
        _ => false,
    }
}

fn encode(s: &String) -> (r: Result<Vec<u8>, Error>)
    ensures
        text_ok(*s) <==> r is Ok,
        r is Ok ==> r->Ok_0@ == c_text(*s),
        r is Err ==> r->Err_0 == Error::InvalidInput,
{
    str_to_cstring(s.as_str())
}

/// Marshals an attach request for the kernel interface.
///
/// Succeeds exactly when every name and path in the request can be
/// encoded; otherwise the request is rejected with `InvalidInput`, before
/// any kernel call.
pub fn plan_attach(req: &AttachRequest) -> (r: Result<AttachCall, Error>)
    ensures
        encodable(*req) <==> r is Ok,
        r is Ok ==> plans(*req, r->Ok_0),
        r is Err ==> r->Err_0 == Error::InvalidInput,
{
    match req {
        AttachRequest::Auto => Ok(AttachCall::Auto),
        AttachRequest::Cgroup { cgroup_fd } => Ok(AttachCall::Cgroup { cgroup_fd: *cgroup_fd }),
        AttachRequest::PerfEvent { pfd } => Ok(AttachCall::PerfEvent { pfd: *pfd }),
        AttachRequest::Uprobe { retprobe, pid, binary_path, func_offset } => {
            let path = match encode(binary_path) {
                Ok(p) => p,
                Err(e) => return Err(e),
            };
            Ok(
                AttachCall::Uprobe {
                    retprobe: *retprobe,
                    pid: *pid,
                    binary_path: path,
                    func_offset: *func_offset,
                },
            )
        },
        AttachRequest::UprobeWithOpts { pid, binary_path, func_offset, opts } => {
            let path = match encode(binary_path) {
                Ok(p) => p,
                Err(e) => return Err(e),
            };
            let func_name = match encode(&opts.func_name) {
                Ok(f) => f,
                Err(e) => return Err(e),
            };
            Ok(
                AttachCall::UprobeWithOpts {
                    pid: *pid,
                    binary_path: path,
                    func_offset: *func_offset,
                    ref_ctr_offset: opts.ref_ctr_offset,
                    cookie: opts.cookie,
                    retprobe: opts.retprobe,
                    func_name,
                },
            )
        },
        AttachRequest::Kprobe { retprobe, func_name } => {
            let f = match encode(func_name) {
                Ok(f) => f,
                Err(e) => return Err(e),
            };
            Ok(AttachCall::Kprobe { retprobe: *retprobe, func_name: f })
        },
        AttachRequest::Ksyscall { retprobe, syscall_name } => {
            let s = match encode(syscall_name) {
                Ok(s) => s,
                Err(e) => return Err(e),
            };
            Ok(AttachCall::Ksyscall { retprobe: *retprobe, syscall_name: s })
        },
        AttachRequest::Tracepoint { category, name, tp_opts } => {
            let c = match encode(category) {
                Ok(c) => c,
                Err(e) => return Err(e),
            };
            let n = match encode(name) {
                Ok(n) => n,
                Err(e) => return Err(e),
            };
            let opt_cookie = match tp_opts {
                Some(o) => Some(o.cookie),
                None => None,
            };
            Ok(AttachCall::Tracepoint { category: c, name: n, opt_cookie })
        },
        AttachRequest::RawTracepoint { name } => {
            let n = match encode(name) {
                Ok(n) => n,
                Err(e) => return Err(e),
            };
            Ok(AttachCall::RawTracepoint { name: n })
        },
        AttachRequest::Lsm => Ok(AttachCall::Lsm),
        AttachRequest::Trace => Ok(AttachCall::Trace),
        AttachRequest::Xdp { ifindex } => Ok(AttachCall::Xdp { ifindex: *ifindex }),
        AttachRequest::Netns { netns_fd } => Ok(AttachCall::Netns { netns_fd: *netns_fd }),
        AttachRequest::Usdt { pid, binary_path, provider, name, usdt_opts } => {
            let path = match encode(binary_path) {
                Ok(p) => p,
                Err(e) => return Err(e),
            };
            let v = match encode(provider) {
                Ok(v) => v,
                Err(e) => return Err(e),
            };
            let n = match encode(name) {
                Ok(n) => n,
                Err(e) => return Err(e),
            };
            let opt_cookie = match usdt_opts {
                Some(o) => Some(o.cookie),
                None => None,
            };
            Ok(AttachCall::Usdt { pid: *pid, binary_path: path, provider: v, name: n, opt_cookie })
        },
        AttachRequest::Iter { map_fd } => Ok(AttachCall::Iter { map_fd: *map_fd as u32 }),
    }
}

/// What a link-creating kernel call handed back.
#[derive(Clone, Copy, Debug, PartialEq, Eq, Structural)]
pub enum RawLink {
    /// No link and no error.
    Null,
    /// The call failed with this (negative) error code.
    Failed(i32),
    /// The call created the link with this token.
    Created(u64),
}

/// Turns the outcome of an attach call into an attachment.
///
/// A created link yields exactly one `Link`, which owns it; a failed or
/// empty outcome yields an error and no `Link`.
pub fn complete_attach(raw: RawLink) -> (r: Result<Link, Error>)
    ensures
        r is Ok <==> raw is Created,
        r is Ok ==> r->Ok_0.spec_token() == raw->Created_0 && r->Ok_0.spec_attached(),
        raw is Failed ==> r is Err && r->Err_0 == os_error(raw->Failed_0 as int),
        raw is Null ==> r is Err && r->Err_0 == Error::NullObject,
{
    match raw {
        RawLink::Null => Err(Error::NullObject),
        RawLink::Failed(err) => Err(Error::Os { errno: -(err as i64) }),
        RawLink::Created(token) => Ok(Link::new(token)),
    }
}

/// The arguments of the legacy by-descriptor attach of a sockmap verdict or
/// parser program.
///
/// Unlike every other attach, this one yields no `Link`: the program stays
/// attached until the caller detaches it through the same primitive.
#[derive(Clone, Copy, Debug, PartialEq, Eq, Structural)]
pub struct SockmapAttach {
    pub map_fd: i32,
    pub attach_type: u32,
    pub flags: u32,
}

/// The arguments of a sockmap attach for a program of hook kind `attach_type`.
pub fn plan_attach_sockmap(map_fd: i32, attach_type: ProgramAttachType) -> (r: SockmapAttach)
    ensures
        r == (SockmapAttach { map_fd, attach_type: attach_type.code(), flags: 0 }),
{
    SockmapAttach { map_fd, attach_type: attach_type.as_raw(), flags: 0 }
}

} // verus!
