use vstd::prelude::*;
use crate::error::{os_error, Error};

verus! {

/// The kind of a program. Maps to `enum bpf_prog_type` in the kernel's user API.
///
/// `Unknown` stands for any code that this build does not recognize.
#[derive(Clone, Copy, Debug, PartialEq, Eq, Structural)]
#[non_exhaustive]
pub enum ProgramType {
    Unspec,
    SocketFilter,
    Kprobe,
    SchedCls,
    SchedAct,
    Tracepoint,
    Xdp,
    PerfEvent,
    CgroupSkb,
    CgroupSock,
    LwtIn,
    LwtOut,
    LwtXmit,
    SockOps,
    SkSkb,
    CgroupDevice,
    SkMsg,
    RawTracepoint,
    CgroupSockAddr,
    LwtSeg6local,
    LircMode2,
    SkReuseport,
    FlowDissector,
    CgroupSysctl,
    RawTracepointWritable,
    CgroupSockopt,
    Tracing,
    StructOps,
    Ext,
    Lsm,
    SkLookup,
    Syscall,
    /// A code reported by a newer kernel than this build knows.
    Unknown,
}

/// The number of codes that `ProgramType` recognizes: `0` to `PROGRAM_TYPE_COUNT - 1`.
pub const PROGRAM_TYPE_COUNT: u32 = 32;

impl ProgramType {
    /// The kernel's code for this value; `Unknown` has `u32::MAX`.
    pub open spec fn code(self) -> u32 {
        match self {
            ProgramType::Unspec => 0,
            ProgramType::SocketFilter => 1,
            ProgramType::Kprobe => 2,
            ProgramType::SchedCls => 3,
            ProgramType::SchedAct => 4,
            ProgramType::Tracepoint => 5,
            ProgramType::Xdp => 6,
            ProgramType::PerfEvent => 7,
            ProgramType::CgroupSkb => 8,
            ProgramType::CgroupSock => 9,
            ProgramType::LwtIn => 10,
            ProgramType::LwtOut => 11,
            ProgramType::LwtXmit => 12,
            ProgramType::SockOps => 13,
            ProgramType::SkSkb => 14,
            ProgramType::CgroupDevice => 15,
            ProgramType::SkMsg => 16,
            ProgramType::RawTracepoint => 17,
            ProgramType::CgroupSockAddr => 18,
            ProgramType::LwtSeg6local => 19,
            ProgramType::LircMode2 => 20,
            ProgramType::SkReuseport => 21,
            ProgramType::FlowDissector => 22,
            ProgramType::CgroupSysctl => 23,
            ProgramType::RawTracepointWritable => 24,
            ProgramType::CgroupSockopt => 25,
            ProgramType::Tracing => 26,
            ProgramType::StructOps => 27,
            ProgramType::Ext => 28,
            ProgramType::Lsm => 29,
            ProgramType::SkLookup => 30,
            ProgramType::Syscall => 31,
            ProgramType::Unknown => u32::MAX,
        }
    }

    /// The value that a kernel-reported code stands for.
    pub open spec fn spec_from_raw(raw: u32) -> ProgramType {
        match raw {
            0 => ProgramType::Unspec,
            1 => ProgramType::SocketFilter,
            2 => ProgramType::Kprobe,
            3 => ProgramType::SchedCls,
            4 => ProgramType::SchedAct,
            5 => ProgramType::Tracepoint,
            6 => ProgramType::Xdp,
            7 => ProgramType::PerfEvent,
            8 => ProgramType::CgroupSkb,
            9 => ProgramType::CgroupSock,
            10 => ProgramType::LwtIn,
            11 => ProgramType::LwtOut,
            12 => ProgramType::LwtXmit,
            13 => ProgramType::SockOps,
            14 => ProgramType::SkSkb,
            15 => ProgramType::CgroupDevice,
            16 => ProgramType::SkMsg,
            17 => ProgramType::RawTracepoint,
            18 => ProgramType::CgroupSockAddr,
            19 => ProgramType::LwtSeg6local,
            20 => ProgramType::LircMode2,
            21 => ProgramType::SkReuseport,
            22 => ProgramType::FlowDissector,
            23 => ProgramType::CgroupSysctl,
            24 => ProgramType::RawTracepointWritable,
            25 => ProgramType::CgroupSockopt,
            26 => ProgramType::Tracing,
            27 => ProgramType::StructOps,
            28 => ProgramType::Ext,
            29 => ProgramType::Lsm,
            30 => ProgramType::SkLookup,
            31 => ProgramType::Syscall,
            _ => ProgramType::Unknown,
        }
    }

    /// Classifies a code reported by the kernel; a code that this build
    /// does not recognize gives `Unknown`, never a failure.
    pub fn from_raw(raw: u32) -> (r: ProgramType)
        ensures
            r == ProgramType::spec_from_raw(raw),
            raw < PROGRAM_TYPE_COUNT ==> r.code() == raw,
            raw >= PROGRAM_TYPE_COUNT ==> r == ProgramType::Unknown,
    {
        match raw {
            0 => ProgramType::Unspec,
            1 => ProgramType::SocketFilter,
            2 => ProgramType::Kprobe,
            3 => ProgramType::SchedCls,
            4 => ProgramType::SchedAct,
            5 => ProgramType::Tracepoint,
            6 => ProgramType::Xdp,
            7 => ProgramType::PerfEvent,
            8 => ProgramType::CgroupSkb,
            9 => ProgramType::CgroupSock,
            10 => ProgramType::LwtIn,
            11 => ProgramType::LwtOut,
            12 => ProgramType::LwtXmit,
            13 => ProgramType::SockOps,
            14 => ProgramType::SkSkb,
            15 => ProgramType::CgroupDevice,
            16 => ProgramType::SkMsg,
            17 => ProgramType::RawTracepoint,
            18 => ProgramType::CgroupSockAddr,
            19 => ProgramType::LwtSeg6local,
            20 => ProgramType::LircMode2,
            21 => ProgramType::SkReuseport,
            22 => ProgramType::FlowDissector,
            23 => ProgramType::CgroupSysctl,
            24 => ProgramType::RawTracepointWritable,
            25 => ProgramType::CgroupSockopt,
            26 => ProgramType::Tracing,
            27 => ProgramType::StructOps,
            28 => ProgramType::Ext,
            29 => ProgramType::Lsm,
            30 => ProgramType::SkLookup,
            31 => ProgramType::Syscall,
            _ => ProgramType::Unknown,
        }
    }

    /// The kernel's code for this value.
    pub fn as_raw(&self) -> (r: u32)
        ensures
            r == self.code(),
    {
        match self {
            ProgramType::Unspec => 0,
            ProgramType::SocketFilter => 1,
            ProgramType::Kprobe => 2,
            ProgramType::SchedCls => 3,
            ProgramType::SchedAct => 4,
            ProgramType::Tracepoint => 5,
            ProgramType::Xdp => 6,
            ProgramType::PerfEvent => 7,
            ProgramType::CgroupSkb => 8,
            ProgramType::CgroupSock => 9,
            ProgramType::LwtIn => 10,
            ProgramType::LwtOut => 11,
            ProgramType::LwtXmit => 12,
            ProgramType::SockOps => 13,
            ProgramType::SkSkb => 14,
            ProgramType::CgroupDevice => 15,
            ProgramType::SkMsg => 16,
            ProgramType::RawTracepoint => 17,
            ProgramType::CgroupSockAddr => 18,
            ProgramType::LwtSeg6local => 19,
            ProgramType::LircMode2 => 20,
            ProgramType::SkReuseport => 21,
            ProgramType::FlowDissector => 22,
            ProgramType::CgroupSysctl => 23,
            ProgramType::RawTracepointWritable => 24,
            ProgramType::CgroupSockopt => 25,
            ProgramType::Tracing => 26,
            ProgramType::StructOps => 27,
            ProgramType::Ext => 28,
            ProgramType::Lsm => 29,
            ProgramType::SkLookup => 30,
            ProgramType::Syscall => 31,
            ProgramType::Unknown => u32::MAX,
        }
    }
}

/// The hook kind that a program expects to attach to. Maps to `enum bpf_attach_type` in the kernel's user API.
///
/// `Unknown` stands for any code that this build does not recognize.
#[derive(Clone, Copy, Debug, PartialEq, Eq, Structural)]
#[non_exhaustive]
pub enum ProgramAttachType {
    CgroupInetIngress,
    CgroupInetEgress,
    CgroupInetSockCreate,
    CgroupSockOps,
    SkSkbStreamParser,
    SkSkbStreamVerdict,
    CgroupDevice,
    SkMsgVerdict,
    CgroupInet4Bind,
    CgroupInet6Bind,
    CgroupInet4Connect,
    CgroupInet6Connect,
    CgroupInet4PostBind,
    CgroupInet6PostBind,
    CgroupUdp4Sendmsg,
    CgroupUdp6Sendmsg,
    LircMode2,
    FlowDissector,
    CgroupSysctl,
    CgroupUdp4Recvmsg,
    CgroupUdp6Recvmsg,
    CgroupGetsockopt,
    CgroupSetsockopt,
    TraceRawTp,
    TraceFentry,
    TraceFexit,
    ModifyReturn,
    LsmMac,
    TraceIter,
    CgroupInet4Getpeername,
    CgroupInet6Getpeername,
    CgroupInet4Getsockname,
    CgroupInet6Getsockname,
    XdpDevmap,
    CgroupInetSockRelease,
    XdpCpumap,
    SkLookup,
    Xdp,
    SkSkbVerdict,
    SkReuseportSelect,
    SkReuseportSelectOrMigrate,
    PerfEvent,
    /// A code reported by a newer kernel than this build knows.
    Unknown,
}

/// The number of codes that `ProgramAttachType` recognizes: `0` to `ATTACH_TYPE_COUNT - 1`.
pub const ATTACH_TYPE_COUNT: u32 = 42;

impl ProgramAttachType {
    /// The kernel's code for this value; `Unknown` has `u32::MAX`.
    pub open spec fn code(self) -> u32 {
        match self {
            ProgramAttachType::CgroupInetIngress => 0,
            ProgramAttachType::CgroupInetEgress => 1,
            ProgramAttachType::CgroupInetSockCreate => 2,
            ProgramAttachType::CgroupSockOps => 3,
            ProgramAttachType::SkSkbStreamParser => 4,
            ProgramAttachType::SkSkbStreamVerdict => 5,
            ProgramAttachType::CgroupDevice => 6,
            ProgramAttachType::SkMsgVerdict => 7,
            ProgramAttachType::CgroupInet4Bind => 8,
            ProgramAttachType::CgroupInet6Bind => 9,
            ProgramAttachType::CgroupInet4Connect => 10,
            ProgramAttachType::CgroupInet6Connect => 11,
            ProgramAttachType::CgroupInet4PostBind => 12,
            ProgramAttachType::CgroupInet6PostBind => 13,
            ProgramAttachType::CgroupUdp4Sendmsg => 14,
            ProgramAttachType::CgroupUdp6Sendmsg => 15,
            ProgramAttachType::LircMode2 => 16,
            ProgramAttachType::FlowDissector => 17,
            ProgramAttachType::CgroupSysctl => 18,
            ProgramAttachType::CgroupUdp4Recvmsg => 19,
            ProgramAttachType::CgroupUdp6Recvmsg => 20,
            ProgramAttachType::CgroupGetsockopt => 21,
            ProgramAttachType::CgroupSetsockopt => 22,
            ProgramAttachType::TraceRawTp => 23,
            ProgramAttachType::TraceFentry => 24,
            ProgramAttachType::TraceFexit => 25,
            ProgramAttachType::ModifyReturn => 26,
            ProgramAttachType::LsmMac => 27,
            ProgramAttachType::TraceIter => 28,
            ProgramAttachType::CgroupInet4Getpeername => 29,
            ProgramAttachType::CgroupInet6Getpeername => 30,
            ProgramAttachType::CgroupInet4Getsockname => 31,
            ProgramAttachType::CgroupInet6Getsockname => 32,
            ProgramAttachType::XdpDevmap => 33,
            ProgramAttachType::CgroupInetSockRelease => 34,
            ProgramAttachType::XdpCpumap => 35,
            ProgramAttachType::SkLookup => 36,
            ProgramAttachType::Xdp => 37,
            ProgramAttachType::SkSkbVerdict => 38,
            ProgramAttachType::SkReuseportSelect => 39,
            ProgramAttachType::SkReuseportSelectOrMigrate => 40,
            ProgramAttachType::PerfEvent => 41,
            ProgramAttachType::Unknown => u32::MAX,
        }
    }

    /// The value that a kernel-reported code stands for.
    pub open spec fn spec_from_raw(raw: u32) -> ProgramAttachType {
        match raw {
            0 => ProgramAttachType::CgroupInetIngress,
            1 => ProgramAttachType::CgroupInetEgress,
            2 => ProgramAttachType::CgroupInetSockCreate,
            3 => ProgramAttachType::CgroupSockOps,
            4 => ProgramAttachType::SkSkbStreamParser,
            5 => ProgramAttachType::SkSkbStreamVerdict,
            6 => ProgramAttachType::CgroupDevice,
            7 => ProgramAttachType::SkMsgVerdict,
            8 => ProgramAttachType::CgroupInet4Bind,
            9 => ProgramAttachType::CgroupInet6Bind,
            10 => ProgramAttachType::CgroupInet4Connect,
            11 => ProgramAttachType::CgroupInet6Connect,
            12 => ProgramAttachType::CgroupInet4PostBind,
            13 => ProgramAttachType::CgroupInet6PostBind,
            14 => ProgramAttachType::CgroupUdp4Sendmsg,
            15 => ProgramAttachType::CgroupUdp6Sendmsg,
            16 => ProgramAttachType::LircMode2,
            17 => ProgramAttachType::FlowDissector,
            18 => ProgramAttachType::CgroupSysctl,
            19 => ProgramAttachType::CgroupUdp4Recvmsg,
            20 => ProgramAttachType::CgroupUdp6Recvmsg,
            21 => ProgramAttachType::CgroupGetsockopt,
            22 => ProgramAttachType::CgroupSetsockopt,
            23 => ProgramAttachType::TraceRawTp,
            24 => ProgramAttachType::TraceFentry,
            25 => ProgramAttachType::TraceFexit,
            26 => ProgramAttachType::ModifyReturn,
            27 => ProgramAttachType::LsmMac,
            28 => ProgramAttachType::TraceIter,
            29 => ProgramAttachType::CgroupInet4Getpeername,
            30 => ProgramAttachType::CgroupInet6Getpeername,
            31 => ProgramAttachType::CgroupInet4Getsockname,
            32 => ProgramAttachType::CgroupInet6Getsockname,
            33 => ProgramAttachType::XdpDevmap,
            34 => ProgramAttachType::CgroupInetSockRelease,
            35 => ProgramAttachType::XdpCpumap,
            36 => ProgramAttachType::SkLookup,
            37 => ProgramAttachType::Xdp,
            38 => ProgramAttachType::SkSkbVerdict,
            39 => ProgramAttachType::SkReuseportSelect,
            40 => ProgramAttachType::SkReuseportSelectOrMigrate,
            41 => ProgramAttachType::PerfEvent,
            _ => ProgramAttachType::Unknown,
        }
    }

    /// Classifies a code reported by the kernel; a code that this build
    /// does not recognize gives `Unknown`, never a failure.
    pub fn from_raw(raw: u32) -> (r: ProgramAttachType)
        ensures
            r == ProgramAttachType::spec_from_raw(raw),
            raw < ATTACH_TYPE_COUNT ==> r.code() == raw,
            raw >= ATTACH_TYPE_COUNT ==> r == ProgramAttachType::Unknown,
    {
        match raw {
            0 => ProgramAttachType::CgroupInetIngress,
            1 => ProgramAttachType::CgroupInetEgress,
            2 => ProgramAttachType::CgroupInetSockCreate,
            3 => ProgramAttachType::CgroupSockOps,
            4 => ProgramAttachType::SkSkbStreamParser,
            5 => ProgramAttachType::SkSkbStreamVerdict,
            6 => ProgramAttachType::CgroupDevice,
            7 => ProgramAttachType::SkMsgVerdict,
            8 => ProgramAttachType::CgroupInet4Bind,
            9 => ProgramAttachType::CgroupInet6Bind,
            10 => ProgramAttachType::CgroupInet4Connect,
            11 => ProgramAttachType::CgroupInet6Connect,
            12 => ProgramAttachType::CgroupInet4PostBind,
            13 => ProgramAttachType::CgroupInet6PostBind,
            14 => ProgramAttachType::CgroupUdp4Sendmsg,
            15 => ProgramAttachType::CgroupUdp6Sendmsg,
            16 => ProgramAttachType::LircMode2,
            17 => ProgramAttachType::FlowDissector,
            18 => ProgramAttachType::CgroupSysctl,
            19 => ProgramAttachType::CgroupUdp4Recvmsg,
            20 => ProgramAttachType::CgroupUdp6Recvmsg,
            21 => ProgramAttachType::CgroupGetsockopt,
            22 => ProgramAttachType::CgroupSetsockopt,
            23 => ProgramAttachType::TraceRawTp,
            24 => ProgramAttachType::TraceFentry,
            25 => ProgramAttachType::TraceFexit,
            26 => ProgramAttachType::ModifyReturn,
            27 => ProgramAttachType::LsmMac,
            28 => ProgramAttachType::TraceIter,
            29 => ProgramAttachType::CgroupInet4Getpeername,
            30 => ProgramAttachType::CgroupInet6Getpeername,
            31 => ProgramAttachType::CgroupInet4Getsockname,
            32 => ProgramAttachType::CgroupInet6Getsockname,
            33 => ProgramAttachType::XdpDevmap,
            34 => ProgramAttachType::CgroupInetSockRelease,
            35 => ProgramAttachType::XdpCpumap,
            36 => ProgramAttachType::SkLookup,
            37 => ProgramAttachType::Xdp,
            38 => ProgramAttachType::SkSkbVerdict,
            39 => ProgramAttachType::SkReuseportSelect,
            40 => ProgramAttachType::SkReuseportSelectOrMigrate,
            41 => ProgramAttachType::PerfEvent,
            _ => ProgramAttachType::Unknown,
        }
    }

    /// The kernel's code for this value.
    pub fn as_raw(&self) -> (r: u32)
        ensures
            r == self.code(),
    {
        match self {
            ProgramAttachType::CgroupInetIngress => 0,
            ProgramAttachType::CgroupInetEgress => 1,
            ProgramAttachType::CgroupInetSockCreate => 2,
            ProgramAttachType::CgroupSockOps => 3,
            ProgramAttachType::SkSkbStreamParser => 4,
            ProgramAttachType::SkSkbStreamVerdict => 5,
            ProgramAttachType::CgroupDevice => 6,
            ProgramAttachType::SkMsgVerdict => 7,
            ProgramAttachType::CgroupInet4Bind => 8,
            ProgramAttachType::CgroupInet6Bind => 9,
            ProgramAttachType::CgroupInet4Connect => 10,
            ProgramAttachType::CgroupInet6Connect => 11,
            ProgramAttachType::CgroupInet4PostBind => 12,
            ProgramAttachType::CgroupInet6PostBind => 13,
            ProgramAttachType::CgroupUdp4Sendmsg => 14,
            ProgramAttachType::CgroupUdp6Sendmsg => 15,
            ProgramAttachType::LircMode2 => 16,
            ProgramAttachType::FlowDissector => 17,
            ProgramAttachType::CgroupSysctl => 18,
            ProgramAttachType::CgroupUdp4Recvmsg => 19,
            ProgramAttachType::CgroupUdp6Recvmsg => 20,
            ProgramAttachType::CgroupGetsockopt => 21,
            ProgramAttachType::CgroupSetsockopt => 22,
            ProgramAttachType::TraceRawTp => 23,
            ProgramAttachType::TraceFentry => 24,
            ProgramAttachType::TraceFexit => 25,
            ProgramAttachType::ModifyReturn => 26,
            ProgramAttachType::LsmMac => 27,
            ProgramAttachType::TraceIter => 28,
            ProgramAttachType::CgroupInet4Getpeername => 29,
            ProgramAttachType::CgroupInet6Getpeername => 30,
            ProgramAttachType::CgroupInet4Getsockname => 31,
            ProgramAttachType::CgroupInet6Getsockname => 32,
            ProgramAttachType::XdpDevmap => 33,
            ProgramAttachType::CgroupInetSockRelease => 34,
            ProgramAttachType::XdpCpumap => 35,
            ProgramAttachType::SkLookup => 36,
            ProgramAttachType::Xdp => 37,
            ProgramAttachType::SkSkbVerdict => 38,
            ProgramAttachType::SkReuseportSelect => 39,
            ProgramAttachType::SkReuseportSelectOrMigrate => 40,
            ProgramAttachType::PerfEvent => 41,
            ProgramAttachType::Unknown => u32::MAX,
        }
    }
}

/// Every code the kernel may report for a program kind is classified: a
/// recognized code gives the kind with that code, any other gives `Unknown`.
pub proof fn lemma_program_type_from_any_code(raw: u32)
    ensures
        raw < PROGRAM_TYPE_COUNT ==> ProgramType::spec_from_raw(raw).code() == raw,
        raw >= PROGRAM_TYPE_COUNT ==> ProgramType::spec_from_raw(raw) == ProgramType::Unknown,
{
}

/// Every code the kernel may report for a hook kind is classified: a
/// recognized code gives the kind with that code, any other gives `Unknown`.
pub proof fn lemma_attach_type_from_any_code(raw: u32)
    ensures
        raw < ATTACH_TYPE_COUNT ==> ProgramAttachType::spec_from_raw(raw).code() == raw,
        raw >= ATTACH_TYPE_COUNT ==> ProgramAttachType::spec_from_raw(raw)
            == ProgramAttachType::Unknown,
{
}

/// Reading back the code of a program kind gives that kind again.
pub proof fn lemma_program_type_code_round_trip(t: ProgramType)
    ensures
        ProgramType::spec_from_raw(t.code()) == t,
{
}

/// Reading back the code of a hook kind gives that kind again.
pub proof fn lemma_attach_type_code_round_trip(t: ProgramAttachType)
    ensures
        ProgramAttachType::spec_from_raw(t.code()) == t,
{
}

/// What a feature probe's return value means: `0` unsupported, `1`
/// supported, anything else an error carrying the negated value.
pub open spec fn probe_result(ret: i32) -> Result<bool, Error> {
    if ret == 0 {
        Ok(false)
    } else if ret == 1 {
        Ok(true)
    } else {
        Err(os_error(ret as int))
    }
}

/// Interprets the result of a kernel feature probe (of a program kind, or
/// of a helper for a program kind).
pub fn probe_outcome(ret: i32) -> (r: Result<bool, Error>)
    ensures
        r == probe_result(ret),
{
    match ret {
        0 => Ok(false),
        1 => Ok(true),
        _ => Err(Error::Os { errno: -(ret as i64) }),
    }
}

} // verus!
