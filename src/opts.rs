use vstd::prelude::*;

verus! {

/// Options to optionally be provided when attaching to a uprobe.
#[derive(Clone, Debug, Default)]
#[non_exhaustive]
pub struct UprobeOpts {
    /// Offset of the kernel reference-counted USDT semaphore.
    pub ref_ctr_offset: usize,
    /// Custom user-provided value accessible through `bpf_get_attach_cookie`.
    pub cookie: u64,
    /// Whether the uprobe is a return probe, invoked at function return time.
    pub retprobe: bool,
    /// Function name to attach to.
    ///
    /// Either unqualified ("abc") or library-qualified ("abc@LIBXYZ"). To
    /// trace function entry, set `func_name` and pass an offset of 0; to
    /// trace an offset within the function, pass that offset. Shared library
    /// functions need the shared library's binary path.
    pub func_name: String,
}

/// Options to optionally be provided when attaching to a USDT.
#[derive(Clone, Debug, Default)]
#[non_exhaustive]
pub struct UsdtOpts {
    /// Custom user-provided value accessible through `bpf_usdt_cookie`.
    pub cookie: u64,
}

/// Options to optionally be provided when attaching to a tracepoint.
#[derive(Clone, Debug, Default)]
#[non_exhaustive]
pub struct TracepointOpts {
    /// Custom user-provided value accessible through `bpf_get_attach_cookie`.
    pub cookie: u64,
}

} // verus!
