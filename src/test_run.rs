use vstd::prelude::*;
use crate::error::{os_error, Error};

verus! {

/// The input of a test run of a loaded program.
#[derive(Debug, Default)]
#[non_exhaustive]
pub struct Input {
    /// The input context to provide.
    pub context_in: Option<Vec<u8>>,
    /// The output context buffer provided to the program.
    pub context_out: Option<Vec<u8>>,
    /// Additional data to provide to the program.
    pub data_in: Option<Vec<u8>>,
    /// The output data buffer provided to the program.
    pub data_out: Option<Vec<u8>>,
    /// The 'cpu' value passed to the kernel.
    pub cpu: u32,
    /// The 'flags' value passed to the kernel.
    pub flags: u32,
}

/// The output of a test run.
#[derive(Debug)]
#[non_exhaustive]
pub struct Output {
    /// The value returned by the program.
    pub return_value: u32,
    /// The output context filled by the program or the kernel.
    pub context: Option<Vec<u8>>,
    /// The output data filled by the program.
    pub data: Option<Vec<u8>>,
}

/// The sizes and scalars of a test-run request, as the kernel takes them.
/// Every size is the length of the matching buffer, `0` for an absent one.
#[derive(Clone, Copy, Debug, PartialEq, Eq, Structural)]
pub struct TestRunSizes {
    pub ctx_size_in: u32,
    pub ctx_size_out: u32,
    pub data_size_in: u32,
    pub data_size_out: u32,
    pub cpu: u32,
    pub flags: u32,
}

/// What the kernel reported for a test run.
#[derive(Clone, Copy, Debug, PartialEq, Eq, Structural)]
pub struct TestRunReport {
    /// The status of the call: negative is an error.
    pub status: i32,
    /// The program's return value.
    pub retval: u32,
    /// How many bytes of the output context the kernel wrote.
    pub ctx_size_out: u32,
    /// How many bytes of the output data the kernel wrote.
    pub data_size_out: u32,
}

/// The bytes of an optional buffer.
pub open spec fn bytes_of(b: Option<Vec<u8>>) -> Option<Seq<u8>> {
    match b {
        Some(v) => Some(v@),
        None => None,
    }
}

/// The length of an optional buffer; an absent one has none.
pub open spec fn buf_len(b: Option<Vec<u8>>) -> nat {
    match b {
        Some(v) => v@.len(),
        None => 0,
    }
}

/// Whether every buffer of `input` has a length that the kernel interface
/// can carry.
pub open spec fn sizes_fit(input: Input) -> bool {
    buf_len(input.context_in) <= u32::MAX && buf_len(input.context_out) <= u32::MAX
        && buf_len(input.data_in) <= u32::MAX && buf_len(input.data_out) <= u32::MAX
}

/// An output buffer cut to the length the kernel reported, never beyond
/// its capacity; an absent buffer stays absent.
pub open spec fn reported_part(b: Option<Seq<u8>>, reported: u32) -> Option<Seq<u8>> {
    match b {
        Some(s) => Some(
            if reported as int <= s.len() {
                s.take(reported as int)
            } else {
                s
            },
        ),
        None => None,
    }
}

fn len_u32(b: &Option<Vec<u8>>) -> (r: Option<u32>)
    ensures
        buf_len(*b) <= u32::MAX <==> r is Some,
        r is Some ==> r->Some_0 == buf_len(*b),
{
    match b {
        Some(v) => {
            if v.len() <= 0xffff_ffffusize {
                Some(v.len() as u32)
            } else {
                None
            }
        },
        None => Some(0),
    }
}

/// The sizes of a test-run request, derived from its buffers.
///
/// Fails with `InvalidInput` where a buffer is longer than the kernel
/// interface can describe.
pub fn test_run_sizes(input: &Input) -> (r: Result<TestRunSizes, Error>)
    ensures
        sizes_fit(*input) <==> r is Ok,
        r is Ok ==> r->Ok_0 == (TestRunSizes {
            ctx_size_in: buf_len(input.context_in) as u32,
            ctx_size_out: buf_len(input.context_out) as u32,
            data_size_in: buf_len(input.data_in) as u32,
            data_size_out: buf_len(input.data_out) as u32,
            cpu: input.cpu,
            flags: input.flags,
        }),
        r is Err ==> r->Err_0 == Error::InvalidInput,
{
    let (a, b, c, d) = (
        len_u32(&input.context_in),
        len_u32(&input.context_out),
        len_u32(&input.data_in),
        len_u32(&input.data_out),
    );
    match (a, b, c, d) {
        (Some(ctx_size_in), Some(ctx_size_out), Some(data_size_in), Some(data_size_out)) => Ok(
            TestRunSizes {
                ctx_size_in,
                ctx_size_out,
                data_size_in,
                data_size_out,
                cpu: input.cpu,
                flags: input.flags,
            },
        ),
        _ => Err(Error::InvalidInput),
    }
}

fn cut(b: Option<Vec<u8>>, reported: u32) -> (r: Option<Vec<u8>>)
    ensures
        bytes_of(r) == reported_part(bytes_of(b), reported),
{
    match b {
        Some(mut v) => {
            v.truncate(reported as usize);
            Some(v)
        },
        None => None,
    }
}

/// Turns the kernel's report of a test run into its output.
///
/// A failed run yields its error and none of the buffers. A successful one
/// yields the program's return value and each output buffer cut to the
/// length that the kernel reported, never longer than it was given.
pub fn test_run_output(input: Input, report: TestRunReport) -> (r: Result<Output, Error>)
    ensures
        report.status < 0 ==> r == Err::<Output, Error>(os_error(report.status as int)),
        report.status >= 0 ==> r is Ok,
        r is Ok ==> r->Ok_0.return_value == report.retval,
        r is Ok ==> bytes_of(r->Ok_0.context) == reported_part(
            bytes_of(input.context_out),
            report.ctx_size_out,
        ),
        r is Ok ==> bytes_of(r->Ok_0.data) == reported_part(
            bytes_of(input.data_out),
            report.data_size_out,
        ),
{
    if report.status < 0 {
        return Err(Error::Os { errno: -(report.status as i64) });
    }
    let Input { context_out, data_out, .. } = input;
    Ok(
        Output {
            return_value: report.retval,
            context: cut(context_out, report.ctx_size_out),
            data: cut(data_out, report.data_size_out),
        },
    )
}

/// An output buffer is never reported longer than the capacity it was
/// given, and is otherwise exactly the reported length, a prefix of what the
/// buffer held.
pub proof fn lemma_output_within_capacity(buf: Seq<u8>, reported: u32)
    ensures
        reported_part(Some(buf), reported)->Some_0.len() <= buf.len(),
        reported as int <= buf.len() ==> reported_part(Some(buf), reported)->Some_0.len()
            == reported,
        reported_part(Some(buf), reported)->Some_0.is_prefix_of(buf),
{
}

/// A test run whose buffers are all absent or empty is accepted with every
/// size zero, and reports each output buffer as given: absent stays absent,
/// empty stays empty.
pub proof fn lemma_empty_buffers(input: Input, ctx_reported: u32, data_reported: u32)
    requires
        buf_len(input.context_in) == 0,
        buf_len(input.context_out) == 0,
        buf_len(input.data_in) == 0,
        buf_len(input.data_out) == 0,
    ensures
        sizes_fit(input),
        reported_part(bytes_of(input.context_out), ctx_reported) == bytes_of(input.context_out),
        reported_part(bytes_of(input.data_out), data_reported) == bytes_of(input.data_out),
{
}

} // verus!
