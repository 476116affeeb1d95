use libbpf_rs::error::Error;
use libbpf_rs::test_run::{test_run_output, test_run_sizes, Input, TestRunReport, TestRunSizes};

fn report(status: i32, retval: u32, ctx: u32, data: u32) -> TestRunReport {
    TestRunReport { status, retval, ctx_size_out: ctx, data_size_out: data }
}

#[test]
fn data_run_reports_kernel_written_bytes() {
    let mut input = Input::default();
    input.data_in = Some(vec![0xaa; 64]);
    input.data_out = Some(vec![0u8; 128]);
    let sizes = test_run_sizes(&input).unwrap();
    assert_eq!(
        sizes,
        TestRunSizes { ctx_size_in: 0, ctx_size_out: 0, data_size_in: 64, data_size_out: 128, cpu: 0, flags: 0 }
    );
    // The kernel wrote 64 bytes into the data buffer and returned 2.
    let mut written = vec![0xaau8; 64];
    written.extend(vec![0u8; 64]);
    input.data_out = Some(written);
    let out = test_run_output(input, report(0, 2, 0, 64)).unwrap();
    assert_eq!(out.return_value, 2);
    assert_eq!(out.context, None);
    let data = out.data.unwrap();
    assert!(data.len() <= 128);
    assert_eq!(data, vec![0xaau8; 64]);
}

#[test]
fn empty_and_absent_buffers_run() {
    let mut input = Input::default();
    input.context_out = Some(Vec::new());
    assert_eq!(
        test_run_sizes(&input).unwrap(),
        TestRunSizes { ctx_size_in: 0, ctx_size_out: 0, data_size_in: 0, data_size_out: 0, cpu: 0, flags: 0 }
    );
    let out = test_run_output(input, report(0, 0, 0, 0)).unwrap();
    assert_eq!(out.context, Some(Vec::new()));
    assert_eq!(out.data, None);
}

#[test]
fn output_never_longer_than_capacity() {
    let mut input = Input::default();
    input.context_out = Some(vec![1, 2, 3, 4]);
    input.data_out = Some(vec![5, 6, 7]);
    let out = test_run_output(input, report(0, 0, 100, 2)).unwrap();
    assert_eq!(out.context, Some(vec![1, 2, 3, 4]));
    assert_eq!(out.data, Some(vec![5, 6]));
}

#[test]
fn cpu_and_flags_pass_through() {
    let mut input = Input::default();
    input.context_in = Some(vec![1; 12]);
    input.cpu = 3;
    input.flags = 1;
    let sizes = test_run_sizes(&input).unwrap();
    assert_eq!(sizes.ctx_size_in, 12);
    assert_eq!(sizes.cpu, 3);
    assert_eq!(sizes.flags, 1);
}

#[test]
fn failed_run_exposes_no_output() {
    let mut input = Input::default();
    input.data_out = Some(vec![0u8; 16]);
    let r = test_run_output(input, report(-22, 5, 0, 16));
    assert_eq!(r.unwrap_err(), Error::Os { errno: 22 });
}
