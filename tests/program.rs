use libbpf_rs::cstring::{c_bytes_to_string, opt_str_to_cstring, str_to_cstring};
use libbpf_rs::error::Error;
use libbpf_rs::program::ProgramIdentity;

#[test]
fn identity_decodes_kernel_names() {
    let id = ProgramIdentity::from_kernel(b"handle_exec\0", b"tp/sched/sched_process_exec\0").unwrap();
    assert_eq!(id.name(), "handle_exec");
    assert_eq!(id.section(), "tp/sched/sched_process_exec");
}

#[test]
fn invalid_kernel_name_is_invalid_data() {
    assert_eq!(ProgramIdentity::from_kernel(b"bad\xff\0", b"kprobe\0").unwrap_err(), Error::InvalidData);
    assert_eq!(c_bytes_to_string(b"\xc3\0").unwrap_err(), Error::InvalidData);
}

#[test]
fn kernel_name_stops_at_nul() {
    assert_eq!(c_bytes_to_string(b"abc\0def").unwrap(), "abc");
    assert_eq!(c_bytes_to_string(b"xyz").unwrap(), "xyz");
    assert_eq!(c_bytes_to_string(b"\0").unwrap(), "");
    assert_eq!(c_bytes_to_string("h\u{e9}llo\0".as_bytes()).unwrap(), "h\u{e9}llo");
}

#[test]
fn c_string_encoding() {
    assert_eq!(str_to_cstring("/sys/fs/bpf/prog").unwrap(), b"/sys/fs/bpf/prog\0".to_vec());
    assert_eq!(str_to_cstring("").unwrap(), vec![0u8]);
    assert_eq!(str_to_cstring("a\0b").unwrap_err(), Error::InvalidInput);
    assert_eq!(opt_str_to_cstring(None).unwrap(), None);
    assert_eq!(opt_str_to_cstring(Some("fn")).unwrap(), Some(b"fn\0".to_vec()));
    assert_eq!(opt_str_to_cstring(Some("f\0n")).unwrap_err(), Error::InvalidInput);
}
