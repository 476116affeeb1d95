use libbpf_rs::attach::{complete_attach, RawLink};
use libbpf_rs::error::{parse_ret, parse_ret_i32, Error};
use libbpf_rs::link::detach_outcome;

#[test]
fn double_release_is_a_no_op() {
    let mut link = complete_attach(RawLink::Created(77)).unwrap();
    assert_eq!(link.release(), Some(77));
    assert_eq!(link.release(), None);
    assert_eq!(link.release(), None);
    assert!(!link.is_attached());
    assert_eq!(link.token(), 77);
}

#[test]
fn detach_failure_is_only_reported() {
    assert_eq!(detach_outcome(0), None);
    assert_eq!(detach_outcome(-2), Some(Error::Os { errno: 2 }));
}

#[test]
fn status_codes_parse() {
    assert_eq!(parse_ret(0), Ok(()));
    assert_eq!(parse_ret(3), Ok(()));
    assert_eq!(parse_ret(-13), Err(Error::Os { errno: 13 }));
    assert_eq!(parse_ret_i32(9), Ok(9));
    assert_eq!(parse_ret_i32(-1), Err(Error::Os { errno: 1 }));
}
