use libbpf_rs::kind::{probe_outcome, ProgramAttachType, ProgramType, ATTACH_TYPE_COUNT, PROGRAM_TYPE_COUNT};
use libbpf_rs::error::Error;

#[test]
fn unrecognized_program_type_is_unknown() {
    assert_eq!(ProgramType::from_raw(PROGRAM_TYPE_COUNT), ProgramType::Unknown);
    assert_eq!(ProgramType::from_raw(1000), ProgramType::Unknown);
    assert_eq!(ProgramType::from_raw(u32::MAX), ProgramType::Unknown);
}

#[test]
fn unrecognized_attach_type_is_unknown() {
    assert_eq!(ProgramAttachType::from_raw(ATTACH_TYPE_COUNT), ProgramAttachType::Unknown);
    assert_eq!(ProgramAttachType::from_raw(4096), ProgramAttachType::Unknown);
    assert_eq!(ProgramAttachType::from_raw(u32::MAX), ProgramAttachType::Unknown);
}

#[test]
fn recognized_codes_classify() {
    assert_eq!(ProgramType::from_raw(0), ProgramType::Unspec);
    assert_eq!(ProgramType::from_raw(2), ProgramType::Kprobe);
    assert_eq!(ProgramType::from_raw(6), ProgramType::Xdp);
    assert_eq!(ProgramType::from_raw(31), ProgramType::Syscall);
    assert_eq!(ProgramAttachType::from_raw(0), ProgramAttachType::CgroupInetIngress);
    assert_eq!(ProgramAttachType::from_raw(24), ProgramAttachType::TraceFentry);
    assert_eq!(ProgramAttachType::from_raw(41), ProgramAttachType::PerfEvent);
}

#[test]
fn codes_round_trip() {
    for raw in 0..PROGRAM_TYPE_COUNT {
        assert_eq!(ProgramType::from_raw(raw).as_raw(), raw);
    }
    for raw in 0..ATTACH_TYPE_COUNT {
        assert_eq!(ProgramAttachType::from_raw(raw).as_raw(), raw);
    }
    assert_eq!(ProgramType::Unknown.as_raw(), u32::MAX);
    assert_eq!(ProgramAttachType::Unknown.as_raw(), u32::MAX);
}

#[test]
fn unsupported_program_kind_probes_false() {
    assert_eq!(probe_outcome(0), Ok(false));
}

#[test]
fn supported_program_kind_probes_true() {
    assert_eq!(probe_outcome(1), Ok(true));
}

#[test]
fn failed_probe_reports_errno() {
    assert_eq!(probe_outcome(-1), Err(Error::Os { errno: 1 }));
    assert_eq!(probe_outcome(-22), Err(Error::Os { errno: 22 }));
    assert_eq!(probe_outcome(i32::MIN), Err(Error::Os { errno: 2147483648 }));
}
