use libbpf_rs::attach::{
    complete_attach, plan_attach, plan_attach_sockmap, AttachCall, AttachRequest, RawLink,
    SockmapAttach,
};
use libbpf_rs::error::Error;
use libbpf_rs::kind::ProgramAttachType;
use libbpf_rs::opts::{TracepointOpts, UprobeOpts, UsdtOpts};

#[test]
fn kprobe_attach_yields_one_link() {
    let req = AttachRequest::Kprobe { retprobe: false, func_name: "do_sys_openat2".to_string() };
    match plan_attach(&req).unwrap() {
        AttachCall::Kprobe { retprobe, func_name } => {
            assert!(!retprobe);
            assert_eq!(func_name, b"do_sys_openat2\0".to_vec());
        }
        other => panic!("unexpected call {:?}", other),
    }
    let mut link = complete_attach(RawLink::Created(0x5000)).unwrap();
    assert!(link.is_attached());
    assert_eq!(link.token(), 0x5000);
    assert_eq!(link.release(), Some(0x5000));
    assert!(!link.is_attached());
}

#[test]
fn uprobe_with_missing_binary_yields_no_link() {
    let mut opts = UprobeOpts::default();
    opts.func_name = "main".to_string();
    opts.cookie = 7;
    let req = AttachRequest::UprobeWithOpts {
        pid: 0,
        binary_path: "/does/not/exist".to_string(),
        func_offset: 0,
        opts,
    };
    match plan_attach(&req).unwrap() {
        AttachCall::UprobeWithOpts { pid, binary_path, func_offset, ref_ctr_offset, cookie, retprobe, func_name } => {
            assert_eq!(pid, 0);
            assert_eq!(binary_path, b"/does/not/exist\0".to_vec());
            assert_eq!(func_offset, 0);
            assert_eq!(ref_ctr_offset, 0);
            assert_eq!(cookie, 7);
            assert!(!retprobe);
            assert_eq!(func_name, b"main\0".to_vec());
        }
        other => panic!("unexpected call {:?}", other),
    }
    // The kernel reports ENOENT for the missing binary.
    let r = complete_attach(RawLink::Failed(-2));
    assert_eq!(r.unwrap_err(), Error::Os { errno: 2 });
}

#[test]
fn interior_nul_in_name_is_rejected() {
    let req = AttachRequest::Kprobe { retprobe: true, func_name: "do\0sys".to_string() };
    assert_eq!(plan_attach(&req).unwrap_err(), Error::InvalidInput);
    let req = AttachRequest::Usdt {
        pid: 1,
        binary_path: "/bin/true".to_string(),
        provider: "prov".to_string(),
        name: "pro\0be".to_string(),
        usdt_opts: None,
    };
    assert_eq!(plan_attach(&req).unwrap_err(), Error::InvalidInput);
}

#[test]
fn null_outcome_yields_no_link() {
    assert_eq!(complete_attach(RawLink::Null).unwrap_err(), Error::NullObject);
}

#[test]
fn tracepoint_with_and_without_options() {
    let req = AttachRequest::Tracepoint { category: "syscalls".to_string(), name: "sys_enter_read".to_string(), tp_opts: None };
    match plan_attach(&req).unwrap() {
        AttachCall::Tracepoint { category, name, opt_cookie } => {
            assert_eq!(category, b"syscalls\0".to_vec());
            assert_eq!(name, b"sys_enter_read\0".to_vec());
            assert_eq!(opt_cookie, None);
        }
        other => panic!("unexpected call {:?}", other),
    }
    let mut opts = TracepointOpts::default();
    opts.cookie = 42;
    let req = AttachRequest::Tracepoint { category: "sched".to_string(), name: "sched_switch".to_string(), tp_opts: Some(opts) };
    match plan_attach(&req).unwrap() {
        AttachCall::Tracepoint { opt_cookie, .. } => assert_eq!(opt_cookie, Some(42)),
        other => panic!("unexpected call {:?}", other),
    }
}

#[test]
fn usdt_with_options_carries_cookie() {
    let mut opts = UsdtOpts::default();
    opts.cookie = 9;
    let req = AttachRequest::Usdt {
        pid: 12,
        binary_path: "/usr/bin/app".to_string(),
        provider: "app".to_string(),
        name: "start".to_string(),
        usdt_opts: Some(opts),
    };
    match plan_attach(&req).unwrap() {
        AttachCall::Usdt { pid, binary_path, provider, name, opt_cookie } => {
            assert_eq!(pid, 12);
            assert_eq!(binary_path, b"/usr/bin/app\0".to_vec());
            assert_eq!(provider, b"app\0".to_vec());
            assert_eq!(name, b"start\0".to_vec());
            assert_eq!(opt_cookie, Some(9));
        }
        other => panic!("unexpected call {:?}", other),
    }
}

#[test]
fn ksyscall_and_raw_tracepoint_encode_names() {
    match plan_attach(&AttachRequest::Ksyscall { retprobe: true, syscall_name: "openat".to_string() }).unwrap() {
        AttachCall::Ksyscall { retprobe, syscall_name } => {
            assert!(retprobe);
            assert_eq!(syscall_name, b"openat\0".to_vec());
        }
        other => panic!("unexpected call {:?}", other),
    }
    match plan_attach(&AttachRequest::RawTracepoint { name: "sys_enter".to_string() }).unwrap() {
        AttachCall::RawTracepoint { name } => assert_eq!(name, b"sys_enter\0".to_vec()),
        other => panic!("unexpected call {:?}", other),
    }
}

#[test]
fn descriptor_attaches_pass_through() {
    assert!(matches!(plan_attach(&AttachRequest::Cgroup { cgroup_fd: 5 }).unwrap(), AttachCall::Cgroup { cgroup_fd: 5 }));
    assert!(matches!(plan_attach(&AttachRequest::Xdp { ifindex: 3 }).unwrap(), AttachCall::Xdp { ifindex: 3 }));
    assert!(matches!(plan_attach(&AttachRequest::Iter { map_fd: 8 }).unwrap(), AttachCall::Iter { map_fd: 8 }));
    assert!(matches!(plan_attach(&AttachRequest::Lsm).unwrap(), AttachCall::Lsm));
}

#[test]
fn sockmap_attach_uses_program_attach_type() {
    assert_eq!(
        plan_attach_sockmap(4, ProgramAttachType::SkSkbStreamVerdict),
        SockmapAttach { map_fd: 4, attach_type: 5, flags: 0 }
    );
}
