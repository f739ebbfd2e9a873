use porkg::bind_plan;
use porkg::clone_attempt;
use porkg::exit_signal_for;
use porkg::fallback_plan_from;
use porkg::interpret_limit;
use porkg::makedev;
use porkg::pivot_plan;
use porkg::should_fall_back;
use porkg::worker_clone_flags;
use porkg::CloneAttempt;
use porkg::CloneFlags;
use porkg::BindFlags;
use porkg::BindMount;
use porkg::DeviceKind;
use porkg::MountKind;
use porkg::PivotStep;
use porkg::SandboxFlags;
use porkg::SandboxOptions;

#[test]
fn clone_flag_sets() {
    let f = CloneFlags::newpid().union(CloneFlags::newns()).union(CloneFlags::newuser());
    assert!(f.contains(CloneFlags::newpid()));
    assert!(f.contains(CloneFlags::newns()));
    assert!(!f.contains(CloneFlags::newnet()));
    assert!(f.intersects(CloneFlags::newuser()));
    let without = f.difference(CloneFlags::newns());
    assert!(!without.contains(CloneFlags::newns()));
    assert_eq!(CloneFlags::empty().bits(), 0);
    assert_eq!(CloneFlags::parent().bits(), 0x8000);
}

#[test]
fn exit_signal_matches_kinship() {
    assert_eq!(exit_signal_for(CloneFlags::empty()), 17);
    assert_eq!(exit_signal_for(CloneFlags::parent()), 0);
    assert_eq!(exit_signal_for(CloneFlags::parent().union(CloneFlags::newpid())), 0);
}

#[test]
fn clone3_is_tried_first() {
    let flags = CloneFlags::newpid().union(CloneFlags::newuser());
    match clone_attempt(flags) {
        CloneAttempt::UseClone3 { args } => {
            assert_eq!(args.flags, flags.bits());
            assert_eq!(args.exit_signal, 17);
            assert_eq!(args.stack, 0);
            assert_eq!(args.stack_size, 0);
            assert_eq!(args.cgroup, 0);
        }
        CloneAttempt::ForceFallback => panic!("clone3 expected"),
    }
}

#[test]
fn test_flag_forces_fallback() {
    let flags = CloneFlags::test_fallback();
    assert_eq!(clone_attempt(flags), CloneAttempt::ForceFallback);
    assert!(should_fall_back(38));
    assert!(!should_fall_back(1));
}

#[test]
fn fallback_plan_values() {
    let flags = CloneFlags::test_fallback().union(CloneFlags::newpid());
    let plan = fallback_plan_from(flags, Ok(Some(4096)), Ok((8 * 1024 * 1024, u64::MAX)));
    assert_eq!(plan.guard_len, 4096);
    assert_eq!(plan.stack_size, 8 * 1024 * 1024);
    // The private test flag never reaches the kernel; the exit signal rides
    // along in the flag word.
    assert_eq!(plan.combined_flags, CloneFlags::newpid().bits() | 17);

    let defaults = fallback_plan_from(CloneFlags::empty(), Err(22), Ok((u64::MAX, u64::MAX)));
    assert_eq!(defaults.guard_len, 4096);
    assert_eq!(defaults.stack_size, 8 * 1024 * 1024);
}

#[test]
fn limits_interpretation() {
    assert_eq!(interpret_limit(u64::MAX), None);
    assert_eq!(interpret_limit(1024), Some(1024));
}

#[test]
fn worker_namespaces() {
    let plain = SandboxOptions::default();
    assert_eq!(
        worker_clone_flags(&plain).bits(),
        0x2000_0000 | 0x0002_0000 | 0x1000_0000
    );

    let mut isolated = SandboxOptions::default();
    isolated.with_network_isolation(true);
    assert!(isolated.flags().contains(SandboxFlags::network_isolation()));
    assert_eq!(
        worker_clone_flags(&isolated).bits(),
        0x2000_0000 | 0x0002_0000 | 0x1000_0000 | 0x4000_0000
    );

    isolated.with_network_isolation(false);
    assert_eq!(worker_clone_flags(&isolated).bits(), worker_clone_flags(&plain).bits());
}

#[test]
fn sandbox_options_accessors() {
    let mut opts = SandboxOptions::default();
    assert_eq!(opts.sandbox_uid(), 0);
    assert_eq!(opts.sandbox_gid(), 0);
    opts.sandbox_uid = 100;
    opts.sandbox_gid = 200;
    assert_eq!(opts.sandbox_uid(), 100);
    assert_eq!(opts.sandbox_gid(), 200);
}

#[test]
fn mount_kind_tokens() {
    assert_eq!(MountKind::Proc.as_str(), "proc");
    assert_eq!(MountKind::SysFs.as_str(), "sysfs");
    assert_eq!(MountKind::TmpFs.as_str(), "tmpfs");
    assert_eq!(MountKind::DevPts.as_str(), "devpts");
    assert_eq!(MountKind::Overlay.as_str(), "overlay");
    assert_eq!(MountKind::Fuse.as_str(), "fuse");
}

#[test]
fn device_numbers() {
    assert_eq!(makedev(1, 3), 0x103);
    assert_eq!(DeviceKind::Null.device_number(), 0x103);
    assert_eq!(DeviceKind::Zero.device_number(), 0x105);
    assert_eq!(DeviceKind::Full.device_number(), 0x107);
    assert_eq!(DeviceKind::Random.device_number(), 0x108);
    assert_eq!(DeviceKind::URandom.device_number(), 0x109);
    assert_eq!(DeviceKind::Tty.device_number(), 0x500);
    assert_eq!(DeviceKind::Ptmx.device_number(), 0x502);
    assert_eq!(DeviceKind::Tty.file_type_bits(), 0x2000);
    // Large majors and minors spill into the high encoding windows.
    assert_eq!(
        makedev(0x1234, 0x5678),
        (0x1000u64 << 32) | (0x234 << 8) | (0x5600 << 12) | 0x78
    );
}

#[test]
fn bind_plan_calls() {
    // A plain bind is one MS_BIND mount from the source.
    let plain = bind_plan(BindFlags::empty());
    assert_eq!(plain, vec![BindMount { with_source: true, flags: 0x1000 }]);

    // RECURSIVE adds MS_REC; READ_ONLY adds the mandatory second remount.
    let ro = bind_plan(BindFlags::recursive().union(BindFlags::read_only()));
    assert_eq!(
        ro,
        vec![
            BindMount { with_source: true, flags: 0x1000 | 0x4000 },
            BindMount { with_source: false, flags: 0x20 | 0x1000 | 0x1 },
        ]
    );
}

#[test]
fn pivot_plan_steps() {
    let tail = vec![
        PivotStep::OpenNewRoot,
        PivotStep::PivotIntoNewRoot,
        PivotStep::MountOldRoot { flags: 0x8_0000 | 0x4000 },
        PivotStep::UnmountOldRoot { flags: 0x2 },
        PivotStep::EnterNewRoot,
    ];

    // A shared mount at the new root is made private first.
    let mut shared = vec![PivotStep::MountNewRoot { bind_self: false, flags: 0x4_0000 | 0x4000 }];
    shared.extend_from_slice(&tail);
    assert_eq!(pivot_plan(Some(true)), shared);

    // No mount there: the new root is bound onto itself.
    let mut unmounted =
        vec![PivotStep::MountNewRoot { bind_self: true, flags: 0x4_0000 | 0x1000 | 0x4000 }];
    unmounted.extend_from_slice(&tail);
    assert_eq!(pivot_plan(None), unmounted);

    // A private mount needs no preparation.
    assert_eq!(pivot_plan(Some(false)), tail);
}
