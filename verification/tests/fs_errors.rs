use porkg::has_existing_shared_mount;
use porkg::BindFlags;
use porkg::MountFlags;
use porkg::MountKind;
use porkg::Syscall;
use porkg::UnmountFlags;

// Mounting needs privileges these tests do not have, so the kernel refuses
// each call; the library's contract pins the path every error names.

#[test]
fn mount_error_names_the_target() {
    let r = Syscall::mount(
        None,
        "/porkg-test-no-such-target",
        Some(MountKind::Proc),
        MountFlags::empty(),
        None,
    );
    let e = r.unwrap_err();
    assert_eq!(e.path, "/porkg-test-no-such-target");
    assert_ne!(e.errno, 0);
}

#[test]
fn unmount_error_names_the_path() {
    let r = Syscall::unmount("/porkg-test-no-such-mount", UnmountFlags::detach());
    let e = r.unwrap_err();
    assert_eq!(e.path, "/porkg-test-no-such-mount");
    assert_ne!(e.errno, 0);
}

#[test]
fn bind_error_names_the_target() {
    let r = Syscall::bind(
        "/porkg-test-no-such-source",
        "/porkg-test-no-such-target",
        BindFlags::recursive().union(BindFlags::read_only()),
    );
    let e = r.unwrap_err();
    assert_eq!(e.path, "/porkg-test-no-such-target");
    assert_ne!(e.errno, 0);
}

#[test]
fn pivot_error_names_the_new_root() {
    let r = Syscall::pivot("/porkg-test-no-such-root");
    let e = r.unwrap_err();
    assert_eq!(e.path, "/porkg-test-no-such-root");
    assert_ne!(e.errno, 0);
}

#[test]
fn mount_table_lookup_runs() {
    // The root filesystem is always mounted; whether it is shared depends on
    // the host, but the lookup itself must answer.
    let _ = has_existing_shared_mount("/");
    assert_eq!(has_existing_shared_mount("/porkg-test-no-such-mount"), None);
}
