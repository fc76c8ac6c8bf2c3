use pop_core::error::ErrorKind;
use pop_core::loopback::Loopback;
use pop_core::mount::{Mount, Mounts};

#[test]
fn loopback_records_attachment() {
    let lb = Loopback::new(String::from("/img/image.raw"), String::from("/dev/loop3"));
    assert!(lb.attached());
    assert_eq!(lb.file(), "/img/image.raw");
    assert_eq!(lb.device(), "/dev/loop3");
}

#[test]
fn loopback_partition_paths() {
    let lb = Loopback::new(String::from("f"), String::from("/dev/loop0"));
    assert_eq!(lb.partition(1).as_str(), "/dev/loop0p1");
    assert_eq!(lb.partition(2).as_str(), "/dev/loop0p2");
}

#[test]
fn loopback_detach_is_issued_exactly_once() {
    // Scope guards: an explicit detach followed by the drop-time guard
    // issues one call in all.
    let mut lb = Loopback::new(String::from("f"), String::from("/dev/loop1"));
    assert!(lb.needs_detach());
    lb.set_detached();
    assert!(!lb.needs_detach());
    assert!(!lb.needs_detach());
}

#[test]
fn loopback_use_requires_attachment() {
    let mut lb = Loopback::new(String::from("f"), String::from("/dev/loop1"));
    assert!(lb.check_attached().is_ok());
    lb.set_detached();
    let err = lb.check_attached().unwrap_err();
    assert_eq!(err.kind(), ErrorKind::Other);
    assert_eq!(err.message(), "loopback device not attached");
}

#[test]
fn mount_records_paths() {
    let m = Mount::new(String::from("/dev/loop0p2"), String::from("/mnt/top"));
    assert!(m.mounted());
    assert_eq!(m.dest(), "/mnt/top");
}

#[test]
fn mount_unmount_is_issued_exactly_once() {
    let mut m = Mount::new(String::from("/dev/loop0p2"), String::from("/mnt/top"));
    assert!(m.needs_unmount());
    m.set_unmounted();
    assert!(!m.needs_unmount());
    assert!(!m.needs_unmount());
}

#[test]
fn mount_use_requires_mounted() {
    let mut m = Mount::new(String::from("s"), String::from("d"));
    assert!(m.check_mounted().is_ok());
    m.set_unmounted();
    let err = m.check_mounted().unwrap_err();
    assert_eq!(err.kind(), ErrorKind::Other);
    assert_eq!(err.message(), "mount point not mounted");
}

#[test]
fn mounts_unmount_in_reverse_insertion_order() {
    let mounts = Mounts(vec![
        Mount::new(String::from("a"), String::from("/one")),
        Mount::new(String::from("b"), String::from("/two")),
        Mount::new(String::from("c"), String::from("/three")),
    ]);
    assert_eq!(mounts.unmount_order(), vec![2, 1, 0]);
}

#[test]
fn empty_mounts_need_no_unmounts() {
    let mounts = Mounts(Vec::new());
    assert_eq!(mounts.unmount_order(), Vec::<usize>::new());
}
