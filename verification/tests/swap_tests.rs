use pop_core::error::ErrorKind;
use pop_core::swap::{
    acquire_lock, by_uuid_device, lock_path, require_root, rootid_from_output, subvol_name,
    try_lock, Action, Event, Phase, Step, Subvol, SwapMachine,
};
use pop_core::swap_model::{run_swap, TopLevel};

fn booted_layout() -> TopLevel {
    TopLevel {
        root: Some(1),
        root_new: None,
        root_old: None,
        booted: 1,
        default_is_top: false,
        next_id: 2,
    }
}

#[test]
fn happy_path_rotates_the_root() {
    // Start with @root booted; the run publishes a fresh clone at @root
    // and saves the booted root at @root.old.
    let mut top = booted_layout();
    let outcomes: Vec<bool> = Vec::new();
    run_swap(&mut top, &outcomes).unwrap();
    assert_eq!(top.root, Some(2));
    assert_eq!(top.root_old, Some(1));
    assert_eq!(top.root_new, None);
    assert!(!top.default_is_top);
}

#[test]
fn stale_clone_is_cleaned_up_first() {
    // A leftover @root.new from a crashed run is deleted and the run
    // proceeds normally.
    let mut top = TopLevel {
        root: Some(1),
        root_new: Some(9),
        root_old: None,
        booted: 1,
        default_is_top: false,
        next_id: 10,
    };
    let outcomes: Vec<bool> = Vec::new();
    run_swap(&mut top, &outcomes).unwrap();
    assert_eq!(top.root, Some(10));
    assert_eq!(top.root_old, Some(1));
    assert_eq!(top.root_new, None);
}

#[test]
fn booted_root_at_the_clone_is_refused() {
    // The impossible state: the booted rootid found at @root.new.  The
    // run fails at once and modifies nothing.
    let mut top = TopLevel {
        root: None,
        root_new: Some(1),
        root_old: None,
        booted: 1,
        default_is_top: false,
        next_id: 2,
    };
    let before = top;
    let outcomes: Vec<bool> = Vec::new();
    let err = run_swap(&mut top, &outcomes).unwrap_err();
    assert_eq!(err.kind(), ErrorKind::AlreadyExists);
    assert_eq!(err.message(), "Booted root somehow at @root.new");
    assert_eq!(top, before);
}

#[test]
fn command_failure_leaves_clone_for_debugging() {
    // The container command fails: no rotation happened, the booted root
    // is untouched at @root, and the clone remains on disk.
    let mut top = booted_layout();
    // Outcomes in order: snapshot succeeds, the executed command fails.
    let outcomes = vec![true, false];
    let err = run_swap(&mut top, &outcomes).unwrap_err();
    assert_eq!(err.kind(), ErrorKind::Other);
    assert_eq!(err.message(), "systemd-nspawn exited with 1");
    assert_eq!(top.root, Some(1));
    assert_eq!(top.root_new, Some(2));
    assert_eq!(top.root_old, None);
}

#[test]
fn previous_old_root_is_replaced() {
    // A prior generation sits at @root.old; it is deleted and the booted
    // root takes its place.
    let mut top = TopLevel {
        root: Some(5),
        root_new: None,
        root_old: Some(3),
        booted: 5,
        default_is_top: false,
        next_id: 6,
    };
    let outcomes: Vec<bool> = Vec::new();
    run_swap(&mut top, &outcomes).unwrap();
    assert_eq!(top.root, Some(6));
    assert_eq!(top.root_old, Some(5));
    assert_eq!(top.root_new, None);
}

#[test]
fn booted_root_already_saved_at_old() {
    // After a crash between the rotation steps, the booted root may
    // already sit at @root.old while @root holds a newer generation.
    let mut top = TopLevel {
        root: Some(7),
        root_new: None,
        root_old: Some(2),
        booted: 2,
        default_is_top: true,
        next_id: 8,
    };
    let outcomes: Vec<bool> = Vec::new();
    run_swap(&mut top, &outcomes).unwrap();
    assert_eq!(top.root, Some(8));
    assert_eq!(top.root_old, Some(2));
    assert_eq!(top.root_new, None);
    assert!(!top.default_is_top);
}

#[test]
fn booted_root_nowhere_fails_not_found() {
    // The booted rootid is at none of the three names (for example the
    // system booted from @root.original): the rotation refuses to move
    // anything.
    let mut top = TopLevel {
        root: Some(4),
        root_new: None,
        root_old: None,
        booted: 2,
        default_is_top: false,
        next_id: 5,
    };
    let outcomes: Vec<bool> = Vec::new();
    let err = run_swap(&mut top, &outcomes).unwrap_err();
    assert_eq!(err.kind(), ErrorKind::NotFound);
    assert_eq!(err.message(), "Booted root not found at @root");
    assert_eq!(top.root, Some(4));
}

#[test]
fn rename_failure_after_save_keeps_booted_at_old() {
    // A failure after the booted root was saved at @root.old: the booted
    // subvolume survives there, with the sealed clone still on disk.
    let mut top = booted_layout();
    // Outcomes in order: snapshot, execute, seal, neutralize default,
    // rootid query, save rename all succeed; the placing rename fails.
    let outcomes = vec![true, true, true, true, true, true, false];
    let err = run_swap(&mut top, &outcomes).unwrap_err();
    assert_eq!(err.kind(), ErrorKind::Other);
    assert_eq!(top.root_old, Some(1));
    assert_eq!(top.root, None);
    assert_eq!(top.root_new, Some(2));
    assert!(top.default_is_top);
}

#[test]
fn default_restore_failure_still_has_root_in_place() {
    let mut top = booted_layout();
    let outcomes = vec![true, true, true, true, true, true, true, false];
    let err = run_swap(&mut top, &outcomes).unwrap_err();
    assert_eq!(err.kind(), ErrorKind::Other);
    assert_eq!(top.root, Some(2));
    assert_eq!(top.root_old, Some(1));
    assert_eq!(top.root_new, None);
    assert!(top.default_is_top);
}

#[test]
fn snapshot_failure_aborts_early() {
    let mut top = booted_layout();
    let outcomes = vec![false];
    let err = run_swap(&mut top, &outcomes).unwrap_err();
    assert_eq!(err.kind(), ErrorKind::Other);
    assert_eq!(err.message(), "btrfs exited with 1");
    assert_eq!(top, booted_layout());
}

#[test]
fn machine_starts_by_checking_the_clone() {
    let mut m = SwapMachine::new(1);
    assert_eq!(m.phase, Phase::Start);
    let step = m.next(Event::Begin);
    assert!(matches!(step, Step::Do(Action::CheckExists(Subvol::RootNew))));
    assert_eq!(m.phase, Phase::AwaitNewExists);
    let step = m.next(Event::Exists(false));
    assert!(matches!(step, Step::Do(Action::Snapshot)));
    assert_eq!(m.phase, Phase::AwaitSnapshot);
}

#[test]
fn machine_deletes_a_non_booted_clone() {
    let mut m = SwapMachine::new(1);
    m.next(Event::Begin);
    let step = m.next(Event::Exists(true));
    assert!(matches!(step, Step::Do(Action::QueryId(Subvol::RootNew))));
    let step = m.next(Event::Id(9));
    assert!(matches!(step, Step::Do(Action::Delete(Subvol::RootNew))));
}

#[test]
fn subvolume_names() {
    assert_eq!(subvol_name(Subvol::Root), "@root");
    assert_eq!(subvol_name(Subvol::RootNew), "@root.new");
    assert_eq!(subvol_name(Subvol::RootOld), "@root.old");
}

#[test]
fn rootid_parsing_from_command_output() {
    assert_eq!(rootid_from_output(Some(0), Some(String::from("271\n"))).unwrap(), 271);
    let err = rootid_from_output(Some(1), Some(String::from("271\n"))).unwrap_err();
    assert_eq!(err.kind(), ErrorKind::Other);
    let err = rootid_from_output(Some(0), None).unwrap_err();
    assert_eq!(err.kind(), ErrorKind::InvalidData);
    let err = rootid_from_output(Some(0), Some(String::from("abc"))).unwrap_err();
    assert_eq!(err.kind(), ErrorKind::InvalidData);
}

#[test]
fn root_privileges_are_required() {
    assert!(require_root(0).is_ok());
    let err = require_root(1000).unwrap_err();
    assert_eq!(err.kind(), ErrorKind::PermissionDenied);
    assert_eq!(err.message(), "must be run as root");
}

#[test]
fn single_writer_lock() {
    // Single-writer: of two invocations, only the first proceeds past
    // the lock; the second is refused with AlreadyExists.
    let mut held = false;
    assert!(try_lock(&mut held).is_ok());
    let err = try_lock(&mut held).unwrap_err();
    assert_eq!(err.kind(), ErrorKind::AlreadyExists);
    assert_eq!(
        err.message(),
        "/tmp/pop-core-change already exists, is pop-core already running?"
    );
}

#[test]
fn lock_and_paths() {
    assert_eq!(lock_path(), "/tmp/pop-core-change");
    assert!(acquire_lock(false).is_ok());
    assert!(acquire_lock(true).is_err());
    assert_eq!(
        by_uuid_device("1234-abcd").as_str(),
        "/dev/disk/by-uuid/1234-abcd"
    );
}
