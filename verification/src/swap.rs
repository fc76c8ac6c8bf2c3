//! The atomic root-swap state machine.
//!
//! On a booted system whose root is the Btrfs subvolume `@root`, a run
//! clones the root to `@root.new`, executes a command in a container
//! against the clone, then rotates `@root` to `@root.old` and `@root.new`
//! to `@root`, updating the default subvolume.  Every delete is guarded by
//! comparing the candidate's rootid against the booted rootid, so the
//! booted subvolume is never deleted.
//!
//! The machine holds the whole decision sequence.  The driver repeatedly
//! performs the returned [`Action`] against the real filesystem and feeds
//! the observed [`Event`] back to [`SwapMachine::next`]; the machine never
//! touches the disk itself.

use vstd::prelude::*;

use crate::error::{Error, ErrorKind};
use crate::status::{check_status, captured_text, exit_message};
use crate::text::{all_dec_digits, dec_value, parse_u64_dec, spec_trim};

verus! {

/// The subvolume names the rotation touches, relative to the mounted
/// top-level directory.
#[derive(Clone, Copy, Debug, PartialEq, Eq, Structural)]
pub enum Subvol {
    /// `@root`, the booted, default root.
    Root,
    /// `@root.new`, the in-progress writable clone.
    RootNew,
    /// `@root.old`, the previous root kept for rollback.
    RootOld,
}

/// What the driver is to do next against the mounted top level.
#[derive(Clone, Copy, Debug, PartialEq, Eq, Structural)]
pub enum Action {
    /// Does the subvolume exist?  Answer with `Event::Exists`.
    CheckExists(Subvol),
    /// Query the subvolume's rootid.  Answer with `Event::Id` or
    /// `Event::IdFailed`.
    QueryId(Subvol),
    /// `btrfs subvolume delete` the subvolume.  Answer with
    /// `Event::Status`.
    Delete(Subvol),
    /// Writable `btrfs subvolume snapshot` of `@root` at `@root.new`.
    Snapshot,
    /// Run the user command in a container against `@root.new`.
    Execute,
    /// `btrfs property set` `@root.new` read-only.
    SetReadOnly,
    /// `btrfs subvolume set-default /`: neutralize the default.
    SetDefaultTop,
    /// Rename the first subvolume to the second.  Answer with
    /// `Event::Renamed` or `Event::RenameFailed`.
    Rename(Subvol, Subvol),
    /// `btrfs subvolume set-default` on `@root`.
    SetDefaultRoot,
}

/// What the driver observed when performing the last action.
#[derive(Debug)]
pub enum Event {
    /// Nothing yet: starts the machine.
    Begin,
    /// Whether the queried subvolume exists.
    Exists(bool),
    /// The queried rootid.
    Id(u64),
    /// The rootid query failed with this error.
    IdFailed(Error),
    /// The exit code of the spawned command, absent when it was ended by
    /// a signal.
    Status(Option<i32>),
    /// The rename succeeded.
    Renamed,
    /// The rename failed with this error.
    RenameFailed(Error),
}

/// The machine's answer to an event.
#[derive(Debug)]
pub enum Step {
    /// Perform this action and report what happened.
    Do(Action),
    /// The swap completed.
    Done,
    /// The swap failed; scoped teardown still runs.
    Fail(Error),
}

/// The machine's position: which action's outcome it is waiting for.
#[derive(Clone, Copy, Debug, PartialEq, Eq, Structural)]
pub enum Phase {
    Start,
    AwaitNewExists,
    AwaitNewId,
    AwaitNewDelete,
    AwaitSnapshot,
    AwaitExecute,
    AwaitSeal,
    AwaitDefaultTop,
    AwaitOldExists,
    AwaitOldId,
    AwaitOldDelete,
    AwaitOldGone,
    AwaitRootIdForSave,
    AwaitSaveRename,
    AwaitRootExists,
    AwaitRootIdForDelete,
    AwaitRootDelete,
    AwaitPlaceRename,
    AwaitDefaultRoot,
    Finished,
    Failed,
}

/// Which events answer the action issued in each phase.
pub open spec fn expects(phase: Phase, e: Event) -> bool {
    match phase {
        Phase::Start => e is Begin,
        Phase::AwaitNewExists => e is Exists,
        Phase::AwaitOldExists => e is Exists,
        Phase::AwaitOldGone => e is Exists,
        Phase::AwaitRootExists => e is Exists,
        Phase::AwaitNewId => e is Id || e is IdFailed,
        Phase::AwaitOldId => e is Id || e is IdFailed,
        Phase::AwaitRootIdForSave => e is Id || e is IdFailed,
        Phase::AwaitRootIdForDelete => e is Id || e is IdFailed,
        Phase::AwaitNewDelete => e is Status,
        Phase::AwaitSnapshot => e is Status,
        Phase::AwaitExecute => e is Status,
        Phase::AwaitSeal => e is Status,
        Phase::AwaitDefaultTop => e is Status,
        Phase::AwaitOldDelete => e is Status,
        Phase::AwaitRootDelete => e is Status,
        Phase::AwaitDefaultRoot => e is Status,
        Phase::AwaitSaveRename => e is Renamed || e is RenameFailed,
        Phase::AwaitPlaceRename => e is Renamed || e is RenameFailed,
        Phase::Finished => false,
        Phase::Failed => false,
    }
}

/// The machine moved on: it answered with this action and now waits in
/// this phase.
pub open spec fn goes(r: Step, m: SwapMachine, a: Action, p: Phase) -> bool {
    r == Step::Do(a) && m.phase == p
}

/// The machine failed with this kind and message.
pub open spec fn fails(r: Step, m: SwapMachine, kind: ErrorKind, msg: Seq<char>) -> bool {
    &&& r matches Step::Fail(e) && e.kind == kind && e.message@ == msg
    &&& m.phase == Phase::Failed
}

/// The machine failed, passing this error through.
pub open spec fn fails_with(r: Step, m: SwapMachine, err: Error) -> bool {
    r == Step::Fail(err) && m.phase == Phase::Failed
}

/// The atomic root-swap state machine.
#[derive(Debug)]
pub struct SwapMachine {
    /// Which action's outcome the machine waits for.
    pub phase: Phase,
    /// The rootid of `/`: the booted root's identity.
    pub booted: u64,
}

impl SwapMachine {
    /// A machine for one swap on a system whose booted root has the given
    /// rootid.
    pub fn new(booted: u64) -> (r: SwapMachine)
        ensures
            r.phase == Phase::Start,
            r.booted == booted,
    {
        SwapMachine { phase: Phase::Start, booted }
    }

    /// Feeds the outcome of the last action in and decides the next step.
    ///
    /// The decision sequence: clean up a leftover `@root.new` unless it is
    /// the booted root; snapshot `@root` writable at `@root.new`; execute
    /// the command; seal the clone read-only; neutralize the default
    /// subvolume; save the booted root at `@root.old`, deleting only a
    /// non-booted occupant; move `@root.new` to `@root`, deleting only a
    /// non-booted occupant; restore `@root` as the default.
    pub fn next(&mut self, e: Event) -> (r: Step)
        requires
            expects(old(self).phase, e),
        ensures
            final(self).booted == old(self).booted,
            old(self).phase == Phase::Start ==> goes(
                r,
                *final(self),
                Action::CheckExists(Subvol::RootNew),
                Phase::AwaitNewExists,
            ),
            old(self).phase == Phase::AwaitNewExists ==> (e matches Event::Exists(x) && (if x {
                goes(r, *final(self), Action::QueryId(Subvol::RootNew), Phase::AwaitNewId)
            } else {
                goes(r, *final(self), Action::Snapshot, Phase::AwaitSnapshot)
            })),
            old(self).phase == Phase::AwaitNewId ==> (e matches Event::Id(id) ==> (if id == old(
                self,
            ).booted {
                fails(r, *final(self), ErrorKind::AlreadyExists, "Booted root somehow at @root.new"@)
            } else {
                goes(r, *final(self), Action::Delete(Subvol::RootNew), Phase::AwaitNewDelete)
            })),
            old(self).phase == Phase::AwaitNewDelete ==> (e matches Event::Status(c) ==> (if c
                == Some(0i32) {
                goes(r, *final(self), Action::Snapshot, Phase::AwaitSnapshot)
            } else {
                fails(r, *final(self), ErrorKind::Other, exit_message("btrfs"@, c))
            })),
            old(self).phase == Phase::AwaitSnapshot ==> (e matches Event::Status(c) ==> (if c
                == Some(0i32) {
                goes(r, *final(self), Action::Execute, Phase::AwaitExecute)
            } else {
                fails(r, *final(self), ErrorKind::Other, exit_message("btrfs"@, c))
            })),
            old(self).phase == Phase::AwaitExecute ==> (e matches Event::Status(c) ==> (if c == Some(
                0i32,
            ) {
                goes(r, *final(self), Action::SetReadOnly, Phase::AwaitSeal)
            } else {
                fails(r, *final(self), ErrorKind::Other, exit_message("systemd-nspawn"@, c))
            })),
            old(self).phase == Phase::AwaitSeal ==> (e matches Event::Status(c) ==> (if c == Some(
                0i32,
            ) {
                goes(r, *final(self), Action::SetDefaultTop, Phase::AwaitDefaultTop)
            } else {
                fails(r, *final(self), ErrorKind::Other, exit_message("btrfs"@, c))
            })),
            old(self).phase == Phase::AwaitDefaultTop ==> (e matches Event::Status(c) ==> (if c
                == Some(0i32) {
                goes(r, *final(self), Action::CheckExists(Subvol::RootOld), Phase::AwaitOldExists)
            } else {
                fails(r, *final(self), ErrorKind::Other, exit_message("btrfs"@, c))
            })),
            old(self).phase == Phase::AwaitOldExists ==> (e matches Event::Exists(x) && (if x {
                goes(r, *final(self), Action::QueryId(Subvol::RootOld), Phase::AwaitOldId)
            } else {
                goes(r, *final(self), Action::QueryId(Subvol::Root), Phase::AwaitRootIdForSave)
            })),
            old(self).phase == Phase::AwaitOldId ==> (e matches Event::Id(id) ==> (if id == old(
                self,
            ).booted {
                goes(r, *final(self), Action::CheckExists(Subvol::Root), Phase::AwaitRootExists)
            } else {
                goes(r, *final(self), Action::Delete(Subvol::RootOld), Phase::AwaitOldDelete)
            })),
            old(self).phase == Phase::AwaitOldDelete ==> (e matches Event::Status(c) ==> (if c
                == Some(0i32) {
                goes(r, *final(self), Action::CheckExists(Subvol::RootOld), Phase::AwaitOldGone)
            } else {
                fails(r, *final(self), ErrorKind::Other, exit_message("btrfs"@, c))
            })),
            old(self).phase == Phase::AwaitOldGone ==> (e matches Event::Exists(x) && (if x {
                goes(r, *final(self), Action::CheckExists(Subvol::Root), Phase::AwaitRootExists)
            } else {
                goes(r, *final(self), Action::QueryId(Subvol::Root), Phase::AwaitRootIdForSave)
            })),
            old(self).phase == Phase::AwaitRootIdForSave ==> (e matches Event::Id(id) ==> (if id
                == old(self).booted {
                goes(
                    r,
                    *final(self),
                    Action::Rename(Subvol::Root, Subvol::RootOld),
                    Phase::AwaitSaveRename,
                )
            } else {
                fails(r, *final(self), ErrorKind::NotFound, "Booted root not found at @root"@)
            })),
            old(self).phase == Phase::AwaitSaveRename && e is Renamed ==> goes(
                r,
                *final(self),
                Action::CheckExists(Subvol::Root),
                Phase::AwaitRootExists,
            ),
            old(self).phase == Phase::AwaitRootExists ==> (e matches Event::Exists(x) && (if x {
                goes(r, *final(self), Action::QueryId(Subvol::Root), Phase::AwaitRootIdForDelete)
            } else {
                goes(
                    r,
                    *final(self),
                    Action::Rename(Subvol::RootNew, Subvol::Root),
                    Phase::AwaitPlaceRename,
                )
            })),
            old(self).phase == Phase::AwaitRootIdForDelete ==> (e matches Event::Id(id) ==> (if id
                == old(self).booted {
                fails(r, *final(self), ErrorKind::AlreadyExists, "Booted root still at @root"@)
            } else {
                goes(r, *final(self), Action::Delete(Subvol::Root), Phase::AwaitRootDelete)
            })),
            old(self).phase == Phase::AwaitRootDelete ==> (e matches Event::Status(c) ==> (if c
                == Some(0i32) {
                goes(
                    r,
                    *final(self),
                    Action::Rename(Subvol::RootNew, Subvol::Root),
                    Phase::AwaitPlaceRename,
                )
            } else {
                fails(r, *final(self), ErrorKind::Other, exit_message("btrfs"@, c))
            })),
            old(self).phase == Phase::AwaitPlaceRename && e is Renamed ==> goes(
                r,
                *final(self),
                Action::SetDefaultRoot,
                Phase::AwaitDefaultRoot,
            ),
            old(self).phase == Phase::AwaitDefaultRoot ==> (e matches Event::Status(c) ==> (if c
                == Some(0i32) {
                r is Done && final(self).phase == Phase::Finished
            } else {
                fails(r, *final(self), ErrorKind::Other, exit_message("btrfs"@, c))
            })),
            e matches Event::IdFailed(err) ==> fails_with(r, *final(self), err),
            e matches Event::RenameFailed(err) ==> fails_with(r, *final(self), err),
    {
        let phase = self.phase;
        match (phase, e) {
            (Phase::Start, Event::Begin) => {
                self.phase = Phase::AwaitNewExists;
                Step::Do(Action::CheckExists(Subvol::RootNew))
            },
            (Phase::AwaitNewExists, Event::Exists(x)) => {
                if x {
                    self.phase = Phase::AwaitNewId;
                    Step::Do(Action::QueryId(Subvol::RootNew))
                } else {
                    self.phase = Phase::AwaitSnapshot;
                    Step::Do(Action::Snapshot)
                }
            },
            (Phase::AwaitNewId, Event::Id(id)) => {
                if id == self.booted {
                    self.phase = Phase::Failed;
                    Step::Fail(
                        Error::new(ErrorKind::AlreadyExists, "Booted root somehow at @root.new"),
                    )
                } else {
                    self.phase = Phase::AwaitNewDelete;
                    Step::Do(Action::Delete(Subvol::RootNew))
                }
            },
            (Phase::AwaitNewDelete, Event::Status(c)) => {
                match check_status("btrfs", c) {
                    Ok(()) => {
                        self.phase = Phase::AwaitSnapshot;
                        Step::Do(Action::Snapshot)
                    },
                    Err(err) => {
                        self.phase = Phase::Failed;
                        Step::Fail(err)
                    },
                }
            },
            (Phase::AwaitSnapshot, Event::Status(c)) => {
                match check_status("btrfs", c) {
                    Ok(()) => {
                        self.phase = Phase::AwaitExecute;
                        Step::Do(Action::Execute)
                    },
                    Err(err) => {
                        self.phase = Phase::Failed;
                        Step::Fail(err)
                    },
                }
            },
            (Phase::AwaitExecute, Event::Status(c)) => {
                match check_status("systemd-nspawn", c) {
                    Ok(()) => {
                        self.phase = Phase::AwaitSeal;
                        Step::Do(Action::SetReadOnly)
                    },
                    Err(err) => {
                        self.phase = Phase::Failed;
                        Step::Fail(err)
                    },
                }
            },
            (Phase::AwaitSeal, Event::Status(c)) => {
                match check_status("btrfs", c) {
                    Ok(()) => {
                        self.phase = Phase::AwaitDefaultTop;
                        Step::Do(Action::SetDefaultTop)
                    },
                    Err(err) => {
                        self.phase = Phase::Failed;
                        Step::Fail(err)
                    },
                }
            },
            (Phase::AwaitDefaultTop, Event::Status(c)) => {
                match check_status("btrfs", c) {
                    Ok(()) => {
                        self.phase = Phase::AwaitOldExists;
                        Step::Do(Action::CheckExists(Subvol::RootOld))
                    },
                    Err(err) => {
                        self.phase = Phase::Failed;
                        Step::Fail(err)
                    },
                }
            },
            (Phase::AwaitOldExists, Event::Exists(x)) => {
                if x {
                    self.phase = Phase::AwaitOldId;
                    Step::Do(Action::QueryId(Subvol::RootOld))
                } else {
                    self.phase = Phase::AwaitRootIdForSave;
                    Step::Do(Action::QueryId(Subvol::Root))
                }
            },
            (Phase::AwaitOldId, Event::Id(id)) => {
                if id == self.booted {
                    self.phase = Phase::AwaitRootExists;
                    Step::Do(Action::CheckExists(Subvol::Root))
                } else {
                    self.phase = Phase::AwaitOldDelete;
                    Step::Do(Action::Delete(Subvol::RootOld))
                }
            },
            (Phase::AwaitOldDelete, Event::Status(c)) => {
                match check_status("btrfs", c) {
                    Ok(()) => {
                        self.phase = Phase::AwaitOldGone;
                        Step::Do(Action::CheckExists(Subvol::RootOld))
                    },
                    Err(err) => {
                        self.phase = Phase::Failed;
                        Step::Fail(err)
                    },
                }
            },
            (Phase::AwaitOldGone, Event::Exists(x)) => {
                if x {
                    self.phase = Phase::AwaitRootExists;
                    Step::Do(Action::CheckExists(Subvol::Root))
                } else {
                    self.phase = Phase::AwaitRootIdForSave;
                    Step::Do(Action::QueryId(Subvol::Root))
                }
            },
            (Phase::AwaitRootIdForSave, Event::Id(id)) => {
                if id == self.booted {
                    self.phase = Phase::AwaitSaveRename;
                    Step::Do(Action::Rename(Subvol::Root, Subvol::RootOld))
                } else {
                    self.phase = Phase::Failed;
                    Step::Fail(Error::new(ErrorKind::NotFound, "Booted root not found at @root"))
                }
            },
            (Phase::AwaitSaveRename, Event::Renamed) => {
                self.phase = Phase::AwaitRootExists;
                Step::Do(Action::CheckExists(Subvol::Root))
            },
            (Phase::AwaitRootExists, Event::Exists(x)) => {
                if x {
                    self.phase = Phase::AwaitRootIdForDelete;
                    Step::Do(Action::QueryId(Subvol::Root))
                } else {
                    self.phase = Phase::AwaitPlaceRename;
                    Step::Do(Action::Rename(Subvol::RootNew, Subvol::Root))
                }
            },
            (Phase::AwaitRootIdForDelete, Event::Id(id)) => {
                if id == self.booted {
                    self.phase = Phase::Failed;
                    Step::Fail(Error::new(ErrorKind::AlreadyExists, "Booted root still at @root"))
                } else {
                    self.phase = Phase::AwaitRootDelete;
                    Step::Do(Action::Delete(Subvol::Root))
                }
            },
            (Phase::AwaitRootDelete, Event::Status(c)) => {
                match check_status("btrfs", c) {
                    Ok(()) => {
                        self.phase = Phase::AwaitPlaceRename;
                        Step::Do(Action::Rename(Subvol::RootNew, Subvol::Root))
                    },
                    Err(err) => {
                        self.phase = Phase::Failed;
                        Step::Fail(err)
                    },
                }
            },
            (Phase::AwaitPlaceRename, Event::Renamed) => {
                self.phase = Phase::AwaitDefaultRoot;
                Step::Do(Action::SetDefaultRoot)
            },
            (Phase::AwaitDefaultRoot, Event::Status(c)) => {
                match check_status("btrfs", c) {
                    Ok(()) => {
                        self.phase = Phase::Finished;
                        Step::Done
                    },
                    Err(err) => {
                        self.phase = Phase::Failed;
                        Step::Fail(err)
                    },
                }
            },
            (_, Event::IdFailed(err)) => {
                self.phase = Phase::Failed;
                Step::Fail(err)
            },
            (_, Event::RenameFailed(err)) => {
                self.phase = Phase::Failed;
                Step::Fail(err)
            },
            _ => {
                proof {
                    assert(false);
                }
                Step::Done
            },
        }
    }
}

/// The relative path of a rotation subvolume under the top level.
pub fn subvol_name(s: Subvol) -> (r: &'static str)
    ensures
        s == Subvol::Root ==> r@ == "@root"@,
        s == Subvol::RootNew ==> r@ == "@root.new"@,
        s == Subvol::RootOld ==> r@ == "@root.old"@,
{
    match s {
        Subvol::Root => "@root",
        Subvol::RootNew => "@root.new",
        Subvol::RootOld => "@root.old",
    }
}

/// Parses the stdout of a rootid query: the status must be 0, the output
/// valid UTF-8, and the trimmed text a decimal rootid.
pub fn rootid_from_output(code: Option<i32>, text: Option<String>) -> (r: Result<u64, Error>)
    ensures
        r is Ok <==> code == Some(0i32) && (text matches Some(t) && spec_trim(t@).len() > 0
            && all_dec_digits(spec_trim(t@)) && dec_value(spec_trim(t@)) <= u64::MAX),
        r matches Ok(v) ==> (text matches Some(t) && v as int == dec_value(spec_trim(t@))),
        code != Some(0i32) ==> (r matches Err(e) && e.kind == ErrorKind::Other && e.message@
            == exit_message("btrfs"@, code)),
        code == Some(0i32) && text is None ==> (r matches Err(e) && e.kind
            == ErrorKind::InvalidData),
{
    match captured_text("btrfs", code, text) {
        Ok(t) => match parse_u64_dec(t.as_str()) {
            Some(v) => Ok(v),
            None => Err(
                Error::new(ErrorKind::InvalidData, "rootid output is not a decimal number"),
            ),
        },
        Err(e) => Err(e),
    }
}

/// Refuses to run without root privileges.
pub fn require_root(euid: u32) -> (r: Result<(), Error>)
    ensures
        r is Ok <==> euid == 0,
        r matches Err(e) ==> e.kind == ErrorKind::PermissionDenied && e.message@
            == "must be run as root"@,
{
    if euid == 0 {
        Ok(())
    } else {
        Err(Error::new(ErrorKind::PermissionDenied, "must be run as root"))
    }
}

/// The directory whose atomic creation is the single-writer lock.
pub fn lock_path() -> (r: &'static str)
    ensures
        r@ == "/tmp/pop-core-change"@,
{
    "/tmp/pop-core-change"
}

/// The single-writer lock: refuses to proceed when the lock directory
/// already exists.
pub fn acquire_lock(exists: bool) -> (r: Result<(), Error>)
    ensures
        r is Ok <==> !exists,
        r matches Err(e) ==> e.kind == ErrorKind::AlreadyExists && e.message@
            == "/tmp/pop-core-change already exists, is pop-core already running?"@,
{
    if exists {
        Err(
            Error::new(
                ErrorKind::AlreadyExists,
                "/tmp/pop-core-change already exists, is pop-core already running?",
            ),
        )
    } else {
        Ok(())
    }
}

/// One atomic acquisition of the lock, over a model of the lock
/// directory's existence: exactly the caller that found the lock free
/// proceeds, and the lock is held afterwards either way.
pub fn try_lock(held: &mut bool) -> (r: Result<(), Error>)
    ensures
        r is Ok <==> !*old(held),
        *final(held),
        r matches Err(e) ==> e.kind == ErrorKind::AlreadyExists,
{
    let r = acquire_lock(*held);
    *held = true;
    r
}

/// The state of the lock after one acquisition attempt: the attempt is
/// granted exactly when the lock was free, and leaves it held.
pub open spec fn spec_try_lock(held: bool) -> (bool, bool) {
    (!held, true)
}

/// Single-writer: of two acquisitions of the lock, in whichever order the
/// host serializes them, only the first is granted; the second finds the
/// lock already held and is turned away.
pub proof fn lemma_single_writer(held: bool)
    ensures
        !held ==> spec_try_lock(held).0,
        !spec_try_lock(spec_try_lock(held).1).0,
{
}

/// The device path the run mounts: the booted filesystem by UUID.
pub fn by_uuid_device(uuid: &str) -> (r: String)
    ensures
        r@ == "/dev/disk/by-uuid/"@ + uuid@,
{
    crate::text::str_concat("/dev/disk/by-uuid/", uuid)
}

} // verus!
