//! Model of the Btrfs top level and a full run of the swap against it.
//!
//! `TopLevel` stands for the mounted top-level subvolume: which of
//! `@root`, `@root.new` and `@root.old` exist and their rootids, the
//! booted rootid, and where the default subvolume points.  Its operations
//! have the semantics of the external commands: a delete, snapshot or
//! rename can also fail by the tool's own exit status, whatever the state.
//!
//! `run_swap` drives the [`crate::swap::SwapMachine`] over this model from
//! any well-formed starting state through any sequence of command
//! outcomes, and its contract carries the safety of the rotation: the
//! booted subvolume is never deleted, a failure never leaves the booted
//! rootid at `@root.new` unless it started there, and success leaves the
//! old root saved at `@root.old` with the fresh clone published at
//! `@root`.

use vstd::prelude::*;

use crate::error::{Error, ErrorKind};
use crate::swap::{Action, Event, Phase, Step, Subvol, SwapMachine};

verus! {

/// The rotation-relevant state of the mounted top level.
#[derive(Clone, Copy, Debug, PartialEq, Eq, Structural)]
pub struct TopLevel {
    /// The rootid of `@root`, if it exists.
    pub root: Option<u64>,
    /// The rootid of `@root.new`, if it exists.
    pub root_new: Option<u64>,
    /// The rootid of `@root.old`, if it exists.
    pub root_old: Option<u64>,
    /// The rootid of `/`: the booted root.
    pub booted: u64,
    /// Whether the default subvolume is the top level (neutral) rather
    /// than `@root`.
    pub default_is_top: bool,
    /// The next rootid the filesystem will assign.
    pub next_id: u64,
}

impl TopLevel {
    /// The occupant of the named location.
    pub open spec fn slot(self, s: Subvol) -> Option<u64> {
        match s {
            Subvol::Root => self.root,
            Subvol::RootNew => self.root_new,
            Subvol::RootOld => self.root_old,
        }
    }

    /// The named location holds the booted rootid.
    pub open spec fn holds_booted(self, s: Subvol) -> bool {
        self.slot(s) == Some(self.booted)
    }

    /// How many of the three locations hold the booted rootid.
    pub open spec fn booted_count(self) -> int {
        (if self.holds_booted(Subvol::Root) {
            1int
        } else {
            0int
        }) + (if self.holds_booted(Subvol::RootNew) {
            1int
        } else {
            0int
        }) + (if self.holds_booted(Subvol::RootOld) {
            1int
        } else {
            0int
        })
    }

    /// Well-formedness: rootids are unique, and every id the filesystem
    /// has assigned is below the next one.
    pub open spec fn wf(self) -> bool {
        &&& self.booted < self.next_id
        &&& (self.root matches Some(i) ==> i < self.next_id)
        &&& (self.root_new matches Some(i) ==> i < self.next_id)
        &&& (self.root_old matches Some(i) ==> i < self.next_id)
        &&& (self.root is Some ==> self.root != self.root_new && self.root != self.root_old)
        &&& (self.root_new is Some ==> self.root_new != self.root_old)
    }

    /// The state with the named location replaced.
    pub open spec fn with_slot(self, s: Subvol, v: Option<u64>) -> TopLevel {
        match s {
            Subvol::Root => TopLevel { root: v, ..self },
            Subvol::RootNew => TopLevel { root_new: v, ..self },
            Subvol::RootOld => TopLevel { root_old: v, ..self },
        }
    }

    /// Whether the named subvolume exists.
    pub fn is_present(&self, s: Subvol) -> (r: bool)
        ensures
            r == (self.slot(s) is Some),
    {
        match s {
            Subvol::Root => self.root.is_some(),
            Subvol::RootNew => self.root_new.is_some(),
            Subvol::RootOld => self.root_old.is_some(),
        }
    }

    /// The named subvolume's rootid, if it exists.
    pub fn id_of(&self, s: Subvol) -> (r: Option<u64>)
        ensures
            r == self.slot(s),
    {
        match s {
            Subvol::Root => self.root,
            Subvol::RootNew => self.root_new,
            Subvol::RootOld => self.root_old,
        }
    }

    /// `btrfs subvolume delete`: succeeds when the tool does and the
    /// subvolume exists; on success the location is emptied.
    pub fn delete(&mut self, s: Subvol, ok: bool) -> (succ: bool)
        ensures
            succ == (ok && old(self).slot(s) is Some),
            succ ==> *final(self) == old(self).with_slot(s, None),
            !succ ==> *final(self) == *old(self),
    {
        if ok && self.is_present(s) {
            match s {
                Subvol::Root => {
                    self.root = None;
                },
                Subvol::RootNew => {
                    self.root_new = None;
                },
                Subvol::RootOld => {
                    self.root_old = None;
                },
            }
            true
        } else {
            false
        }
    }

    /// Writable `btrfs subvolume snapshot` of `@root` at `@root.new`:
    /// succeeds when the tool does, the source exists and the destination
    /// is free; the clone gets the next fresh rootid.
    pub fn snapshot_new(&mut self, ok: bool) -> (succ: bool)
        ensures
            succ == (ok && old(self).root is Some && old(self).root_new is None && old(
                self,
            ).next_id < u64::MAX),
            succ ==> *final(self) == (TopLevel {
                root_new: Some(old(self).next_id),
                next_id: (old(self).next_id + 1) as u64,
                ..*old(self)
            }),
            !succ ==> *final(self) == *old(self),
    {
        if ok && self.root.is_some() && self.root_new.is_none() && self.next_id < u64::MAX {
            self.root_new = Some(self.next_id);
            self.next_id = self.next_id + 1;
            true
        } else {
            false
        }
    }

    /// A rename between two of the locations: succeeds when the source
    /// exists and the destination is free.
    pub fn rename(&mut self, from: Subvol, to: Subvol, ok: bool) -> (succ: bool)
        ensures
            succ == (ok && old(self).slot(from) is Some && old(self).slot(to) is None),
            succ ==> *final(self) == old(self).with_slot(from, None).with_slot(
                to,
                old(self).slot(from),
            ),
            !succ ==> *final(self) == *old(self),
    {
        if ok && self.is_present(from) && !self.is_present(to) {
            let v = self.id_of(from);
            match from {
                Subvol::Root => {
                    self.root = None;
                },
                Subvol::RootNew => {
                    self.root_new = None;
                },
                Subvol::RootOld => {
                    self.root_old = None;
                },
            }
            match to {
                Subvol::Root => {
                    self.root = v;
                },
                Subvol::RootNew => {
                    self.root_new = v;
                },
                Subvol::RootOld => {
                    self.root_old = v;
                },
            }
            true
        } else {
            false
        }
    }

    /// `btrfs subvolume set-default /`: neutralizes the default.
    pub fn set_default_top(&mut self, ok: bool) -> (succ: bool)
        ensures
            succ == ok,
            succ ==> *final(self) == (TopLevel { default_is_top: true, ..*old(self) }),
            !succ ==> *final(self) == *old(self),
    {
        if ok {
            self.default_is_top = true;
            true
        } else {
            false
        }
    }

    /// `btrfs subvolume set-default` on `@root`: succeeds when the tool
    /// does and `@root` exists.
    pub fn set_default_root(&mut self, ok: bool) -> (succ: bool)
        ensures
            succ == (ok && old(self).root is Some),
            succ ==> *final(self) == (TopLevel { default_is_top: false, ..*old(self) }),
            !succ ==> *final(self) == *old(self),
    {
        if ok && self.root.is_some() {
            self.default_is_top = false;
            true
        } else {
            false
        }
    }
}

/// The next command outcome: entries of `outcomes` in order, then
/// successes once they run out.
fn next_outcome(outcomes: &Vec<bool>, cursor: &mut usize) -> (r: bool)
    ensures
        *final(cursor) == if *old(cursor) < outcomes@.len() {
            *old(cursor) + 1
        } else {
            *old(cursor) as int
        },
        outcomes@.len() == 0 ==> r,
{
    if *cursor < outcomes.len() {
        let r = outcomes[*cursor];
        *cursor = *cursor + 1;
        r
    } else {
        true
    }
}

/// The state after the leftover `@root.new` has been cleaned away, before
/// the snapshot.
pub open spec fn cleaned(cur: TopLevel, init: TopLevel) -> bool {
    &&& cur.root == init.root
    &&& cur.root_old == init.root_old
    &&& cur.root_new is None
    &&& cur.booted == init.booted
    &&& cur.default_is_top == init.default_is_top
    &&& cur.next_id == init.next_id
}

/// The state once the writable clone exists at `@root.new`, before the
/// rotation starts.
pub open spec fn cloned(cur: TopLevel, init: TopLevel) -> bool {
    &&& cur.root == init.root
    &&& cur.root_old == init.root_old
    &&& cur.root_new == Some(init.next_id)
    &&& cur.booted == init.booted
    &&& cur.default_is_top == init.default_is_top
    &&& cur.next_id == init.next_id + 1
}

/// As `cloned`, with the default neutralized to the top level.
pub open spec fn neutral(cur: TopLevel, init: TopLevel) -> bool {
    &&& cur.root == init.root
    &&& cur.root_old == init.root_old
    &&& cur.root_new == Some(init.next_id)
    &&& cur.booted == init.booted
    &&& cur.default_is_top
    &&& cur.next_id == init.next_id + 1
}

/// Mid-rotation: `@root.old` has been cleared, `@root` not yet moved.
pub open spec fn old_cleared(cur: TopLevel, init: TopLevel) -> bool {
    &&& cur.root == init.root
    &&& cur.root_old is None
    &&& cur.root_new == Some(init.next_id)
    &&& cur.booted == init.booted
    &&& cur.default_is_top
    &&& cur.next_id == init.next_id + 1
}

/// Mid-rotation: the booted root is saved at `@root.old`.
pub open spec fn old_saved(cur: TopLevel, init: TopLevel) -> bool {
    &&& cur.root_old == Some(init.booted)
    &&& cur.root_new == Some(init.next_id)
    &&& cur.booted == init.booted
    &&& cur.default_is_top
    &&& cur.next_id == init.next_id + 1
}

/// Mid-rotation: the clone renamed into place at `@root`, the default
/// still neutral.
pub open spec fn placed(cur: TopLevel, init: TopLevel) -> bool {
    &&& cur.root == Some(init.next_id)
    &&& cur.root_old == Some(init.booted)
    &&& cur.root_new is None
    &&& cur.booted == init.booted
    &&& cur.default_is_top
    &&& cur.next_id == init.next_id + 1
}

/// The finished state: the clone published at `@root`, the booted root
/// saved at `@root.old`, the default restored.
pub open spec fn finished(cur: TopLevel, init: TopLevel) -> bool {
    &&& cur.root == Some(init.next_id)
    &&& cur.root_old == Some(init.booted)
    &&& cur.root_new is None
    &&& cur.booted == init.booted
    &&& !cur.default_is_top
    &&& cur.next_id == init.next_id + 1
}

/// What holds of the model, per phase, while the driver waits to perform
/// the given action.
pub open spec fn phase_inv(phase: Phase, a: Action, cur: TopLevel, init: TopLevel) -> bool {
    match phase {
        Phase::AwaitNewExists => cur == init && a == Action::CheckExists(Subvol::RootNew),
        Phase::AwaitNewId => cur == init && cur.root_new is Some && a == Action::QueryId(
            Subvol::RootNew,
        ),
        Phase::AwaitNewDelete => cur == init && cur.root_new is Some && !cur.holds_booted(
            Subvol::RootNew,
        ) && a == Action::Delete(Subvol::RootNew),
        Phase::AwaitSnapshot => cleaned(cur, init) && a == Action::Snapshot,
        Phase::AwaitExecute => cloned(cur, init) && a == Action::Execute,
        Phase::AwaitSeal => cloned(cur, init) && a == Action::SetReadOnly,
        Phase::AwaitDefaultTop => cloned(cur, init) && a == Action::SetDefaultTop,
        Phase::AwaitOldExists => neutral(cur, init) && a == Action::CheckExists(Subvol::RootOld),
        Phase::AwaitOldId => neutral(cur, init) && cur.root_old is Some && a == Action::QueryId(
            Subvol::RootOld,
        ),
        Phase::AwaitOldDelete => neutral(cur, init) && cur.root_old is Some && !cur.holds_booted(
            Subvol::RootOld,
        ) && a == Action::Delete(Subvol::RootOld),
        Phase::AwaitOldGone => old_cleared(cur, init) && a == Action::CheckExists(Subvol::RootOld),
        Phase::AwaitRootIdForSave => old_cleared(cur, init) && a == Action::QueryId(Subvol::Root),
        Phase::AwaitSaveRename => old_cleared(cur, init) && cur.root == Some(cur.booted) && a
            == Action::Rename(Subvol::Root, Subvol::RootOld),
        Phase::AwaitRootExists => old_saved(cur, init) && a == Action::CheckExists(Subvol::Root),
        Phase::AwaitRootIdForDelete => old_saved(cur, init) && cur.root is Some && a
            == Action::QueryId(Subvol::Root),
        Phase::AwaitRootDelete => old_saved(cur, init) && cur.root is Some && !cur.holds_booted(
            Subvol::Root,
        ) && a == Action::Delete(Subvol::Root),
        Phase::AwaitPlaceRename => old_saved(cur, init) && cur.root is None && a == Action::Rename(
            Subvol::RootNew,
            Subvol::Root,
        ),
        Phase::AwaitDefaultRoot => placed(cur, init) && a == Action::SetDefaultRoot,
        _ => false,
    }
}

/// What holds when the machine has failed with this error.
pub open spec fn fail_inv(e: Error, cur: TopLevel, init: TopLevel) -> bool {
    &&& e.kind == ErrorKind::AlreadyExists || e.kind == ErrorKind::NotFound || e.kind
        == ErrorKind::Other
    &&& (e.kind == ErrorKind::AlreadyExists ==> init.holds_booted(Subvol::RootNew) && cur == init)
    &&& (e.kind == ErrorKind::NotFound ==> init.booted_count() == 0)
}

/// Rank of a phase, strictly decreasing along every transition.
pub open spec fn phase_rank(phase: Phase) -> nat {
    match phase {
        Phase::Start => 20,
        Phase::AwaitNewExists => 19,
        Phase::AwaitNewId => 18,
        Phase::AwaitNewDelete => 17,
        Phase::AwaitSnapshot => 16,
        Phase::AwaitExecute => 15,
        Phase::AwaitSeal => 14,
        Phase::AwaitDefaultTop => 13,
        Phase::AwaitOldExists => 12,
        Phase::AwaitOldId => 11,
        Phase::AwaitOldDelete => 10,
        Phase::AwaitOldGone => 9,
        Phase::AwaitRootIdForSave => 8,
        Phase::AwaitSaveRename => 7,
        Phase::AwaitRootExists => 6,
        Phase::AwaitRootIdForDelete => 5,
        Phase::AwaitRootDelete => 4,
        Phase::AwaitPlaceRename => 3,
        Phase::AwaitDefaultRoot => 2,
        Phase::Finished => 0,
        Phase::Failed => 0,
    }
}

/// One full run of the atomic root swap over the model, from any
/// well-formed starting state, with the given external-command outcomes
/// (missing entries succeed).
///
/// Whatever the outcomes and the starting state: the booted subvolume is
/// never deleted nor duplicated, and no failure moves the booted rootid
/// to `@root.new`.  On success the previous root is saved read-only at
/// `@root.old`, the fresh clone is published at `@root` and is the
/// default subvolume again.  A leftover `@root.new` holding the booted
/// rootid is refused outright, with nothing modified.
pub fn run_swap(top: &mut TopLevel, outcomes: &Vec<bool>) -> (r: Result<(), Error>)
    requires
        old(top).wf(),
    ensures
        final(top).wf(),
        final(top).booted == old(top).booted,
        final(top).booted_count() == old(top).booted_count(),
        final(top).holds_booted(Subvol::RootNew) ==> old(top).holds_booted(Subvol::RootNew),
        r is Ok ==> finished(*final(top), *old(top)) && old(top).booted_count() == 1,
        r matches Err(e) ==> fail_inv(e, *final(top), *old(top)),
        old(top).holds_booted(Subvol::RootNew) ==> (r is Err && *final(top) == *old(top)),
        r is Ok ==> final(top).holds_booted(Subvol::RootOld),
        r is Err && old(top).booted_count() == 1 && !old(top).holds_booted(Subvol::RootNew) ==> (
        final(top).holds_booted(Subvol::Root) || final(top).holds_booted(Subvol::RootOld)),
        outcomes@.len() == 0 && old(top).booted_count() == 1 && !old(top).holds_booted(
            Subvol::RootNew,
        ) && old(top).root is Some && old(top).next_id < u64::MAX ==> r is Ok,
{
    let ghost init = *old(top);
    let mut m = SwapMachine::new(top.booted);
    let mut cursor: usize = 0;
    let mut step = m.next(Event::Begin);
    loop
        invariant
            init == *old(top),
            m.booted == init.booted,
            top.booted == init.booted,
            top.wf(),
            init.wf(),
            top.booted_count() == init.booted_count(),
            top.holds_booted(Subvol::RootNew) ==> init.holds_booted(Subvol::RootNew),
            (step matches Step::Do(a) ==> phase_inv(m.phase, a, *top, init)),
            (step is Done ==> finished(*top, init)),
            (step matches Step::Fail(e) ==> fail_inv(e, *top, init)),
            (init.holds_booted(Subvol::RootNew) ==> ((step is Fail && *top == init) || (
            step matches Step::Do(a) && (m.phase == Phase::AwaitNewExists || m.phase
                == Phase::AwaitNewId)))),
            (outcomes@.len() == 0 && init.booted_count() == 1 && !init.holds_booted(
                Subvol::RootNew,
            ) && init.root is Some && init.next_id < u64::MAX ==> !(step is Fail)),
        decreases phase_rank(m.phase),
    {
        match step {
            Step::Done => {
                proof {
                    assert(top.holds_booted(Subvol::RootOld));
                    assert(top.booted_count() == 1);
                }
                return Ok(());
            },
            Step::Fail(e) => {
                return Err(e);
            },
            Step::Do(a) => {
                let ev: Event = match a {
                    Action::CheckExists(s) => Event::Exists(top.is_present(s)),
                    Action::QueryId(s) => {
                        let ok = next_outcome(outcomes, &mut cursor);
                        match top.id_of(s) {
                            Some(id) if ok => Event::Id(id),
                            _ => Event::IdFailed(
                                Error::new(ErrorKind::Other, "btrfs exited with 1"),
                            ),
                        }
                    },
                    Action::Delete(s) => {
                        let ok = next_outcome(outcomes, &mut cursor);
                        let succ = top.delete(s, ok);
                        Event::Status(if succ {
                            Some(0)
                        } else {
                            Some(1)
                        })
                    },
                    Action::Snapshot => {
                        let ok = next_outcome(outcomes, &mut cursor);
                        let succ = top.snapshot_new(ok);
                        Event::Status(if succ {
                            Some(0)
                        } else {
                            Some(1)
                        })
                    },
                    Action::Execute => {
                        let ok = next_outcome(outcomes, &mut cursor);
                        Event::Status(if ok {
                            Some(0)
                        } else {
                            Some(1)
                        })
                    },
                    Action::SetReadOnly => {
                        let ok = next_outcome(outcomes, &mut cursor);
                        Event::Status(if ok {
                            Some(0)
                        } else {
                            Some(1)
                        })
                    },
                    Action::SetDefaultTop => {
                        let ok = next_outcome(outcomes, &mut cursor);
                        let succ = top.set_default_top(ok);
                        Event::Status(if succ {
                            Some(0)
                        } else {
                            Some(1)
                        })
                    },
                    Action::Rename(from, to) => {
                        let ok = next_outcome(outcomes, &mut cursor);
                        let succ = top.rename(from, to, ok);
                        if succ {
                            Event::Renamed
                        } else {
                            Event::RenameFailed(Error::new(ErrorKind::Other, "rename failed"))
                        }
                    },
                    Action::SetDefaultRoot => {
                        let ok = next_outcome(outcomes, &mut cursor);
                        let succ = top.set_default_root(ok);
                        Event::Status(if succ {
                            Some(0)
                        } else {
                            Some(1)
                        })
                    },
                };
                step = m.next(ev);
            },
        }
    }
}

} // verus!
