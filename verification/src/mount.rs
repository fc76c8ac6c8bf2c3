//! Scoped mount handle and an ordered collection of mounts.
//!
//! A `Mount` owns the source device, the destination path and a mounted
//! flag.  The `mount(2)` and `umount2(2)` syscalls are performed by the
//! caller; the flag transitions here guarantee that an unmount is issued
//! exactly once per mount, whether explicitly or by the scope-exit guard.
//! Scope-exit unmounts use the lazy flag; explicit unmounts may not.

use vstd::prelude::*;

use crate::error::{Error, ErrorKind};

verus! {

/// A device mounted at a destination path.
#[derive(Debug)]
pub struct Mount {
    pub source: String,
    pub dest: String,
    pub mounted: bool,
}

/// The handle after a successful unmount: only the flag changes.
pub open spec fn spec_unmounted(m: Mount) -> Mount {
    Mount { mounted: false, ..m }
}

impl Mount {
    /// A handle for a mount just established at `dest`.
    pub fn new(source: String, dest: String) -> (r: Mount)
        ensures
            r.source@ == source@,
            r.dest@ == dest@,
            r.mounted,
    {
        Mount { source, dest, mounted: true }
    }

    /// The destination path.
    pub fn dest(&self) -> (r: &str)
        ensures
            r@ == self.dest@,
    {
        self.dest.as_str()
    }

    /// Whether the mount is still in place.
    pub fn mounted(&self) -> (r: bool)
        ensures
            r == self.mounted,
    {
        self.mounted
    }

    /// Whether an unmount must be issued: true exactly while mounted, so a
    /// second check after an unmount reports that nothing is to be done.
    pub fn needs_unmount(&self) -> (r: bool)
        ensures
            r == self.mounted,
    {
        self.mounted
    }

    /// Records a successful unmount; the paths are kept.
    pub fn set_unmounted(&mut self)
        ensures
            *final(self) == spec_unmounted(*old(self)),
    {
        self.mounted = false;
    }

    /// Entry check of the scoped-use combinator: usable only while mounted.
    pub fn check_mounted(&self) -> (r: Result<(), Error>)
        ensures
            r is Ok <==> self.mounted,
            r matches Err(e) ==> e.kind == ErrorKind::Other && e.message@
                == "mount point not mounted"@,
    {
        if self.mounted {
            Ok(())
        } else {
            Err(Error::new(ErrorKind::Other, "mount point not mounted"))
        }
    }
}

/// An unmount is issued only while the handle is mounted, and a successful
/// unmount leaves a handle on which no further unmount is issued: an
/// explicit unmount followed by the scope-exit guard, or the guard alone,
/// issues exactly one call per mount.
pub proof fn lemma_unmount_exactly_once(m: Mount)
    requires
        m.mounted,
    ensures
        !spec_unmounted(m).mounted,
        spec_unmounted(spec_unmounted(m)) == spec_unmounted(m),
{
}

/// An ordered collection of mounts, unmounted in reverse insertion order.
#[derive(Debug)]
pub struct Mounts(pub Vec<Mount>);

impl Mounts {
    /// The positions of the contained mounts in the order in which they
    /// are to be unmounted: reverse insertion order.
    pub fn unmount_order(&self) -> (r: Vec<usize>)
        ensures
            r@.len() == self.0@.len(),
            forall|k: int|
                0 <= k < r@.len() ==> r@[k] as int == self.0@.len() - 1 - k,
    {
        let n = self.0.len();
        let mut order: Vec<usize> = Vec::new();
        let mut i: usize = n;
        while i > 0
            invariant
                0 <= i <= n,
                order@.len() == n - i,
                forall|k: int| 0 <= k < order@.len() ==> order@[k] as int == n - 1 - k,
            decreases i,
        {
            i = i - 1;
            order.push(i);
        }
        order
    }
}

} // verus!
