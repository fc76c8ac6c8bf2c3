//! Scoped loopback-device handle.
//!
//! A handle owns the canonical backing-file path, the device path the
//! kernel chose, and an attached flag.  Attaching (`losetup --partscan
//! --show --find`) and detaching (`losetup --detach`) are performed by the
//! caller; the handle's flag transitions here guarantee that a detach is
//! issued exactly once per attachment: the explicit detach and the
//! scope-exit guard both consult `needs_detach`, and only a successful
//! detach flips the flag.

use vstd::prelude::*;

use crate::error::{Error, ErrorKind};
use crate::text::dec_digits;

verus! {

/// A loopback device bound to a backing file.
#[derive(Debug)]
pub struct Loopback {
    pub file: String,
    pub device: String,
    pub attached: bool,
}

/// The handle after a successful detach: only the flag changes.
pub open spec fn spec_detached(l: Loopback) -> Loopback {
    Loopback { attached: false, ..l }
}

impl Loopback {
    /// A handle for a device just attached: `file` is the canonical
    /// backing-file path and `device` the path `losetup` reported.
    pub fn new(file: String, device: String) -> (r: Loopback)
        ensures
            r.file@ == file@,
            r.device@ == device@,
            r.attached,
    {
        Loopback { file, device, attached: true }
    }

    /// The canonical path of the backing file.
    pub fn file(&self) -> (r: &str)
        ensures
            r@ == self.file@,
    {
        self.file.as_str()
    }

    /// The path of the loop device.
    pub fn device(&self) -> (r: &str)
        ensures
            r@ == self.device@,
    {
        self.device.as_str()
    }

    /// Whether the device is still attached.
    pub fn attached(&self) -> (r: bool)
        ensures
            r == self.attached,
    {
        self.attached
    }

    /// The device path of the numbered partition, `<device>p<n>`.
    pub fn partition(&self, n: u64) -> (r: String)
        ensures
            r@ == self.device@ + seq!['p'] + dec_digits(n as nat),
    {
        proof {
            reveal_strlit("p");
            assert("p"@ =~= seq!['p']);
        }
        let r = self.device.clone().concat("p").concat(crate::text::u64_to_dec(n).as_str());
        assert(r@ =~= self.device@ + seq!['p'] + dec_digits(n as nat));
        r
    }

    /// Whether a detach must be issued: true exactly while attached, so a
    /// second check after a detach reports that nothing is to be done.
    pub fn needs_detach(&self) -> (r: bool)
        ensures
            r == self.attached,
    {
        self.attached
    }

    /// Records a successful detach; the paths are kept.
    pub fn set_detached(&mut self)
        ensures
            *final(self) == spec_detached(*old(self)),
    {
        self.attached = false;
    }

    /// Entry check of the scoped-use combinator: usable only while attached.
    pub fn check_attached(&self) -> (r: Result<(), Error>)
        ensures
            r is Ok <==> self.attached,
            r matches Err(e) ==> e.kind == ErrorKind::Other && e.message@
                == "loopback device not attached"@,
    {
        if self.attached {
            Ok(())
        } else {
            Err(Error::new(ErrorKind::Other, "loopback device not attached"))
        }
    }
}

/// A detach is issued only while the handle is attached, and a successful
/// detach leaves a handle on which no further detach is issued: an explicit
/// detach followed by the scope-exit guard, or the guard alone, issues
/// exactly one call per attachment.
pub proof fn lemma_detach_exactly_once(l: Loopback)
    requires
        l.attached,
    ensures
        !spec_detached(l).attached,
        spec_detached(spec_detached(l)) == spec_detached(l),
{
}

} // verus!
