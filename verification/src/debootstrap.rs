//! Builder for a `debootstrap` invocation.
//!
//! Builds up the suite, target, mirror, architecture, package add and
//! exclude lists and the variant, and materializes the exact command line.
//! Spawning the command is left to the caller; a nonzero exit is checked
//! with `status::check_status`.

use vstd::prelude::*;

use crate::text::str_concat;

verus! {

/// Comma-joined list, as used by the package-list flags.
pub open spec fn join_commas(items: Seq<Seq<char>>) -> Seq<char>
    decreases items.len(),
{
    if items.len() == 0 {
        Seq::empty()
    } else if items.len() == 1 {
        items[0]
    } else {
        join_commas(items.drop_last()) + seq![','] + items.last()
    }
}

/// The flag that names the packages added on top of the base set.
pub open spec fn add_flag() -> Seq<char> {
    "--inc"@ + "lude="@
}

/// The flag that names the packages kept out of the base set.
pub open spec fn exclude_flag() -> Seq<char> {
    "--exclude="@
}

/// A `debootstrap` command under construction.
#[derive(Debug)]
pub struct Debootstrap {
    pub suite: String,
    pub target: String,
    pub mirror: String,
    pub arch: String,
    pub add: Vec<String>,
    pub exclude: Vec<String>,
    pub variant: Option<String>,
}

impl Debootstrap {
    /// The full argument vector this builder materializes, program name
    /// first.
    pub open spec fn spec_command(self) -> Seq<Seq<char>> {
        seq!["debootstrap"@] + (if self.add@.len() > 0 {
            seq![add_flag() + join_commas(self.add.deep_view())]
        } else {
            Seq::empty()
        }) + (if self.exclude@.len() > 0 {
            seq![exclude_flag() + join_commas(self.exclude.deep_view())]
        } else {
            Seq::empty()
        }) + (match self.variant {
            Some(v) => seq!["--variant="@ + v@],
            None => Seq::empty(),
        }) + seq!["--arch="@ + self.arch@] + seq![self.suite@, self.target@, self.mirror@]
    }

    /// A builder for the given target directory, with the default suite,
    /// architecture and mirror and no extra packages.
    pub fn new(target: &str) -> (r: Debootstrap)
        ensures
            r.suite@ == "jammy"@,
            r.target@ == target@,
            r.arch@ == "amd64"@,
            r.mirror@ == "https://apt.pop-os.org/ubuntu"@,
            r.add@.len() == 0,
            r.exclude@.len() == 0,
            r.variant is None,
    {
        Debootstrap {
            suite: "jammy".to_owned(),
            target: target.to_owned(),
            arch: "amd64".to_owned(),
            mirror: "https://apt.pop-os.org/ubuntu".to_owned(),
            add: Vec::new(),
            exclude: Vec::new(),
            variant: None,
        }
    }

    /// Adds a package to the added-packages list.
    pub fn add_package(self, package: &str) -> (r: Debootstrap)
        ensures
            r.add.deep_view() == self.add.deep_view().push(package@),
            r.suite == self.suite,
            r.target == self.target,
            r.mirror == self.mirror,
            r.arch == self.arch,
            r.exclude == self.exclude,
            r.variant == self.variant,
    {
        let mut s = self;
        s.add.push(package.to_owned());
        assert(s.add.deep_view() =~~= self.add.deep_view().push(package@));
        s
    }

    /// Adds a package to the excluded-packages list.
    pub fn exclude_package(self, package: &str) -> (r: Debootstrap)
        ensures
            r.exclude.deep_view() == self.exclude.deep_view().push(package@),
            r.suite == self.suite,
            r.target == self.target,
            r.mirror == self.mirror,
            r.arch == self.arch,
            r.add == self.add,
            r.variant == self.variant,
    {
        let mut s = self;
        s.exclude.push(package.to_owned());
        assert(s.exclude.deep_view() =~~= self.exclude.deep_view().push(package@));
        s
    }

    /// Sets the `--variant=` option.
    pub fn variant(self, variant: &str) -> (r: Debootstrap)
        ensures
            r.variant matches Some(v) && v@ == variant@,
            r.suite == self.suite,
            r.target == self.target,
            r.mirror == self.mirror,
            r.arch == self.arch,
            r.add == self.add,
            r.exclude == self.exclude,
    {
        let mut s = self;
        s.variant = Some(variant.to_owned());
        s
    }

    /// Materializes the command line, program name first.
    pub fn command(&self) -> (r: Vec<String>)
        ensures
            r.deep_view() == self.spec_command(),
    {
        let mut out: Vec<String> = Vec::new();
        out.push("debootstrap".to_owned());
        if self.add.len() > 0 {
            let flag = str_concat("--inc", "lude=");
            out.push(flag.concat(join_with_commas(&self.add).as_str()));
        }
        if self.exclude.len() > 0 {
            out.push(str_concat("--exclude=", join_with_commas(&self.exclude).as_str()));
        }
        match &self.variant {
            Some(v) => {
                out.push(str_concat("--variant=", v.as_str()));
            },
            None => {},
        }
        out.push(str_concat("--arch=", self.arch.as_str()));
        out.push(self.suite.clone());
        out.push(self.target.clone());
        out.push(self.mirror.clone());
        assert(out.deep_view() =~~= self.spec_command());
        out
    }
}

/// Joins the items with commas.
fn join_with_commas(items: &Vec<String>) -> (r: String)
    ensures
        r@ == join_commas(items.deep_view()),
{
    let mut r = String::new();
    let mut i: usize = 0;
    while i < items.len()
        invariant
            0 <= i <= items@.len(),
            r@ == join_commas(items.deep_view().subrange(0, i as int)),
        decreases items@.len() - i,
    {
        proof {
            reveal_strlit(",");
        }
        if i > 0 {
            r.append(",");
        }
        let item: &String = &items[i];
        r.append(item.as_str());
        proof {
            let full = items.deep_view().subrange(0, i + 1);
            assert(full.drop_last() =~= items.deep_view().subrange(0, i as int));
            assert(full.last() == items.deep_view()[i as int]);
            if i > 0 {
                assert(","@ =~= seq![',']);
                assert(r@ == join_commas(full.drop_last()) + seq![','] + full.last());
            } else {
                assert(r@ == full.last());
            }
        }
        i = i + 1;
    }
    proof {
        assert(items.deep_view().subrange(0, items@.len() as int) =~= items.deep_view());
    }
    r
}

} // verus!
