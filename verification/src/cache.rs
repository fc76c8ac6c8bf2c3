//! Name-addressed cache of filesystem layers under a build directory.
//!
//! A layer is a directory `root/<name>`; a sibling `root/<name>.partial`
//! marks a build in progress or crashed mid-build.  Initialization removes
//! every entry whose name is not accepted or that is such a partial;
//! `build` either reuses a present layer or rebuilds it, publishing the
//! partial directory to its final name by one atomic rename.
//!
//! The directory itself is only modelled here: `DirModel` holds the entry
//! names, and `purge` and `build` carry the full decision logic over it.
//! The caller performs the same removals, builder invocation and rename on
//! the real directory, entry for entry.

use vstd::prelude::*;

use crate::error::{Error, ErrorKind};
use crate::text::{path_join, str_concat};

verus! {

broadcast use vstd::seq_lib::group_seq_properties;

/// The prefix one longer extends the prefix by the next element.
proof fn lemma_subrange_succ(s: Seq<Seq<char>>, i: int)
    requires
        0 <= i < s.len(),
    ensures
        s.subrange(0, i + 1) == s.subrange(0, i).push(s[i]),
{
    assert(s.subrange(0, i + 1) =~= s.subrange(0, i).push(s[i]));
}

/// Whether a name marks a partial (in-progress) layer directory.
pub open spec fn ends_with_partial(name: Seq<char>) -> bool {
    name.len() >= 8 && name.subrange(name.len() - 8, name.len() as int) == ".partial"@
}

/// The name of the partial directory for a layer.
pub open spec fn partial_name_of(name: Seq<char>) -> Seq<char> {
    name + ".partial"@
}

/// Whether a build call rebuilds, given whether the final directory exists
/// and whether a predecessor layer was rebuilt this session.
pub open spec fn spec_rebuilds(final_exists: bool, parent_rebuilt: bool) -> bool {
    parent_rebuilt || !final_exists
}

/// Rebuilt cascade: a build whose predecessor was rebuilt this session
/// rebuilds unconditionally, whether or not its final directory exists; so
/// the first rebuild in a chain forces every later layer to rebuild.
pub proof fn lemma_rebuilt_cascade(final_exists: bool, parent_rebuilt: bool)
    ensures
        parent_rebuilt ==> spec_rebuilds(final_exists, parent_rebuilt),
{
}

/// Compares two string slices.
fn str_equal(a: &str, b: &str) -> (r: bool)
    ensures
        r == (a@ == b@),
{
    let oa = a.to_owned();
    let ob = b.to_owned();
    oa == ob
}

/// Whether the name ends in `.partial`.
pub fn name_is_partial(name: &str) -> (r: bool)
    ensures
        r == ends_with_partial(name@),
{
    proof {
        reveal_strlit(".partial");
    }
    let n = name.unicode_len();
    if n < 8 {
        false
    } else {
        str_equal(name.substring_char(n - 8, n), ".partial")
    }
}

/// The partial-directory name for a layer.
pub fn partial_name(name: &str) -> (r: String)
    ensures
        r@ == partial_name_of(name@),
{
    str_concat(name, ".partial")
}

/// A set of named layers under a root directory.
#[derive(Debug)]
pub struct Cache {
    pub root: String,
    pub valid: Vec<String>,
}

impl Cache {
    /// Whether a layer name is accepted as valid.
    pub open spec fn accepts(self, name: Seq<char>) -> bool {
        self.valid.deep_view().contains(name)
    }

    /// A cache rooted at `root` accepting exactly the given layer names.
    /// The caller is to purge the root directory right away, removing the
    /// entries `purge` names.
    pub fn new(root: &str, valid: Vec<String>) -> (r: Cache)
        ensures
            r.root@ == root@,
            r.valid == valid,
    {
        Cache { root: root.to_owned(), valid }
    }

    /// Whether the name is an accepted layer name.
    pub fn is_valid_name(&self, name: &str) -> (r: bool)
        ensures
            r == self.accepts(name@),
    {
        let mut i: usize = 0;
        while i < self.valid.len()
            invariant
                0 <= i <= self.valid@.len(),
                forall|k: int| 0 <= k < i ==> self.valid.deep_view()[k] != name@,
            decreases self.valid@.len() - i,
        {
            let v: &String = &self.valid[i];
            if str_equal(v.as_str(), name) {
                proof {
                    assert(self.valid.deep_view()[i as int] == name@);
                }
                return true;
            }
            i = i + 1;
        }
        false
    }

    /// Whether cache initialization removes a directory entry of this
    /// name: every name that is not valid, and every partial directory.
    pub fn should_remove(&self, name: &str) -> (r: bool)
        ensures
            r == (!self.accepts(name@) || ends_with_partial(name@)),
    {
        !self.is_valid_name(name) || name_is_partial(name)
    }

    /// The path of a published layer.
    pub fn final_path(&self, name: &str) -> (r: String)
        ensures
            r@ == self.root@ + seq!['/'] + name@,
    {
        path_join(self.root.as_str(), name)
    }

    /// The path of a layer's partial directory.
    pub fn partial_path(&self, name: &str) -> (r: String)
        ensures
            r@ == self.root@ + seq!['/'] + partial_name_of(name@),
    {
        path_join(self.root.as_str(), partial_name(name).as_str())
    }

    /// Whether a build call reuses the present layer instead of
    /// rebuilding.
    pub fn reuses(&self, parent_rebuilt: bool, final_exists: bool) -> (r: bool)
        ensures
            r == !spec_rebuilds(final_exists, parent_rebuilt),
    {
        final_exists && !parent_rebuilt
    }
}

/// In-memory model of the cache root directory: the names of its entries.
#[derive(Debug)]
pub struct DirModel {
    pub entries: Vec<String>,
}

impl DirModel {
    /// Whether an entry of the given name is present.
    pub open spec fn has_name(self, name: Seq<char>) -> bool {
        self.entries.deep_view().contains(name)
    }

    /// An empty directory.
    pub fn empty() -> (r: DirModel)
        ensures
            forall|n: Seq<char>| !r.has_name(n),
    {
        let r = DirModel { entries: Vec::new() };
        assert(forall|n: Seq<char>| !r.entries.deep_view().contains(n));
        r
    }

    /// A directory holding the given entry names.
    pub fn from_entries(entries: Vec<String>) -> (r: DirModel)
        ensures
            r.entries == entries,
    {
        DirModel { entries }
    }

    /// Whether an entry of the given name is present.
    pub fn has(&self, name: &str) -> (r: bool)
        ensures
            r == self.has_name(name@),
    {
        let mut i: usize = 0;
        while i < self.entries.len()
            invariant
                0 <= i <= self.entries@.len(),
                forall|k: int| 0 <= k < i ==> self.entries.deep_view()[k] != name@,
            decreases self.entries@.len() - i,
        {
            let e: &String = &self.entries[i];
            if str_equal(e.as_str(), name) {
                proof {
                    assert(self.entries.deep_view()[i as int] == name@);
                }
                return true;
            }
            i = i + 1;
        }
        false
    }

    /// Removes every entry of the given name.
    pub fn remove(&mut self, name: &str)
        ensures
            forall|n: Seq<char>|
                final(self).has_name(n) <==> old(self).has_name(n) && n != name@,
    {
        let mut kept: Vec<String> = Vec::new();
        let mut i: usize = 0;
        while i < self.entries.len()
            invariant
                0 <= i <= self.entries@.len(),
                forall|n: Seq<char>|
                    kept.deep_view().contains(n) <==> (self.entries.deep_view().subrange(
                        0,
                        i as int,
                    ).contains(n) && n != name@),
            decreases self.entries@.len() - i,
        {
            let e: &String = &self.entries[i];
            let keep_it = !str_equal(e.as_str(), name);
            proof {
                lemma_subrange_succ(self.entries.deep_view(), i as int);
            }
            if keep_it {
                let ghost pre_kept = kept.deep_view();
                kept.push(e.clone());
                proof {
                    assert(kept.deep_view() =~~= pre_kept.push(e@));
                }
            }
            i = i + 1;
        }
        proof {
            assert(self.entries.deep_view().subrange(0, self.entries@.len() as int)
                =~= self.entries.deep_view());
        }
        self.entries = kept;
    }

    /// Adds an entry of the given name if it is absent.
    pub fn add(&mut self, name: &str)
        ensures
            forall|n: Seq<char>|
                final(self).has_name(n) <==> old(self).has_name(n) || n == name@,
    {
        if !self.has(name) {
            let ghost pre = self.entries.deep_view();
            self.entries.push(name.to_owned());
            proof {
                assert(self.entries.deep_view() =~~= pre.push(name@));
            }
        }
    }

    /// Renames an entry: removes `from`, adds `to`.
    pub fn rename_entry(&mut self, from: &str, to: &str)
        ensures
            forall|n: Seq<char>|
                final(self).has_name(n) <==> (old(self).has_name(n) && n != from@) || n == to@,
    {
        self.remove(from);
        self.add(to);
    }
}

/// Cache initialization over the directory model: removes every entry
/// whose name is not accepted or is a partial directory.  After the purge,
/// every remaining entry is an accepted, published layer name, and the
/// removed entries are exactly the others.
pub fn purge(cache: &Cache, dir: &mut DirModel) -> (removed: Vec<String>)
    ensures
        forall|n: Seq<char>|
            final(dir).has_name(n) <==> (old(dir).has_name(n) && cache.accepts(n)
                && !ends_with_partial(n)),
        forall|n: Seq<char>|
            removed.deep_view().contains(n) <==> (old(dir).has_name(n) && (!cache.accepts(n)
                || ends_with_partial(n))),
{
    let mut kept: Vec<String> = Vec::new();
    let mut removed: Vec<String> = Vec::new();
    let mut i: usize = 0;
    while i < dir.entries.len()
        invariant
            0 <= i <= dir.entries@.len(),
            forall|n: Seq<char>|
                #![trigger kept.deep_view().contains(n)]
                kept.deep_view().contains(n) <==> (dir.entries.deep_view().subrange(
                    0,
                    i as int,
                ).contains(n) && cache.accepts(n) && !ends_with_partial(n)),
            forall|n: Seq<char>|
                #![trigger removed.deep_view().contains(n)]
                removed.deep_view().contains(n) <==> (dir.entries.deep_view().subrange(
                    0,
                    i as int,
                ).contains(n) && (!cache.accepts(n) || ends_with_partial(n))),
        decreases dir.entries@.len() - i,
    {
        let e: &String = &dir.entries[i];
        let drop_it = cache.should_remove(e.as_str());
        let ghost pre = dir.entries.deep_view().subrange(0, i as int);
        let ghost post = dir.entries.deep_view().subrange(0, i + 1);
        proof {
            lemma_subrange_succ(dir.entries.deep_view(), i as int);
            assert(e@ == dir.entries.deep_view()[i as int]);
            assert(post == pre.push(e@));
        }
        if drop_it {
            let ghost pre_removed = removed.deep_view();
            removed.push(e.clone());
            proof {
                assert(removed.deep_view() =~~= pre_removed.push(e@));
                assert forall|n: Seq<char>|
                    #[trigger] removed.deep_view().contains(n) <==> (post.contains(n) && (
                    !cache.accepts(n) || ends_with_partial(n))) by {
                    assert(removed.deep_view().contains(n) <==> pre_removed.contains(n) || n
                        == e@);
                    assert(post.contains(n) <==> pre.contains(n) || n == e@);
                }
                assert forall|n: Seq<char>|
                    #[trigger] kept.deep_view().contains(n) <==> (post.contains(n)
                        && cache.accepts(n) && !ends_with_partial(n)) by {
                    assert(post.contains(n) <==> pre.contains(n) || n == e@);
                }
            }
        } else {
            let ghost pre_kept = kept.deep_view();
            kept.push(e.clone());
            proof {
                assert(kept.deep_view() =~~= pre_kept.push(e@));
                assert forall|n: Seq<char>|
                    #[trigger] kept.deep_view().contains(n) <==> (post.contains(n)
                        && cache.accepts(n) && !ends_with_partial(n)) by {
                    assert(kept.deep_view().contains(n) <==> pre_kept.contains(n) || n == e@);
                    assert(post.contains(n) <==> pre.contains(n) || n == e@);
                }
                assert forall|n: Seq<char>|
                    #[trigger] removed.deep_view().contains(n) <==> (post.contains(n) && (
                    !cache.accepts(n) || ends_with_partial(n))) by {
                    assert(post.contains(n) <==> pre.contains(n) || n == e@);
                }
            }
        }
        i = i + 1;
    }
    proof {
        assert(dir.entries.deep_view().subrange(0, dir.entries@.len() as int)
            =~= dir.entries.deep_view());
    }
    dir.entries = kept;
    removed
}

/// The outcome of a layer's builder function.
#[derive(Clone, Copy, Debug, PartialEq, Eq, Structural)]
pub enum BuildOutcome {
    /// The builder populated the partial directory and succeeded.
    Success,
    /// The builder failed after creating the partial directory.
    Failure,
}

/// One build call over the directory model.
///
/// Reuses the published layer when it exists and no predecessor was
/// rebuilt; otherwise removes any stale partial and final directories, has
/// the builder populate the partial directory, and on success publishes it
/// by one atomic rename.  On success the final directory exists and the
/// partial does not; on builder failure the partial is left in place for
/// diagnosis and the final directory is absent, any stale one having been
/// removed before the builder ran.
pub fn build(
    cache: &Cache,
    dir: &mut DirModel,
    name: &str,
    parent_rebuilt: bool,
    outcome: BuildOutcome,
) -> (r: Result<(String, bool), Error>)
    requires
        !ends_with_partial(name@),
    ensures
        r matches Ok(p) ==> p.0@ == cache.root@ + seq!['/'] + name@ && p.1 == spec_rebuilds(
            old(dir).has_name(name@),
            parent_rebuilt,
        ),
        !spec_rebuilds(old(dir).has_name(name@), parent_rebuilt) ==> (r is Ok && forall|
            n: Seq<char>,
        |
            final(dir).has_name(n) <==> old(dir).has_name(n)),
        spec_rebuilds(old(dir).has_name(name@), parent_rebuilt) && outcome
            == BuildOutcome::Success ==> (r is Ok && forall|n: Seq<char>|
            final(dir).has_name(n) <==> ((old(dir).has_name(n) && n != name@ && n
                != partial_name_of(name@)) || n == name@)),
        spec_rebuilds(old(dir).has_name(name@), parent_rebuilt) && outcome
            == BuildOutcome::Failure ==> (r matches Err(e) && e.kind == ErrorKind::Other && forall|
            n: Seq<char>,
        |
            final(dir).has_name(n) <==> ((old(dir).has_name(n) && n != name@ && n
                != partial_name_of(name@)) || n == partial_name_of(name@))),
        r is Ok <==> !spec_rebuilds(old(dir).has_name(name@), parent_rebuilt) || outcome
            == BuildOutcome::Success,
        r is Ok ==> final(dir).has_name(name@),
        spec_rebuilds(old(dir).has_name(name@), parent_rebuilt) && outcome
            == BuildOutcome::Success ==> !final(dir).has_name(partial_name_of(name@)),
        !old(dir).has_name(partial_name_of(name@)) && r is Ok ==> !final(dir).has_name(
            partial_name_of(name@),
        ),
        outcome == BuildOutcome::Failure && spec_rebuilds(old(dir).has_name(name@), parent_rebuilt)
            ==> final(dir).has_name(partial_name_of(name@)) && !final(dir).has_name(name@),
{
    proof {
        reveal_strlit(".partial");
        assert(partial_name_of(name@).len() == name@.len() + 8);
        assert(ends_with_partial(partial_name_of(name@))) by {
            let p = partial_name_of(name@);
            assert(p.subrange(p.len() - 8, p.len() as int) =~= ".partial"@);
        }
    }
    let partial = partial_name(name);
    let final_exists = dir.has(name);
    if cache.reuses(parent_rebuilt, final_exists) {
        return Ok((cache.final_path(name), false));
    }
    if dir.has(partial.as_str()) {
        dir.remove(partial.as_str());
    }
    if dir.has(name) {
        dir.remove(name);
    }
    // The builder owns the creation of its own directory: it populates the
    // partial directory and reports its outcome.
    dir.add(partial.as_str());
    match outcome {
        BuildOutcome::Success => {
            dir.rename_entry(partial.as_str(), name);
            Ok((cache.final_path(name), true))
        },
        BuildOutcome::Failure => {
            Err(Error::new(ErrorKind::Other, "layer build failed"))
        },
    }
}

} // verus!
