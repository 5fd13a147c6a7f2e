//! Picking the newest render directory out of a listing.

use crate::timestamp::Timestamp;
use vstd::prelude::*;
use vstd::string::*;

verus! {

/// One immediate entry of the root directory, as it was read.
#[derive(Debug)]
pub struct DirEntry {
    /// The entry's base name.
    pub name: String,
    /// Whether the entry is a directory.
    pub is_dir: bool,
    /// When it was created, where the file system tells.
    pub created: Option<Timestamp>,
    /// When it was last modified, where the file system tells.
    pub modified: Option<Timestamp>,
}

/// What a look at the root directory gave.
#[derive(Debug)]
pub enum Listing {
    /// The root directory does not exist.
    Missing,
    /// The root's immediate entries, in the order in which they were read.
    Entries(Vec<DirEntry>),
}

/// Why no directory was selected.
#[derive(Clone, Copy, Debug, PartialEq, Eq, Structural)]
pub enum SelectError {
    /// The root directory does not exist.
    RootNotFound,
    /// The root holds no render directory with a timestamp.
    NoRenderDirs,
}

/// The name of every render directory begins with this.
pub open spec fn render_prefix() -> Seq<char> {
    "render"@
}

/// Whether `name` begins with the render prefix.
pub open spec fn has_render_prefix(name: Seq<char>) -> bool {
    render_prefix().is_prefix_of(name)
}

impl DirEntry {
    /// The time by which the entry is ranked: its creation time, or else its
    /// modification time.
    pub open spec fn spec_timestamp(&self) -> Option<Timestamp> {
        if self.created is Some {
            self.created
        } else {
            self.modified
        }
    }

    /// Whether the entry takes part in the selection: a directory with the
    /// render prefix and a timestamp.
    pub open spec fn is_candidate(&self) -> bool {
        self.is_dir && has_render_prefix(self.name@) && self.spec_timestamp() is Some
    }

    /// A candidate's rank: its timestamp in nanoseconds from the epoch.
    pub open spec fn rank(&self) -> int {
        self.spec_timestamp().unwrap().total_nanos()
    }

    /// The time by which the entry is ranked, if it has one.
    pub fn timestamp(&self) -> (r: Option<Timestamp>)
        ensures
            r == self.spec_timestamp(),
    {
        match self.created {
            Some(t) => Some(t),
            None => self.modified,
        }
    }
}

/// Whether `entries[i]` is the selection: a candidate that no candidate
/// outranks and that no earlier candidate equals in rank.
pub open spec fn is_latest(entries: Seq<DirEntry>, i: int) -> bool {
    &&& 0 <= i < entries.len()
    &&& entries[i].is_candidate()
    &&& forall|j: int|
        0 <= j < entries.len() && (#[trigger] entries[j]).is_candidate() ==> entries[j].rank()
            <= entries[i].rank()
    &&& forall|j: int|
        0 <= j < i && (#[trigger] entries[j]).is_candidate() ==> entries[j].rank()
            < entries[i].rank()
}

/// Whether no entry is a candidate.
pub open spec fn no_candidate(entries: Seq<DirEntry>) -> bool {
    forall|j: int| 0 <= j < entries.len() ==> !(#[trigger] entries[j]).is_candidate()
}

/// Whether `name` begins with the render prefix.
pub fn starts_with_render(name: &str) -> (b: bool)
    ensures
        b == has_render_prefix(name@),
{
    let prefix = "render";
    proof {
        reveal_strlit("render");
    }
    let n: usize = name.unicode_len();
    if n < 6 {
        return false;
    }
    let mut k: usize = 0;
    while k < 6
        invariant
            k <= 6 <= n,
            n == name@.len(),
            prefix@ == render_prefix(),
            prefix@.len() == 6,
            forall|j: int| 0 <= j < k ==> name@[j] == prefix@[j],
        decreases 6 - k,
    {
        if name.get_char(k) != prefix.get_char(k) {
            assert(name@.subrange(0, 6)[k as int] != prefix@[k as int]);
            return false;
        }
        k += 1;
    }
    assert(name@.subrange(0, 6) =~= prefix@);
    true
}

/// Whether the entry takes part in the selection.
pub fn is_candidate(entry: &DirEntry) -> (b: bool)
    ensures
        b == entry.is_candidate(),
{
    entry.is_dir && starts_with_render(entry.name.as_str()) && entry.timestamp().is_some()
}

/// The position of the newest render directory among `entries`.
///
/// Among the entries that are directories, carry the render prefix and have a
/// timestamp, the one with the greatest timestamp is chosen; of several with
/// that timestamp, the one that was read first.
pub fn find_latest(entries: &Vec<DirEntry>) -> (r: Option<usize>)
    ensures
        r is Some <==> !no_candidate(entries@),
        match r {
            Some(i) => is_latest(entries@, i as int),
            None => no_candidate(entries@),
        },
{
    let mut best: Option<(usize, Timestamp)> = None;
    let mut k: usize = 0;
    while k < entries.len()
        invariant
            k <= entries.len(),
            match best {
                None => no_candidate(entries@.take(k as int)),
                Some((i, t)) => is_latest(entries@.take(k as int), i as int) && entries[i as int].spec_timestamp()
                    == Some(t),
            },
        decreases entries.len() - k,
    {
        let entry = &entries[k];
        assert(entries@.take(k as int + 1).drop_last() =~= entries@.take(k as int));
        assert(entries@.take(k as int + 1).last() == entries[k as int]);
        if is_candidate(entry) {
            let stamp = entry.timestamp().unwrap();
            let newer = match best {
                None => true,
                Some((_, t)) => stamp.is_later_than(&t),
            };
            if newer {
                best = Some((k, stamp));
            }
        }
        k += 1;
    }
    assert(entries@.take(k as int) =~= entries@);
    match best {
        Some((i, _)) => Some(i),
        None => None,
    }
}

/// The position of the newest render directory of a listing, or why there
/// is none: the root is missing, or it holds no candidate.
pub fn find_latest_dir(listing: &Listing) -> (r: Result<usize, SelectError>)
    ensures
        r is Ok <==> (listing matches Listing::Entries(entries) && !no_candidate(entries@)),
        match (listing, r) {
            (Listing::Missing, r) => r == Err::<usize, SelectError>(SelectError::RootNotFound),
            (Listing::Entries(entries), Ok(i)) => is_latest(entries@, i as int),
            (Listing::Entries(entries), Err(e)) => e == SelectError::NoRenderDirs
                && no_candidate(entries@),
        },
{
    match listing {
        Listing::Missing => Err(SelectError::RootNotFound),
        Listing::Entries(entries) => match find_latest(entries) {
            Some(i) => Ok(i),
            None => Err(SelectError::NoRenderDirs),
        },
    }
}

/// A listing has at most one selection.
pub proof fn lemma_latest_is_unique(entries: Seq<DirEntry>, i: int, j: int)
    requires
        is_latest(entries, i),
        is_latest(entries, j),
    ensures
        i == j,
{
}

/// A listing with a candidate has a selection, so the search fails only
/// where there is none.
pub proof fn lemma_selection_needs_candidate(entries: Seq<DirEntry>, i: int)
    requires
        is_latest(entries, i),
    ensures
        !no_candidate(entries),
{
}

/// The selection is a directory whose name has the render prefix.
pub proof fn lemma_selection_has_prefix(entries: Seq<DirEntry>, i: int)
    requires
        is_latest(entries, i),
    ensures
        has_render_prefix(entries[i].name@),
        entries[i].is_dir,
{
}

/// Entries without the render prefix do not matter: two listings that agree
/// on which entries have the prefix, and on those entries' kind and
/// timestamp, have the same selection, whatever the other entries hold.
pub proof fn lemma_unprefixed_entries_do_not_matter(a: Seq<DirEntry>, b: Seq<DirEntry>, i: int)
    requires
        a.len() == b.len(),
        forall|j: int|
            0 <= j < a.len() ==> (has_render_prefix(#[trigger] a[j].name@) <==> has_render_prefix(
                b[j].name@,
            )),
        forall|j: int|
            0 <= j < a.len() && has_render_prefix(#[trigger] a[j].name@) ==> a[j].is_dir
                == b[j].is_dir && a[j].spec_timestamp() == b[j].spec_timestamp(),
    ensures
        is_latest(a, i) <==> is_latest(b, i),
{
    assert forall|j: int| 0 <= j < a.len() implies same_standing(#[trigger] a[j], b[j]) by {
        let _ = a[j].name@;
    }
    assert forall|j: int| 0 <= j < b.len() implies same_standing(a[j], #[trigger] b[j]) by {
        let _ = a[j].name@;
    }
}

/// Whether two entries count alike in a selection.
pub open spec fn same_standing(x: DirEntry, y: DirEntry) -> bool {
    x.is_candidate() == y.is_candidate() && (x.is_candidate() ==> x.rank() == y.rank())
}

} // verus!
