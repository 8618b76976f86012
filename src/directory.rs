use vstd::prelude::*;

use crate::error::{AppError, ErrorView};
use crate::path::chars_of;

verus! {

broadcast use {
    vstd::seq_lib::to_multiset_build,
    vstd::seq_lib::to_multiset_insert,
    vstd::seq_lib::to_multiset_contains,
};

/// One child of a listed directory, as it was when the listing was taken.
#[derive(Debug)]
pub struct FileEntry {
    pub name: String,
    pub path: String,
    pub is_dir: bool,
    /// Size in bytes; zero for a directory.
    pub size: u64,
    /// Last modification, in seconds since the Unix epoch.
    pub modified: u64,
}

impl FileEntry {
    /// Builds an entry from what the file system reports of a child. A
    /// directory has size zero, and a missing modification time reads as the
    /// epoch.
    pub fn from_metadata(
        name: String,
        path: String,
        is_dir: bool,
        len: u64,
        modified: Option<u64>,
    ) -> (r: FileEntry)
        ensures
            r.name == name,
            r.path == path,
            r.is_dir == is_dir,
            r.size == (if is_dir {
                0
            } else {
                len
            }),
            r.modified == (match modified {
                Some(m) => m,
                None => 0,
            }),
    {
        let size = if is_dir {
            0
        } else {
            len
        };
        let modified = match modified {
            Some(m) => m,
            None => 0,
        };
        FileEntry { name, path, is_dir, size, modified }
    }
}

/// What std's `str::to_lowercase` returns for a string.
pub uninterp spec fn lower_of(s: Seq<char>) -> Seq<char>;

/// Relies on std's `str::to_lowercase`: the lower-case form of the string,
/// which depends on its characters alone.
#[verifier::external_body]
fn lowercase(s: &str) -> (r: String)
    ensures
        r@ == lower_of(s@),
{
    s.to_lowercase()
}

/// `a` comes no later than `b` in character order (by code point, which is
/// also the order of their UTF-8 bytes).
pub open spec fn text_le(a: Seq<char>, b: Seq<char>) -> bool
    decreases a.len(),
{
    if a.len() == 0 {
        true
    } else if b.len() == 0 {
        false
    } else if a[0] as u32 != b[0] as u32 {
        (a[0] as u32) < (b[0] as u32)
    } else {
        text_le(a.drop_first(), b.drop_first())
    }
}

pub proof fn lemma_text_le_total(a: Seq<char>, b: Seq<char>)
    ensures
        text_le(a, b) || text_le(b, a),
    decreases a.len(),
{
    if a.len() > 0 && b.len() > 0 && a[0] as u32 == b[0] as u32 {
        lemma_text_le_total(a.drop_first(), b.drop_first());
    }
}

pub proof fn lemma_text_le_transitive(a: Seq<char>, b: Seq<char>, c: Seq<char>)
    requires
        text_le(a, b),
        text_le(b, c),
    ensures
        text_le(a, c),
    decreases a.len(),
{
    if a.len() > 0 && b.len() > 0 && c.len() > 0 && a[0] as u32 == b[0] as u32 && b[0] as u32 == c[0] as u32 {
        lemma_text_le_transitive(a.drop_first(), b.drop_first(), c.drop_first());
    }
}

/// Compares two strings in character order.
pub fn text_le_exec(a: &Vec<char>, b: &Vec<char>) -> (r: bool)
    ensures
        r == text_le(a@, b@),
{
    let mut i: usize = 0;
    assert(a@.skip(0) =~= a@ && b@.skip(0) =~= b@);
    while i < a.len() && i < b.len() && a[i] as u32 == b[i] as u32
        invariant
            i <= a.len(),
            i <= b.len(),
            text_le(a@, b@) == text_le(a@.skip(i as int), b@.skip(i as int)),
        decreases a.len() - i,
    {
        assert(a@.skip(i as int).drop_first() =~= a@.skip(i + 1));
        assert(b@.skip(i as int).drop_first() =~= b@.skip(i + 1));
        i = i + 1;
    }
    if i == a.len() {
        true
    } else if i == b.len() {
        false
    } else {
        (a[i] as u32) < (b[i] as u32)
    }
}

/// Listing order: directories before files, then by lower-cased name.
pub open spec fn entry_le(a: FileEntry, b: FileEntry) -> bool {
    (a.is_dir && !b.is_dir) || (a.is_dir == b.is_dir && text_le(
        lower_of(a.name@),
        lower_of(b.name@),
    ))
}

pub proof fn lemma_entry_le_total(a: FileEntry, b: FileEntry)
    ensures
        entry_le(a, b) || entry_le(b, a),
{
    lemma_text_le_total(lower_of(a.name@), lower_of(b.name@));
}

pub proof fn lemma_entry_le_transitive(a: FileEntry, b: FileEntry, c: FileEntry)
    requires
        entry_le(a, b),
        entry_le(b, c),
    ensures
        entry_le(a, c),
{
    if a.is_dir == b.is_dir && b.is_dir == c.is_dir {
        lemma_text_le_transitive(lower_of(a.name@), lower_of(b.name@), lower_of(c.name@));
    }
}

/// Every entry of `s` comes no later than each that follows it.
pub open spec fn in_listing_order(s: Seq<FileEntry>) -> bool {
    forall|i: int, j: int| 0 <= i < j < s.len() ==> entry_le(#[trigger] s[i], #[trigger] s[j])
}

/// Whether `a` comes no later than `b` in listing order.
pub fn entry_precedes(a: &FileEntry, b: &FileEntry) -> (r: bool)
    ensures
        r == entry_le(*a, *b),
{
    if a.is_dir != b.is_dir {
        return a.is_dir;
    }
    let la = lowercase(a.name.as_str());
    let lb = lowercase(b.name.as_str());
    text_le_exec(&chars_of(la.as_str()), &chars_of(lb.as_str()))
}

/// Puts entries in listing order: directories first, then by lower-cased
/// name.
pub fn sort_entries(entries: Vec<FileEntry>) -> (r: Vec<FileEntry>)
    ensures
        r@.to_multiset() == entries@.to_multiset(),
        in_listing_order(r@),
{
    let ghost orig = entries@;
    let mut rest = entries;
    let mut r: Vec<FileEntry> = Vec::new();
    let ghost mut done: int = 0;
    assert(r@ =~= orig.subrange(0, 0));
    assert(rest@ =~= orig.subrange(0, orig.len() as int));
    while rest.len() > 0
        invariant
            0 <= done <= orig.len(),
            rest@ == orig.subrange(done, orig.len() as int),
            r@.to_multiset() == orig.subrange(0, done).to_multiset(),
            in_listing_order(r@),
        decreases rest.len(),
    {
        let e = rest.remove(0);
        let mut k: usize = 0;
        while k < r.len() && entry_precedes(&r[k], &e)
            invariant
                k <= r.len(),
                forall|i: int| 0 <= i < k ==> entry_le(#[trigger] r@[i], e),
            decreases r.len() - k,
        {
            k = k + 1;
        }
        proof {
            assert forall|j: int| k <= j < r@.len() implies entry_le(e, #[trigger] r@[j]) by {
                if entry_le(r@[j], e) {
                    if j > k {
                        lemma_entry_le_transitive(r@[k as int], r@[j], e);
                    }
                }
                lemma_entry_le_total(r@[j], e);
            }
            assert(orig.subrange(0, done + 1) =~= orig.subrange(0, done).push(e));
        }
        let ghost before = r@;
        r.insert(k, e);
        proof {
            assert forall|i: int, j: int| 0 <= i < j < r@.len() implies entry_le(
                #[trigger] r@[i],
                #[trigger] r@[j],
            ) by {
                if i < k && j == k {
                } else if i < k && j > k {
                    assert(r@[j] == before[j - 1]);
                } else if i == k {
                    assert(r@[j] == before[j - 1]);
                } else if i > k {
                    assert(r@[i] == before[i - 1]);
                    assert(r@[j] == before[j - 1]);
                }
            }
            assert(rest@ =~= orig.subrange(done + 1, orig.len() as int));
            done = done + 1;
        }
    }
    proof {
        assert(done == orig.len());
        assert(orig.subrange(0, orig.len() as int) =~= orig);
    }
    r
}

/// Fails with `NotADirectory` unless the resolved path is a directory.
pub fn ensure_directory(path: String, is_dir: bool) -> (r: Result<(), AppError>)
    ensures
        is_dir ==> r is Ok,
        !is_dir ==> r is Err && r->Err_0@ == ErrorView::NotADirectory(path@),
{
    if is_dir {
        Ok(())
    } else {
        Err(AppError::NotADirectory(path))
    }
}

/// The names that a listing leaves out by default: dependency and build
/// output directories, and version-control metadata.
pub open spec fn default_skip_names() -> Seq<Seq<char>> {
    seq!["node_modules"@, "target"@, "dist"@, "build"@, "__pycache__"@, ".git"@]
}

/// A hidden name: one that starts with a dot.
pub open spec fn is_hidden(name: Seq<char>) -> bool {
    name.len() > 0 && name[0] == '.'
}

/// A child named `name` appears in a listing that skips the names in `skip`.
pub open spec fn listed(skip: Seq<Seq<char>>, name: Seq<char>) -> bool {
    !is_hidden(name) && !skip.contains(name)
}

/// The directory lister, with the set of names that it leaves out.
pub struct DirectoryLister {
    skip: Vec<String>,
}

impl DirectoryLister {
    /// The names that this lister leaves out.
    pub closed spec fn skip_names(&self) -> Seq<Seq<char>> {
        self.skip@.map_values(|s: String| s@)
    }

    /// Whether an entry belongs in a listing of this lister.
    pub open spec fn keeps(&self, e: FileEntry) -> bool {
        listed(self.skip_names(), e.name@)
    }

    /// A lister that leaves out the default names.
    pub fn new() -> (r: DirectoryLister)
        ensures
            r.skip_names() == default_skip_names(),
    {
        let mut skip: Vec<String> = Vec::new();
        skip.push(String::from_str("node_modules"));
        skip.push(String::from_str("target"));
        skip.push(String::from_str("dist"));
        skip.push(String::from_str("build"));
        skip.push(String::from_str("__pycache__"));
        skip.push(String::from_str(".git"));
        let r = DirectoryLister { skip };
        assert(r.skip_names() =~= default_skip_names());
        r
    }

    /// A lister that leaves out the names in `skip`.
    pub fn with_skip_set(skip: Vec<String>) -> (r: DirectoryLister)
        ensures
            r.skip_names() == skip@.map_values(|s: String| s@),
    {
        DirectoryLister { skip }
    }

    /// Whether a child named `name` appears in a listing: it is neither hidden
    /// nor one of the skipped names.
    pub fn is_listed(&self, name: &str) -> (r: bool)
        ensures
            r == listed(self.skip_names(), name@),
    {
        let v = chars_of(name);
        if v.len() > 0 && v[0] == '.' {
            return false;
        }
        let owned = String::from_str(name);
        let mut i: usize = 0;
        while i < self.skip.len()
            invariant
                i <= self.skip@.len(),
                owned@ == name@,
                forall|k: int| 0 <= k < i ==> self.skip@[k]@ != name@,
            decreases self.skip.len() - i,
        {
            if self.skip[i] == owned {
                assert(self.skip_names()[i as int] == name@);
                return false;
            }
            i = i + 1;
        }
        assert(!self.skip_names().contains(name@));
        true
    }

    /// The listing made of `entries`: those that are listed, in listing order.
    pub fn finish(&self, entries: Vec<FileEntry>) -> (r: Vec<FileEntry>)
        ensures
            r@.to_multiset() == entries@.filter(|e: FileEntry| self.keeps(e)).to_multiset(),
            forall|i: int| 0 <= i < r@.len() ==> listed(self.skip_names(), #[trigger] r@[i].name@),
            in_listing_order(r@),
    {
        let ghost orig = entries@;
        let ghost keep = |e: FileEntry| self.keeps(e);
        let mut rest = entries;
        let mut kept: Vec<FileEntry> = Vec::new();
        let ghost mut done: int = 0;
        assert(kept@ =~= orig.subrange(0, 0).filter(keep));
        assert(rest@ =~= orig.subrange(0, orig.len() as int));
        while rest.len() > 0
            invariant
                0 <= done <= orig.len(),
                rest@ == orig.subrange(done, orig.len() as int),
                kept@ == orig.subrange(0, done).filter(keep),
                keep == (|e: FileEntry| self.keeps(e)),
            decreases rest.len(),
        {
            let e = rest.remove(0);
            proof {
                assert(orig.subrange(0, done + 1) =~= orig.subrange(0, done).push(e));
                orig.subrange(0, done).lemma_filter_push(e, keep);
            }
            if self.is_listed(e.name.as_str()) {
                kept.push(e);
            }
            proof {
                assert(rest@ =~= orig.subrange(done + 1, orig.len() as int));
                done = done + 1;
            }
        }
        proof {
            assert(orig.subrange(0, orig.len() as int) =~= orig);
            assert forall|i: int| 0 <= i < kept@.len() implies listed(
                self.skip_names(),
                #[trigger] kept@[i].name@,
            ) by {
                assert(keep(kept@[i])) by {
                    orig.filter_lemma(keep);
                }
            }
        }
        let r = sort_entries(kept);
        proof {
            assert forall|i: int| 0 <= i < r@.len() implies listed(
                self.skip_names(),
                #[trigger] r@[i].name@,
            ) by {
                assert(r@.contains(r@[i]));
                assert(r@.to_multiset().count(r@[i]) > 0);
                assert(kept@.contains(r@[i]));
            }
        }
        r
    }
}

} // verus!
