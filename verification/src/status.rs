//! A snapshot of the repository's working state: which files are modified,
//! added or deleted, in the order the engine reported them, and how a raw
//! engine report is classified into those three categories.

use vstd::prelude::*;

use crate::numfmt::{dec_rep, lemma_dec_rep_nonempty, usize_to_string};

verus! {

/// Bit set by the engine for a file newly added to the index.
pub const STATUS_INDEX_NEW: u32 = 0x1;

/// Bit set by the engine for a file modified in the index.
pub const STATUS_INDEX_MODIFIED: u32 = 0x2;

/// Bit set by the engine for a file deleted from the index.
pub const STATUS_INDEX_DELETED: u32 = 0x4;

/// Bit set by the engine for a new file in the working tree.
pub const STATUS_WT_NEW: u32 = 0x80;

/// Bit set by the engine for a file modified in the working tree.
pub const STATUS_WT_MODIFIED: u32 = 0x100;

/// Bit set by the engine for a file deleted from the working tree.
pub const STATUS_WT_DELETED: u32 = 0x200;

/// An engine status word counts as "added" when the file is new in the
/// index or in the working tree.
pub open spec fn bits_added(bits: u32) -> bool {
    bits & STATUS_INDEX_NEW != 0 || bits & STATUS_WT_NEW != 0
}

/// An engine status word counts as "modified" when the file is not added
/// and is modified in the index or in the working tree.
pub open spec fn bits_modified(bits: u32) -> bool {
    !bits_added(bits) && (bits & STATUS_INDEX_MODIFIED != 0 || bits & STATUS_WT_MODIFIED != 0)
}

/// An engine status word counts as "deleted" when the file is neither
/// added nor modified and is deleted in the index or in the working tree.
pub open spec fn bits_deleted(bits: u32) -> bool {
    !bits_added(bits) && !bits_modified(bits) && (bits & STATUS_INDEX_DELETED != 0 || bits
        & STATUS_WT_DELETED != 0)
}

/// Whether some string in `s` holds exactly the characters `p`.
pub open spec fn seq_has_str(s: Seq<String>, p: Seq<char>) -> bool {
    exists|i: int| 0 <= i < s.len() && (#[trigger] s[i])@ == p
}

/// The three categories built from an engine report, in report order:
/// (modified, added, deleted). An entry whose path is already classified
/// is not classified again — the facade enforces that a path appears in
/// at most one category — and an entry whose bits match no category is
/// dropped.
pub open spec fn classify(entries: Seq<(String, u32)>) -> (Seq<String>, Seq<String>, Seq<String>)
    decreases entries.len(),
{
    if entries.len() == 0 {
        (Seq::empty(), Seq::empty(), Seq::empty())
    } else {
        let prev = classify(entries.drop_last());
        let path = entries.last().0;
        let bits = entries.last().1;
        if seq_has_str(prev.0, path@) || seq_has_str(prev.1, path@) || seq_has_str(
            prev.2,
            path@,
        ) {
            prev
        } else if bits_added(bits) {
            (prev.0, prev.1.push(path), prev.2)
        } else if bits_modified(bits) {
            (prev.0.push(path), prev.1, prev.2)
        } else if bits_deleted(bits) {
            (prev.0, prev.1, prev.2.push(path))
        } else {
            prev
        }
    }
}

/// The paths classified as modified, in report order.
pub open spec fn modified_of(entries: Seq<(String, u32)>) -> Seq<String> {
    classify(entries).0
}

/// The paths classified as added, in report order.
pub open spec fn added_of(entries: Seq<(String, u32)>) -> Seq<String> {
    classify(entries).1
}

/// The paths classified as deleted, in report order.
pub open spec fn deleted_of(entries: Seq<(String, u32)>) -> Seq<String> {
    classify(entries).2
}

/// Pushing one string onto a list makes a text a member exactly when it
/// already was one or it is that string's text.
proof fn lemma_seq_has_str_push(s: Seq<String>, x: String, p: Seq<char>)
    ensures
        seq_has_str(s.push(x), p) <==> (seq_has_str(s, p) || x@ == p),
{
    if seq_has_str(s.push(x), p) {
        let i = choose|i: int| 0 <= i < s.push(x).len() && (#[trigger] s.push(x)[i])@ == p;
        if i < s.len() {
            assert(s[i]@ == p);
        } else {
            assert(x@ == p);
        }
    }
    if seq_has_str(s, p) {
        let i = choose|i: int| 0 <= i < s.len() && (#[trigger] s[i])@ == p;
        assert(s.push(x)[i]@ == p);
    }
    if x@ == p {
        assert(s.push(x)[s.len() as int]@ == p);
    }
}

/// Each entry is counted in at most one category, so the three categories
/// together never hold more paths than there are entries.
pub proof fn lemma_categories_cover_entries(entries: Seq<(String, u32)>)
    ensures
        modified_of(entries).len() + added_of(entries).len() + deleted_of(entries).len()
            <= entries.len(),
    decreases entries.len(),
{
    if entries.len() > 0 {
        lemma_categories_cover_entries(entries.drop_last());
    }
}

/// No path lands in two categories: for every engine report, the
/// classification keeps the three categories pairwise disjoint.
pub proof fn lemma_categories_disjoint(entries: Seq<(String, u32)>)
    ensures
        forall|p: Seq<char>|
            !(#[trigger] seq_has_str(modified_of(entries), p) && seq_has_str(
                added_of(entries),
                p,
            )),
        forall|p: Seq<char>|
            !(#[trigger] seq_has_str(modified_of(entries), p) && seq_has_str(
                deleted_of(entries),
                p,
            )),
        forall|p: Seq<char>|
            !(#[trigger] seq_has_str(added_of(entries), p) && seq_has_str(
                deleted_of(entries),
                p,
            )),
    decreases entries.len(),
{
    if entries.len() > 0 {
        let prefix = entries.drop_last();
        lemma_categories_disjoint(prefix);
        let m = modified_of(prefix);
        let a = added_of(prefix);
        let d = deleted_of(prefix);
        let path = entries.last().0;
        let bits = entries.last().1;
        if seq_has_str(m, path@) || seq_has_str(a, path@) || seq_has_str(d, path@) {
            assert(modified_of(entries) == m && added_of(entries) == a && deleted_of(entries)
                == d);
        } else if bits_added(bits) {
            assert(modified_of(entries) == m && added_of(entries) == a.push(path) && deleted_of(
                entries,
            ) == d);
            assert forall|p: Seq<char>|
                !(#[trigger] seq_has_str(modified_of(entries), p) && seq_has_str(
                    added_of(entries),
                    p,
                )) by {
                lemma_seq_has_str_push(a, path, p);
            }
            assert forall|p: Seq<char>|
                !(#[trigger] seq_has_str(added_of(entries), p) && seq_has_str(
                    deleted_of(entries),
                    p,
                )) by {
                lemma_seq_has_str_push(a, path, p);
            }
        } else if bits_modified(bits) {
            assert(modified_of(entries) == m.push(path) && added_of(entries) == a && deleted_of(
                entries,
            ) == d);
            assert forall|p: Seq<char>|
                !(#[trigger] seq_has_str(modified_of(entries), p) && seq_has_str(
                    added_of(entries),
                    p,
                )) by {
                lemma_seq_has_str_push(m, path, p);
            }
            assert forall|p: Seq<char>|
                !(#[trigger] seq_has_str(modified_of(entries), p) && seq_has_str(
                    deleted_of(entries),
                    p,
                )) by {
                lemma_seq_has_str_push(m, path, p);
            }
        } else if bits_deleted(bits) {
            assert(modified_of(entries) == m && added_of(entries) == a && deleted_of(entries)
                == d.push(path));
            assert forall|p: Seq<char>|
                !(#[trigger] seq_has_str(modified_of(entries), p) && seq_has_str(
                    deleted_of(entries),
                    p,
                )) by {
                lemma_seq_has_str_push(d, path, p);
            }
            assert forall|p: Seq<char>|
                !(#[trigger] seq_has_str(added_of(entries), p) && seq_has_str(
                    deleted_of(entries),
                    p,
                )) by {
                lemma_seq_has_str_push(d, path, p);
            }
        } else {
            assert(modified_of(entries) == m && added_of(entries) == a && deleted_of(entries)
                == d);
        }
    }
}

/// Working-state snapshot: the changed files, split into the three
/// categories, each in the order the engine reported them.
#[derive(Debug, Clone)]
pub struct RepoStatus {
    /// Files with modifications not yet committed.
    pub modified: Vec<String>,
    /// Files newly added (in the index or untracked).
    pub added: Vec<String>,
    /// Files deleted (from the index or the working tree).
    pub deleted: Vec<String>,
}

/// One decimal count with its label, or nothing when the count is zero.
pub open spec fn summary_part(n: nat, label: Seq<char>) -> Seq<char> {
    if n == 0 {
        Seq::empty()
    } else {
        dec_rep(n) + label
    }
}

/// Two summary pieces joined with a comma, leaving out an empty side.
pub open spec fn comma_join(x: Seq<char>, y: Seq<char>) -> Seq<char> {
    if x.len() == 0 {
        y
    } else if y.len() == 0 {
        x
    } else {
        x + ", "@ + y
    }
}

/// The human-readable summary of a status with the given counts.
pub open spec fn summary_rep(m: nat, a: nat, d: nat) -> Seq<char> {
    if m == 0 && a == 0 && d == 0 {
        "clean"@
    } else {
        comma_join(
            comma_join(summary_part(m, " modified"@), summary_part(a, " added"@)),
            summary_part(d, " deleted"@),
        )
    }
}

impl RepoStatus {
    /// Total number of changed files, as a mathematical count.
    pub open spec fn spec_total(&self) -> nat {
        self.modified@.len() + self.added@.len() + self.deleted@.len()
    }

    /// Whether the snapshot reports no change at all.
    pub open spec fn spec_is_clean(&self) -> bool {
        self.spec_total() == 0
    }

    /// Create a new empty status.
    pub fn new() -> (r: RepoStatus)
        ensures
            r.modified@ == Seq::<String>::empty(),
            r.added@ == Seq::<String>::empty(),
            r.deleted@ == Seq::<String>::empty(),
            r.spec_is_clean(),
    {
        RepoStatus { modified: Vec::new(), added: Vec::new(), deleted: Vec::new() }
    }

    /// Classify a raw engine report into the three categories. Each entry
    /// is a path with the engine's status bits. A path already classified
    /// is not classified again — the engine reports each path once, and
    /// this is where the facade enforces that a path appears in at most
    /// one category — and an entry whose bits match none of the categories
    /// (ignored or unchanged files) is dropped.
    pub fn from_entries(entries: &Vec<(String, u32)>) -> (r: RepoStatus)
        ensures
            r.modified@ == modified_of(entries@),
            r.added@ == added_of(entries@),
            r.deleted@ == deleted_of(entries@),
            r.spec_total() <= entries@.len(),
            forall|p: Seq<char>|
                !(#[trigger] seq_has_str(r.modified@, p) && seq_has_str(r.added@, p)),
            forall|p: Seq<char>|
                !(#[trigger] seq_has_str(r.modified@, p) && seq_has_str(r.deleted@, p)),
            forall|p: Seq<char>|
                !(#[trigger] seq_has_str(r.added@, p) && seq_has_str(r.deleted@, p)),
    {
        let mut modified: Vec<String> = Vec::new();
        let mut added: Vec<String> = Vec::new();
        let mut deleted: Vec<String> = Vec::new();
        let n = entries.len();
        let mut i: usize = 0;
        while i < n
            invariant
                i <= n,
                n == entries@.len(),
                modified@ == modified_of(entries@.take(i as int)),
                added@ == added_of(entries@.take(i as int)),
                deleted@ == deleted_of(entries@.take(i as int)),
            decreases n - i,
        {
            let bits = entries[i].1;
            proof {
                assert(entries@.take(i + 1).drop_last() =~= entries@.take(i as int));
                assert(entries@.take(i + 1).last() == entries@[i as int]);
            }
            let seen = vec_contains(&modified, &entries[i].0) || vec_contains(
                &added,
                &entries[i].0,
            ) || vec_contains(&deleted, &entries[i].0);
            if !seen {
                if bits & STATUS_INDEX_NEW != 0 || bits & STATUS_WT_NEW != 0 {
                    added.push(entries[i].0.clone());
                } else if bits & STATUS_INDEX_MODIFIED != 0 || bits & STATUS_WT_MODIFIED != 0 {
                    modified.push(entries[i].0.clone());
                } else if bits & STATUS_INDEX_DELETED != 0 || bits & STATUS_WT_DELETED != 0 {
                    deleted.push(entries[i].0.clone());
                }
            }
            i += 1;
        }
        proof {
            assert(entries@.take(n as int) =~= entries@);
            lemma_categories_cover_entries(entries@);
            lemma_categories_disjoint(entries@);
        }
        RepoStatus { modified, added, deleted }
    }

    /// Check if the repository is clean (no changes).
    pub fn is_clean(&self) -> (r: bool)
        ensures
            r == self.spec_is_clean(),
    {
        self.modified.len() == 0 && self.added.len() == 0 && self.deleted.len() == 0
    }

    /// Total number of changed files.
    pub fn total_changes(&self) -> (r: usize)
        requires
            self.spec_total() <= usize::MAX,
        ensures
            r == self.spec_total(),
    {
        self.modified.len() + self.added.len() + self.deleted.len()
    }

    /// Human-readable summary, such as `1 modified, 2 added`, or `clean`
    /// when nothing changed.
    pub fn summary(&self) -> (s: String)
        ensures
            s@ == summary_rep(self.modified@.len(), self.added@.len(), self.deleted@.len()),
    {
        let m = self.modified.len();
        let a = self.added.len();
        let d = self.deleted.len();
        if m == 0 && a == 0 && d == 0 {
            return "clean".to_owned();
        }
        let mut s = String::new();
        if m > 0 {
            s.append(usize_to_string(m).as_str());
            s.append(" modified");
            proof {
                lemma_dec_rep_nonempty(m as nat);
                assert(s@ =~= summary_part(m as nat, " modified"@));
            }
        }
        proof {
            assert(s@ == summary_part(m as nat, " modified"@));
        }
        if a > 0 {
            if m > 0 {
                s.append(", ");
            }
            s.append(usize_to_string(a).as_str());
            s.append(" added");
            proof {
                lemma_dec_rep_nonempty(a as nat);
                lemma_dec_rep_nonempty(m as nat);
                assert(s@ =~= comma_join(
                    summary_part(m as nat, " modified"@),
                    summary_part(a as nat, " added"@),
                ));
            }
        }
        proof {
            assert(s@ == comma_join(
                summary_part(m as nat, " modified"@),
                summary_part(a as nat, " added"@),
            ));
        }
        if d > 0 {
            if m > 0 || a > 0 {
                s.append(", ");
            }
            s.append(usize_to_string(d).as_str());
            s.append(" deleted");
            proof {
                lemma_dec_rep_nonempty(d as nat);
                lemma_dec_rep_nonempty(a as nat);
                lemma_dec_rep_nonempty(m as nat);
                assert(s@ =~= summary_rep(m as nat, a as nat, d as nat));
            }
        }
        proof {
            assert(s@ == summary_rep(m as nat, a as nat, d as nat));
        }
        s
    }

    /// Get all changed files as a single list: the modified ones, then the
    /// added ones, then the deleted ones.
    pub fn all_files(&self) -> (r: Vec<String>)
        ensures
            r@ == self.modified@ + self.added@ + self.deleted@,
    {
        let mut all: Vec<String> = Vec::new();
        append_clones(&mut all, &self.modified);
        append_clones(&mut all, &self.added);
        append_clones(&mut all, &self.deleted);
        proof {
            assert(all@ =~= self.modified@ + self.added@ + self.deleted@);
        }
        all
    }

    /// Check if a specific file has changes, in any category.
    pub fn has_file(&self, path: &str) -> (r: bool)
        ensures
            r == (seq_has_str(self.modified@, path@) || seq_has_str(self.added@, path@)
                || seq_has_str(self.deleted@, path@)),
    {
        let p = path.to_owned();
        vec_contains(&self.modified, &p) || vec_contains(&self.added, &p) || vec_contains(
            &self.deleted,
            &p,
        )
    }
}

/// Push clones of all of `src` onto `dst`, in order.
fn append_clones(dst: &mut Vec<String>, src: &Vec<String>)
    ensures
        final (dst)@ == old(dst)@ + src@,
{
    let n = src.len();
    let mut i: usize = 0;
    while i < n
        invariant
            i <= n,
            n == src@.len(),
            dst@ == old(dst)@ + src@.take(i as int),
        decreases n - i,
    {
        dst.push(src[i].clone());
        proof {
            assert(old(dst)@ + src@.take(i + 1) =~= (old(dst)@ + src@.take(i as int)).push(
                src@[i as int],
            ));
        }
        i += 1;
    }
    proof {
        assert(src@.take(n as int) =~= src@);
    }
}

/// Whether the vector holds a string equal to the characters of `p`.
fn vec_contains(v: &Vec<String>, p: &String) -> (r: bool)
    ensures
        r == seq_has_str(v@, p@),
{
    let n = v.len();
    let mut i: usize = 0;
    while i < n
        invariant
            i <= n,
            n == v@.len(),
            forall|j: int| 0 <= j < i ==> (#[trigger] v@[j])@ != p@,
        decreases n - i,
    {
        if string_eq(&v[i], p) {
            return true;
        }
        i += 1;
    }
    false
}

/// Whether two strings hold the same characters.
fn string_eq(a: &String, b: &String) -> (r: bool)
    ensures
        r == (a@ == b@),
{
    a.eq(b)
}

} // verus!
