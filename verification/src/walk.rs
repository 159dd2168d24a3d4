//! Candidate selection for the directory walk: only regular files under a
//! size cap whose immediate parent directory is named `new` or `cur`
//! (the Maildir convention), at depth 2 to 3 below a root, are handed on to
//! the parsers.

use vstd::prelude::*;

verus! {

/// Largest message file, in bytes, that the pipeline will read (4 MiB).
pub const MAX_MESSAGE_BYTES: u64 = 4 * 1024 * 1024;

/// Least depth below a root at which candidate files are taken.
pub const MIN_WALK_DEPTH: usize = 2;

/// Greatest depth below a root at which candidate files are taken.
pub const MAX_WALK_DEPTH: usize = 3;

/// What the walk learns about one directory entry before deciding whether to
/// hand it to the parsers. Ephemeral: discarded after the parsing attempt.
pub struct EntryMeta {
    /// Path of the entry, as text.
    pub path: String,
    /// Name of the entry's immediate parent directory, if it has one.
    pub parent_name: Option<String>,
    /// Depth of the entry below the walked root.
    pub depth: usize,
    /// Whether the entry is a regular file.
    pub is_file: bool,
    /// Size of the entry in bytes.
    pub len: u64,
}

/// Spec-level picture of one directory entry.
pub ghost struct EntryMetaView {
    pub path: Seq<char>,
    pub parent_name: Option<Seq<char>>,
    pub depth: int,
    pub is_file: bool,
    pub len: int,
}

impl View for EntryMeta {
    type V = EntryMetaView;

    open spec fn view(&self) -> EntryMetaView {
        EntryMetaView {
            path: self.path@,
            parent_name: match self.parent_name {
                Some(p) => Some(p@),
                None => None,
            },
            depth: self.depth as int,
            is_file: self.is_file,
            len: self.len as int,
        }
    }
}

/// The authoritative filtering policy: an entry is a candidate message file
/// exactly when it sits at depth 2 to 3 below a root, its immediate parent
/// directory is named `new` or `cur`, and it is a regular file smaller than
/// `MAX_MESSAGE_BYTES`.
pub open spec fn spec_is_candidate(e: EntryMetaView) -> bool {
    &&& MIN_WALK_DEPTH <= e.depth <= MAX_WALK_DEPTH
    &&& (e.parent_name == Some("new"@) || e.parent_name == Some("cur"@))
    &&& e.is_file
    &&& e.len < MAX_MESSAGE_BYTES
}

/// Decides whether one directory entry is a candidate message file.
pub fn is_candidate(e: &EntryMeta) -> (r: bool)
    ensures
        r == spec_is_candidate(e@),
{
    let in_mail_dir = match &e.parent_name {
        Some(p) => *p == "new".to_owned() || *p == "cur".to_owned(),
        None => false,
    };
    MIN_WALK_DEPTH <= e.depth && e.depth <= MAX_WALK_DEPTH && in_mail_dir && e.is_file
        && e.len < MAX_MESSAGE_BYTES
}

/// The candidates among a sequence of entries, in walk order.
pub open spec fn spec_candidates(s: Seq<EntryMetaView>) -> Seq<EntryMetaView>
    decreases s.len(),
{
    if s.len() == 0 {
        Seq::empty()
    } else {
        let rest = spec_candidates(s.drop_last());
        if spec_is_candidate(s.last()) {
            rest.push(s.last())
        } else {
            rest
        }
    }
}

/// Keeps exactly the candidate message files of `entries`, in order.
pub fn filter_entries(entries: Vec<EntryMeta>) -> (r: Vec<EntryMeta>)
    ensures
        r@.map_values(|e: EntryMeta| e@) == spec_candidates(
            entries@.map_values(|e: EntryMeta| e@),
        ),
{
    let ghost all = entries@.map_values(|e: EntryMeta| e@);
    let mut r: Vec<EntryMeta> = Vec::new();
    let mut i: usize = 0;
    while i < entries.len()
        invariant
            i <= entries@.len(),
            all == entries@.map_values(|e: EntryMeta| e@),
            r@.map_values(|e: EntryMeta| e@) == spec_candidates(all.take(i as int)),
        decreases entries@.len() - i,
    {
        proof {
            assert(all.take(i + 1).drop_last() == all.take(i as int));
            assert(all.take(i + 1).last() == all[i as int]);
        }
        let e = &entries[i];
        if is_candidate(e) {
            let kept = EntryMeta {
                path: e.path.clone(),
                parent_name: e.parent_name.clone(),
                depth: e.depth,
                is_file: e.is_file,
                len: e.len,
            };
            r.push(kept);
        }
        i = i + 1;
    }
    proof {
        assert(all.take(all.len() as int) == all);
    }
    r
}

/// Everything the walker emits satisfies the filtering policy: an entry that
/// breaks any part of it — oversized, not a regular file, out of depth, or
/// under a directory named anything but `new`/`cur` — is never among the
/// candidates, whatever the walked sequence was.
pub proof fn lemma_emitted_entries_are_candidates(s: Seq<EntryMetaView>)
    ensures
        forall|j: int|
            0 <= j < spec_candidates(s).len() ==> spec_is_candidate(
                #[trigger] spec_candidates(s)[j],
            ),
    decreases s.len(),
{
    if s.len() > 0 {
        lemma_emitted_entries_are_candidates(s.drop_last());
        let rest = spec_candidates(s.drop_last());
        assert forall|j: int| 0 <= j < spec_candidates(s).len() implies spec_is_candidate(
            spec_candidates(s)[j],
        ) by {
            if spec_is_candidate(s.last()) {
                assert(spec_candidates(s) == rest.push(s.last()));
                if j < rest.len() {
                    assert(spec_candidates(s)[j] == rest[j]);
                }
            }
        }
    }
}

/// An oversized regular file is never a candidate, so it is never opened
/// for reading.
pub proof fn lemma_oversized_never_candidate(e: EntryMetaView)
    requires
        e.len >= MAX_MESSAGE_BYTES,
    ensures
        !spec_is_candidate(e),
{
}

/// A file whose immediate parent directory is named anything other than
/// `new` or `cur` is never emitted by the walker.
pub proof fn lemma_foreign_parent_never_candidate(e: EntryMetaView)
    requires
        e.parent_name != Some("new"@),
        e.parent_name != Some("cur"@),
    ensures
        !spec_is_candidate(e),
{
}

} // verus!
