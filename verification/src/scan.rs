//! Collecting the match set from a depth-bounded directory walk.
//!
//! The walk itself is an input: it hands over the entries it visited, in
//! discovery order, each reduced to its path, its file name, its nesting
//! depth below the root and its file-type flag. This module decides which
//! of them make the match set, keeping discovery order and refusing
//! anything nested deeper than the bound.

use vstd::prelude::*;

use crate::classify;

verus! {

/// Greatest nesting depth, in levels below the walk's root, from which an
/// entry may enter the match set. The root itself is at depth 0.
pub const MAX_DEPTH: usize = 10;

/// One filesystem entry reported by the walk, reduced to the plain values
/// the classifier reads.
pub struct FsEntry {
    /// The entry's full path, as the walk printed it.
    pub path: String,
    /// The entry's file name: its final path component.
    pub name: String,
    /// How many levels below the walk's root the entry sits.
    pub depth: usize,
    /// Whether the entry is a regular file rather than a directory or
    /// other special entry.
    pub is_file: bool,
}

impl FsEntry {
    /// The entry belongs in the match set: it sits within the depth bound
    /// and the classifier accepts it.
    pub open spec fn spec_matches(self) -> bool {
        self.depth <= MAX_DEPTH && classify::spec_is_artifact(self.name@, self.is_file)
    }
}

/// The match set of a walk: the paths of the matching entries, in the
/// order the walk discovered them.
pub open spec fn artifact_paths(entries: Seq<FsEntry>) -> Seq<Seq<char>>
    decreases entries.len(),
{
    if entries.len() == 0 {
        Seq::empty()
    } else if entries.last().spec_matches() {
        artifact_paths(entries.drop_last()).push(entries.last().path@)
    } else {
        artifact_paths(entries.drop_last())
    }
}

/// Collects the match set from the walked entries: the paths of the
/// regular files within the depth bound whose names the classifier
/// accepts, in discovery order.
pub fn collect_artifacts(entries: &Vec<FsEntry>) -> (found: Vec<String>)
    ensures
        found@.map_values(|p: String| p@) == artifact_paths(entries@),
{
    let mut found: Vec<String> = Vec::new();
    let mut i: usize = 0;
    while i < entries.len()
        invariant
            i <= entries@.len(),
            found@.map_values(|p: String| p@) == artifact_paths(entries@.take(i as int)),
        decreases entries@.len() - i,
    {
        let e = &entries[i];
        let matched = e.depth <= MAX_DEPTH && classify::is_latex_artifact(e.name.as_str(), e.is_file);
        let ghost prev = found@;
        if matched {
            found.push(e.path.clone());
        }
        proof {
            let taken = entries@.take(i + 1);
            assert(taken.drop_last() =~= entries@.take(i as int));
            assert(taken.last() == entries@[i as int]);
            if matched {
                assert(found@.map_values(|p: String| p@) =~= prev.map_values(|p: String| p@).push(
                    entries@[i as int].path@,
                ));
            }
        }
        i = i + 1;
    }
    proof {
        assert(entries@.take(entries@.len() as int) =~= entries@);
    }
    found
}

/// The path `p` belongs to some walked entry that the scanner accepts:
/// a regular file, within the depth bound, with an artifact name.
pub open spec fn from_matching_entry(entries: Seq<FsEntry>, p: Seq<char>) -> bool {
    exists|j: int|
        0 <= j < entries.len() && #[trigger] entries[j].spec_matches() && entries[j].path@ == p
}

/// Every path in the match set comes from some walked entry that the
/// scanner accepts. Since an accepted entry is a regular file within the
/// depth bound, nothing discovered deeper than `MAX_DEPTH` levels, and no
/// directory, ever reaches the match set.
pub proof fn lemma_match_set_within_depth(entries: Seq<FsEntry>)
    ensures
        forall|k: int|
            0 <= k < artifact_paths(entries).len() ==> from_matching_entry(
                entries,
                #[trigger] artifact_paths(entries)[k],
            ),
    decreases entries.len(),
{
    if entries.len() > 0 {
        lemma_match_set_within_depth(entries.drop_last());
        let prev = artifact_paths(entries.drop_last());
        assert forall|k: int| 0 <= k < artifact_paths(entries).len() implies from_matching_entry(
            entries,
            artifact_paths(entries)[k],
        ) by {
            if k < prev.len() {
                let j = choose|j: int|
                    0 <= j < entries.drop_last().len()
                        && #[trigger] entries.drop_last()[j].spec_matches()
                        && entries.drop_last()[j].path@ == prev[k];
                assert(entries[j].spec_matches() && entries[j].path@ == artifact_paths(entries)[k]);
            } else {
                let j = entries.len() - 1;
                assert(entries[j].spec_matches() && entries[j].path@ == artifact_paths(entries)[k]);
            }
        }
    }
}

/// An accepted entry is a regular file that sits no deeper than
/// `MAX_DEPTH` levels below the root.
pub proof fn lemma_matching_entry_is_shallow_file(e: FsEntry)
    requires
        e.spec_matches(),
    ensures
        e.is_file,
        e.depth <= MAX_DEPTH,
{
}

/// Progress is reported only while a directory is being visited, and only
/// once more than a full second has passed since the last report.
pub fn should_report_progress(elapsed_millis: u64, is_dir: bool) -> (r: bool)
    ensures
        r == (elapsed_millis > 1000 && is_dir),
{
    elapsed_millis > 1000 && is_dir
}

} // verus!
