use vstd::prelude::*;

verus! {

use crate::errors::{
    spec_not_found_msg,
    spec_is_directory_msg,
    not_found_msg,
    is_directory_msg,
};
use crate::summary::{spec_nodes_upto, spec_errors_upto, lemma_partition_total};
use crate::walk::spec_expand;

/// What probing a candidate path found on disk, before any extraction.
#[derive(PartialEq, Eq, Structural, Clone, Copy, Debug)]
pub enum Probe {
    /// Nothing exists under the path.
    Missing,
    /// The path names a directory.
    Directory,
    /// The path names an existing non-directory entry.
    Present,
}

/// Decides whether a probed path is rejected before extraction: a missing
/// path and a directory each yield their error, an existing file none.
pub fn probe_error(path: &str, probe: Probe) -> (r: Option<String>)
    ensures
        probe is Missing ==> r is Some && r->0@ == spec_not_found_msg(path@),
        probe is Directory ==> r is Some && r->0@ == spec_is_directory_msg(path@),
        probe is Present ==> r is None,
{
    match probe {
        Probe::Missing => Some(not_found_msg(path)),
        Probe::Directory => Some(is_directory_msg(path)),
        Probe::Present => None,
    }
}

/// Every candidate path is accounted for exactly once: whatever outcome
/// each expanded candidate got, the listing's file nodes and error
/// messages together number exactly the expanded candidates.
pub proof fn lemma_every_candidate_accounted(
    srcs: Seq<Seq<char>>,
    inputs: Seq<(String, crate::walk::FsNode)>,
    items: Seq<(String, u64, Result<String, String>)>,
)
    requires
        items.len() == spec_expand(srcs, inputs, inputs.len() as int).len(),
    ensures
        spec_nodes_upto(items, items.len() as int).len() + spec_errors_upto(
            items,
            items.len() as int,
        ).len() == spec_expand(srcs, inputs, inputs.len() as int).len(),
{
    lemma_partition_total(items, items.len() as int);
}

} // verus!
