use vstd::prelude::*;

verus! {

use crate::classify::spec_file_name;
use crate::classify::file_name;
use crate::pattern::{PatternFilter, spec_excluded_by};
use crate::spec_hidden;
use vstd::string::StringExecFns;

/// One directory entry of the modelled file tree.
pub struct FsEntry {
    pub name: String,
    pub node: FsNode,
}

/// What a directory entry is: a regular file, or a directory with its own
/// entries. Anything else (sockets, unreadable entries) is simply absent
/// from the model, matching a best-effort walk that skips them.
pub enum FsNode {
    File,
    Dir(Vec<FsEntry>),
}

/// A path joined to a child name with the separator.
pub open spec fn spec_join(base: Seq<char>, name: Seq<char>) -> Seq<char> {
    base + "/"@ + name
}

/// The candidate paths contributed by one entry under `base`: nothing when
/// its name is excluded (an excluded directory is pruned whole, its contents
/// never considered); its joined path when it is a file; the expansion of
/// its entries when it is a directory.
pub open spec fn spec_expand_entry(srcs: Seq<Seq<char>>, base: Seq<char>, e: FsEntry) -> Seq<
    Seq<char>,
>
    decreases e,
{
    if spec_excluded_by(srcs, e.name@) {
        Seq::empty()
    } else {
        match e.node {
            FsNode::File => seq![spec_join(base, e.name@)],
            FsNode::Dir(entries) => spec_expand_entries(
                srcs,
                spec_join(base, e.name@),
                entries@,
                entries@.len() as int,
            ),
        }
    }
}

/// The candidate paths of the first `k` entries, in order.
pub open spec fn spec_expand_entries(
    srcs: Seq<Seq<char>>,
    base: Seq<char>,
    entries: Seq<FsEntry>,
    k: int,
) -> Seq<Seq<char>>
    decreases entries, k,
{
    if k <= 0 || entries.len() < k {
        Seq::empty()
    } else {
        spec_expand_entries(srcs, base, entries, k - 1) + spec_expand_entry(
            srcs,
            base,
            entries[k - 1],
        )
    }
}

/// The candidate paths of one user-supplied path. A file is included under
/// its given path unless its base name is excluded; a directory is expanded
/// recursively unless its base name is excluded. The same exclusion test
/// applies either way.
pub open spec fn spec_expand_one(srcs: Seq<Seq<char>>, path: Seq<char>, node: FsNode) -> Seq<
    Seq<char>,
>
    decreases node,
{
    match node {
        FsNode::File => {
            if spec_excluded_by(srcs, spec_file_name(path)) {
                Seq::empty()
            } else {
                seq![path]
            }
        },
        FsNode::Dir(entries) => {
            if spec_excluded_by(srcs, spec_file_name(path)) {
                Seq::empty()
            } else {
                spec_expand_entries(srcs, path, entries@, entries@.len() as int)
            }
        },
    }
}

/// The candidate paths of the first `k` user-supplied paths, in their
/// given order.
pub open spec fn spec_expand(srcs: Seq<Seq<char>>, inputs: Seq<(String, FsNode)>, k: int) -> Seq<
    Seq<char>,
>
    decreases inputs, k,
{
    if k <= 0 || inputs.len() < k {
        Seq::empty()
    } else {
        spec_expand(srcs, inputs, k - 1) + spec_expand_one(
            srcs,
            inputs[k - 1].0@,
            inputs[k - 1].1,
        )
    }
}

fn join_path(base: &str, name: &str) -> (r: String)
    ensures
        r@ == spec_join(base@, name@),
{
    let mut s = String::from_str(base);
    s.append("/");
    s.append(name);
    s
}

fn expand_entry(filter: &PatternFilter, base: &String, e: &FsEntry, out: &mut Vec<String>)
    ensures
        final(out)@.map_values(|s: String| s@) == old(out)@.map_values(|s: String| s@)
            + spec_expand_entry(filter.sources(), base@, *e),
    decreases *e,
{
    if filter.is_excluded(e.name.as_str()) {
        proof {
            assert(out@.map_values(|s: String| s@) =~= old(out)@.map_values(|s: String| s@)
                + spec_expand_entry(filter.sources(), base@, *e));
        }
        return ;
    }
    match &e.node {
        FsNode::File => {
            let p = join_path(base.as_str(), e.name.as_str());
            let ghost pv = p@;
            out.push(p);
            proof {
                assert(out@.map_values(|s: String| s@) =~= old(out)@.map_values(|s: String| s@)
                    + seq![pv]);
            }
        },
        FsNode::Dir(entries) => {
            let sub = join_path(base.as_str(), e.name.as_str());
            let mut i: usize = 0;
            while i < entries.len()
                invariant
                    i <= entries@.len(),
                    sub@ == spec_join(base@, e.name@),
                    !spec_excluded_by(filter.sources(), e.name@),
                    e.node == FsNode::Dir(*entries),
                    out@.map_values(|s: String| s@) == old(out)@.map_values(|s: String| s@)
                        + spec_expand_entries(filter.sources(), sub@, entries@, i as int),
                decreases entries@.len() - i,
            {
                proof {
                    assert(decreases_to!(*e => e.node));
                    assert(decreases_to!(e.node => e.node->Dir_0));
                    assert(e.node->Dir_0 == *entries);
                    assert(decreases_to!(*entries => entries@));
                    assert(decreases_to!(entries@ => entries@[i as int]));
                    assert(decreases_to!(*e => entries@[i as int]));
                }
                expand_entry(filter, &sub, &entries[i], out);
                i = i + 1;
            }
        },
    }
}

/// Expands user-supplied paths into the flat candidate list: files are kept
/// under their given path, directories are walked recursively, and excluded
/// or hidden names are pruned with their whole subtree. Input order across
/// the supplied paths is preserved.
pub fn expand(filter: &PatternFilter, inputs: &Vec<(String, FsNode)>) -> (r: Vec<String>)
    ensures
        r@.map_values(|s: String| s@) == spec_expand(
            filter.sources(),
            inputs@,
            inputs@.len() as int,
        ),
{
    let mut out: Vec<String> = Vec::new();
    let mut i: usize = 0;
    while i < inputs.len()
        invariant
            i <= inputs@.len(),
            out@.map_values(|s: String| s@) == spec_expand(filter.sources(), inputs@, i as int),
        decreases inputs@.len() - i,
    {
        let (path, node) = &inputs[i];
        match node {
            FsNode::File => {
                let name = file_name(path.as_str());
                if !filter.is_excluded(name.as_str()) {
                    let ghost pv = path@;
                    out.push(path.clone());
                    proof {
                        assert(out@.map_values(|s: String| s@) =~= spec_expand(
                            filter.sources(),
                            inputs@,
                            i as int,
                        ) + seq![pv]);
                    }
                } else {
                    proof {
                        assert(out@.map_values(|s: String| s@) =~= spec_expand(
                            filter.sources(),
                            inputs@,
                            i as int,
                        ) + Seq::<Seq<char>>::empty());
                    }
                }
            },
            FsNode::Dir(_) => {
                let name = file_name(path.as_str());
                if !filter.is_excluded(name.as_str()) {
                    expand_entry_top(filter, path, node, &mut out);
                } else {
                    proof {
                        assert(out@.map_values(|s: String| s@) =~= spec_expand(
                            filter.sources(),
                            inputs@,
                            i as int,
                        ) + Seq::<Seq<char>>::empty());
                    }
                }
            },
        }
        i = i + 1;
    }
    out
}

fn expand_entry_top(filter: &PatternFilter, path: &String, node: &FsNode, out: &mut Vec<String>)
    requires
        !spec_excluded_by(filter.sources(), spec_file_name(path@)),
    ensures
        final(out)@.map_values(|s: String| s@) == old(out)@.map_values(|s: String| s@)
            + spec_expand_one(filter.sources(), path@, *node),
{
    match node {
        FsNode::File => {
            let ghost pv = path@;
            out.push(path.clone());
            proof {
                assert(out@.map_values(|s: String| s@) =~= old(out)@.map_values(|s: String| s@)
                    + seq![pv]);
            }
        },
        FsNode::Dir(entries) => {
            let mut i: usize = 0;
            while i < entries.len()
                invariant
                    i <= entries@.len(),
                    *node == FsNode::Dir(*entries),
                    out@.map_values(|s: String| s@) == old(out)@.map_values(|s: String| s@)
                        + spec_expand_entries(filter.sources(), path@, entries@, i as int),
                decreases entries@.len() - i,
            {
                expand_entry(filter, path, &entries[i], out);
                i = i + 1;
            }
        },
    }
}

/// Entries with pairwise equal prefixes expand equally over that prefix.
proof fn lemma_expand_entries_prefix(
    srcs: Seq<Seq<char>>,
    base: Seq<char>,
    s1: Seq<FsEntry>,
    s2: Seq<FsEntry>,
    k: int,
)
    requires
        0 <= k <= s1.len(),
        k <= s2.len(),
        forall|j: int| 0 <= j < k ==> s1[j] == s2[j],
    ensures
        spec_expand_entries(srcs, base, s1, k) == spec_expand_entries(srcs, base, s2, k),
    decreases k,
{
    if k > 0 {
        lemma_expand_entries_prefix(srcs, base, s1, s2, k - 1);
    }
}

/// Pruning is total: an entry whose name is excluded contributes nothing,
/// and the expansion of a directory listing equals the expansion of the
/// same listing with that entry removed — its entire subtree is pruned.
pub proof fn lemma_excluded_entry_pruned(
    srcs: Seq<Seq<char>>,
    base: Seq<char>,
    entries: Seq<FsEntry>,
    i: int,
    k: int,
)
    requires
        0 <= i < entries.len(),
        spec_excluded_by(srcs, entries[i].name@),
        i < k <= entries.len(),
    ensures
        spec_expand_entries(srcs, base, entries, k) == spec_expand_entries(
            srcs,
            base,
            entries.remove(i),
            k - 1,
        ),
    decreases k,
{
    if k == i + 1 {
        assert(spec_expand_entry(srcs, base, entries[i]) =~= Seq::<Seq<char>>::empty());
        lemma_expand_entries_prefix(srcs, base, entries, entries.remove(i), i);
        assert(spec_expand_entries(srcs, base, entries, k) =~= spec_expand_entries(
            srcs,
            base,
            entries,
            i,
        ));
    } else {
        lemma_excluded_entry_pruned(srcs, base, entries, i, k - 1);
        assert(entries.remove(i)[k - 2] == entries[k - 1]);
    }
}

/// Exclusion is applied identically however a file arrives: a path given
/// directly is kept exactly when a walked entry of the same base name
/// would be kept.
pub proof fn lemma_exclusion_uniform(
    srcs: Seq<Seq<char>>,
    path: Seq<char>,
    base: Seq<char>,
    e: FsEntry,
)
    requires
        spec_file_name(path) == e.name@,
        e.node is File,
    ensures
        spec_expand_one(srcs, path, FsNode::File).len() > 0 <==> spec_expand_entry(
            srcs,
            base,
            e,
        ).len() > 0,
{
}

/// A hidden entry is pruned whatever the pattern list holds.
pub proof fn lemma_hidden_entry_pruned(srcs: Seq<Seq<char>>, base: Seq<char>, e: FsEntry)
    requires
        spec_hidden(e.name@),
    ensures
        spec_expand_entry(srcs, base, e) == Seq::<Seq<char>>::empty(),
{
}

} // verus!
