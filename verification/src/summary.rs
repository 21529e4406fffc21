use vstd::prelude::*;

verus! {

use crate::classify::{spec_file_name, spec_extension_raw, file_name, extension_raw};
use vstd::string::StringExecFns;

/// The listing-mode summary of one successfully extracted file.
pub struct FileNode {
    pub path: String,
    pub name: String,
    pub char_count: usize,
    pub size_bytes: u64,
    pub extension: String,
}

/// The mathematical content of a `FileNode`.
pub struct FileNodeView {
    pub path: Seq<char>,
    pub name: Seq<char>,
    pub char_count: nat,
    pub size_bytes: u64,
    pub extension: Seq<char>,
}

impl View for FileNode {
    type V = FileNodeView;

    open spec fn view(&self) -> FileNodeView {
        FileNodeView {
            path: self.path@,
            name: self.name@,
            char_count: self.char_count as nat,
            size_bytes: self.size_bytes,
            extension: self.extension@,
        }
    }
}

/// The node a successful extraction yields: the path, its base name and
/// raw extension, the byte length of the extracted text, and the observed
/// file size.
pub open spec fn spec_file_node(path: Seq<char>, size: u64, content: Seq<char>) -> FileNodeView {
    FileNodeView {
        path: path,
        name: spec_file_name(path),
        char_count: (vstd::utf8::encode_utf8(content).len() as usize) as nat,
        size_bytes: size,
        extension: spec_extension_raw(path),
    }
}

/// The nodes of the successful outcomes among the first `k` items, in
/// their given order.
pub open spec fn spec_nodes_upto(items: Seq<(String, u64, Result<String, String>)>, k: int) -> Seq<
    FileNodeView,
>
    decreases k,
{
    if k <= 0 || items.len() < k {
        Seq::empty()
    } else {
        spec_nodes_upto(items, k - 1) + (match items[k - 1].2 {
            Ok(content) => seq![
                spec_file_node(items[k - 1].0@, items[k - 1].1, content@),
            ],
            Err(_) => Seq::empty(),
        })
    }
}

/// The error messages of the failed outcomes among the first `k` items,
/// in their given order.
pub open spec fn spec_errors_upto(items: Seq<(String, u64, Result<String, String>)>, k: int) -> Seq<
    Seq<char>,
>
    decreases k,
{
    if k <= 0 || items.len() < k {
        Seq::empty()
    } else {
        spec_errors_upto(items, k - 1) + (match items[k - 1].2 {
            Ok(_) => Seq::empty(),
            Err(msg) => seq![msg@],
        })
    }
}

/// The listing-mode result: the nodes of the files that extracted, and
/// the messages of those that failed. The two lists partition the
/// candidates; no ordering promise is made beyond the given item order.
pub struct Summary {
    pub files: Vec<FileNode>,
    pub errors: Vec<String>,
}

/// Partitions per-file outcomes into file nodes and error messages. Every
/// item is accounted for exactly once: a node for a success, a message for
/// a failure, so the two lengths always sum to the number of items.
pub fn summarize(items: &Vec<(String, u64, Result<String, String>)>) -> (r: Summary)
    ensures
        r.files@.map_values(|n: FileNode| n@) == spec_nodes_upto(items@, items@.len() as int),
        r.errors@.map_values(|e: String| e@) == spec_errors_upto(items@, items@.len() as int),
        r.files@.len() + r.errors@.len() == items@.len(),
{
    let mut files: Vec<FileNode> = Vec::new();
    let mut errors: Vec<String> = Vec::new();
    let mut i: usize = 0;
    while i < items.len()
        invariant
            i <= items@.len(),
            files@.map_values(|n: FileNode| n@) == spec_nodes_upto(items@, i as int),
            errors@.map_values(|e: String| e@) == spec_errors_upto(items@, i as int),
            files@.len() + errors@.len() == i,
        decreases items@.len() - i,
    {
        let (path, size, outcome) = &items[i];
        match outcome {
            Ok(content) => {
                let node = FileNode {
                    path: path.clone(),
                    name: file_name(path.as_str()),
                    char_count: content.as_str().len(),
                    size_bytes: *size,
                    extension: extension_raw(path.as_str()),
                };
                let ghost nv = node@;
                files.push(node);
                proof {
                    assert(files@.map_values(|n: FileNode| n@) =~~= spec_nodes_upto(
                        items@,
                        i as int,
                    ).push(nv));
                    assert(nv == spec_file_node(items@[i as int].0@, items@[i as int].1, items@[i as int].2->Ok_0@));
                    assert(files@.map_values(|n: FileNode| n@) =~~= spec_nodes_upto(
                        items@,
                        i + 1 as int,
                    ));
                    assert(errors@.map_values(|e: String| e@) =~= spec_errors_upto(
                        items@,
                        i + 1 as int,
                    ));
                }
            },
            Err(msg) => {
                let ghost mv = msg@;
                errors.push(msg.clone());
                proof {
                    assert(errors@.map_values(|e: String| e@) =~= spec_errors_upto(
                        items@,
                        i as int,
                    ).push(mv));
                    assert(errors@.map_values(|e: String| e@) =~= spec_errors_upto(
                        items@,
                        i + 1 as int,
                    ));
                    assert(files@.map_values(|n: FileNode| n@) =~= spec_nodes_upto(
                        items@,
                        i + 1 as int,
                    ));
                }
            },
        }
        i = i + 1;
    }
    Summary { files, errors }
}

/// Every candidate is accounted for exactly once: over any per-candidate
/// outcomes, the partition's two lengths sum to the number of candidates.
pub proof fn lemma_partition_total(items: Seq<(String, u64, Result<String, String>)>, k: int)
    requires
        0 <= k <= items.len(),
    ensures
        spec_nodes_upto(items, k).len() + spec_errors_upto(items, k).len() == k,
    decreases k,
{
    if k > 0 {
        lemma_partition_total(items, k - 1);
    }
}

} // verus!
