use vstd::prelude::*;

verus! {

use crate::MAX_TEXT_FILE_BYTES;

/// Whether `content_inspector::inspect` classifies these leading bytes as
/// binary content; a function of the bytes alone.
pub uninterp spec fn sniffs_binary(prefix: Seq<u8>) -> bool;

/// Relies on `content_inspector::inspect`: classifies a byte buffer as
/// binary or text from the bytes alone.
#[verifier::external_body]
fn inspect_is_binary(prefix: &[u8]) -> (r: bool)
    ensures
        r == sniffs_binary(prefix@),
{
    content_inspector::inspect(prefix) == content_inspector::ContentType::BINARY
}

/// What the plain-text strategy does after sniffing the first bytes of a
/// file, before any size is known.
#[derive(PartialEq, Eq, Structural, Clone, Copy, Debug)]
pub enum SniffVerdict {
    /// The file is empty: succeed with empty text.
    EmptyOk,
    /// The leading bytes sniff as binary: reject the file.
    Binary,
    /// The leading bytes look like text: go on to the size check.
    CheckSize,
}

pub open spec fn spec_sniff_verdict(prefix: Seq<u8>) -> SniffVerdict {
    if prefix.len() == 0 {
        SniffVerdict::EmptyOk
    } else if sniffs_binary(prefix) {
        SniffVerdict::Binary
    } else {
        SniffVerdict::CheckSize
    }
}

/// Decides what the plain-text strategy does from the first bytes read
/// (at most the sniff window) of the file.
pub fn sniff_verdict(prefix: &Vec<u8>) -> (v: SniffVerdict)
    ensures
        v == spec_sniff_verdict(prefix@),
{
    if prefix.len() == 0 {
        SniffVerdict::EmptyOk
    } else if inspect_is_binary(prefix.as_slice()) {
        SniffVerdict::Binary
    } else {
        SniffVerdict::CheckSize
    }
}

/// A non-binary file is rejected exactly when it is over the byte budget.
pub open spec fn spec_over_budget(size: u64) -> bool {
    size > MAX_TEXT_FILE_BYTES
}

/// Decides the size check of the plain-text strategy.
pub fn over_budget(size: u64) -> (r: bool)
    ensures
        r == spec_over_budget(size),
{
    size > MAX_TEXT_FILE_BYTES
}

/// An empty file passes: the sniff succeeds with empty text, never an error.
pub proof fn lemma_empty_file_ok(prefix: Seq<u8>)
    requires
        prefix.len() == 0,
    ensures
        spec_sniff_verdict(prefix) == SniffVerdict::EmptyOk,
{
}

/// Leading bytes that sniff as binary reject the file whatever its size:
/// the size check is never reached.
pub proof fn lemma_binary_rejected_at_any_size(prefix: Seq<u8>, size: u64)
    requires
        prefix.len() > 0,
        sniffs_binary(prefix),
    ensures
        spec_sniff_verdict(prefix) == SniffVerdict::Binary,
        !(spec_sniff_verdict(prefix) == SniffVerdict::CheckSize),
{
}

/// The size budget is sharp: one byte over the budget is rejected, the
/// budget itself is accepted.
pub proof fn lemma_size_budget_sharp()
    ensures
        !spec_over_budget(MAX_TEXT_FILE_BYTES),
        spec_over_budget((MAX_TEXT_FILE_BYTES + 1) as u64),
{
}

} // verus!
