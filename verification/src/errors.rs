use vstd::prelude::*;

verus! {

use vstd::string::StringExecFns;

pub open spec fn spec_not_found_msg(path: Seq<char>) -> Seq<char> {
    "File not found: "@ + path
}

pub open spec fn spec_is_directory_msg(path: Seq<char>) -> Seq<char> {
    "Is a directory: "@ + path
}

pub open spec fn spec_binary_msg(path: Seq<char>) -> Seq<char> {
    "Binary file detected: "@ + path
}

pub open spec fn spec_too_large_msg(path: Seq<char>) -> Seq<char> {
    "File too large (>10MB): "@ + path
}

/// The error reported for a path that does not exist.
pub fn not_found_msg(path: &str) -> (r: String)
    ensures
        r@ == spec_not_found_msg(path@),
{
    let mut s = String::from_str("File not found: ");
    s.append(path);
    s
}

/// The error reported for a path that names a directory.
pub fn is_directory_msg(path: &str) -> (r: String)
    ensures
        r@ == spec_is_directory_msg(path@),
{
    let mut s = String::from_str("Is a directory: ");
    s.append(path);
    s
}

/// The error reported for a file whose leading bytes sniff as binary.
pub fn binary_msg(path: &str) -> (r: String)
    ensures
        r@ == spec_binary_msg(path@),
{
    let mut s = String::from_str("Binary file detected: ");
    s.append(path);
    s
}

/// The error reported for a non-binary file over the size budget.
pub fn too_large_msg(path: &str) -> (r: String)
    ensures
        r@ == spec_too_large_msg(path@),
{
    let mut s = String::from_str("File too large (>10MB): ");
    s.append(path);
    s
}

} // verus!
