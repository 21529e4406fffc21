use vstd::prelude::*;

pub mod classify;
pub mod driver;
pub mod errors;
pub mod media;
pub mod notebook;
pub mod pdf;
pub mod plain;
pub mod render;
pub mod session;
pub mod summary;
pub mod pattern;
pub mod strutil;
pub mod walk;

verus! {

/// Byte budget for the plain-text strategy: files larger than this are
/// rejected rather than read whole.
pub const MAX_TEXT_FILE_BYTES: u64 = 10485760;

/// True when `name` starts with the hidden-entry marker.
pub open spec fn spec_hidden(name: Seq<char>) -> bool {
    name.len() > 0 && name[0] == '.'
}

} // verus!
