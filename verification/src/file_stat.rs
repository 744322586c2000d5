//! What the file gateway reports about one path.

use vstd::prelude::*;

verus! {

/// Whether a path is a regular file or a directory, and its size in bytes.
#[derive(Clone, Copy, Debug, PartialEq, Eq, Structural)]
pub struct FileStat {
    pub is_file: bool,
    pub is_dir: bool,
    pub size: u64,
}

} // verus!
