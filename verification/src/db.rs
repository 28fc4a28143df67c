//! What the database records of a stored file.
use vstd::prelude::*;

verus! {

/// A stored file: its id, the hex SHA-256 of its content, and its size in bytes.
pub struct File {
    pub id: String,
    pub hash: String,
    pub size: u64,
}

} // verus!
