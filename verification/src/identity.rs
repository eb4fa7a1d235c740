//! The identity of a file, independent of the names it goes by.
use vstd::prelude::*;

verus! {

/// Names one file on one device: two directory entries are hard links to the
/// same file exactly when their identities are equal.
#[derive(Clone, Copy, Debug, PartialEq, Eq, Hash, Structural)]
pub struct FileIdentity {
    /// The device that holds the file.
    pub dev: u64,
    /// The file's number on that device.
    pub ino: u64,
}

impl FileIdentity {
    /// Do the two identities name the same file?
    pub fn same_file(&self, other: &FileIdentity) -> (same: bool)
        ensures
            same == (self.dev == other.dev && self.ino == other.ino),
            same == (*self == *other),
    {
        self.dev == other.dev && self.ino == other.ino
    }
}

} // verus!
