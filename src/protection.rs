use vstd::prelude::*;

verus! {

/// Memory map protection.
///
/// Determines how a memory map may be used. If the memory map is backed by a
/// file, then the file must be opened with permissions matching the operations
/// that the protection allows.
#[derive(Clone, Copy, Debug, PartialEq, Eq, Structural)]
pub enum Protection {
    /// A read-only memory map. Writing to it is a programming error.
    Read,
    /// A read-write memory map. Writes reach the file on a flush or when the
    /// mapping is released.
    ReadWrite,
    /// A read, copy-on-write memory map. Writes stay in the mapping's own
    /// memory and never reach the file.
    ReadCopy,
}

/// The permissions with which the backing file of a mapping is opened.
#[derive(Clone, Copy, Debug, PartialEq, Eq, Structural)]
pub struct FileAccess {
    pub read: bool,
    pub write: bool,
}

impl Protection {
    /// Whether the mapping's bytes may be written.
    pub open spec fn spec_write(self) -> bool {
        self is ReadWrite || self is ReadCopy
    }

    /// Whether writes to the mapping are carried through to the backing file.
    pub open spec fn persists(self) -> bool {
        self is ReadWrite
    }

    /// Returns `true` if the `Protection` is writable.
    #[verifier::when_used_as_spec(spec_write)]
    pub fn write(self) -> (r: bool)
        ensures
            r == self.spec_write(),
    {
        match self {
            Protection::ReadWrite | Protection::ReadCopy => true,
            Protection::Read => false,
        }
    }

    /// The permissions the backing file needs: read always, and write for the
    /// writable modes (a copy-on-write mapping still needs a writable handle).
    pub fn as_open_options(self) -> (r: FileAccess)
        ensures
            r.read,
            r.write == self.write(),
    {
        FileAccess { read: true, write: self.write() }
    }
}

} // verus!
