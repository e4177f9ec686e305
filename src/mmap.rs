use vstd::prelude::*;

use crate::error::MapError;
use crate::protection::Protection;

verus! {

/// What backs a mapping's bytes.
#[derive(Clone, Copy, Debug, PartialEq, Eq, Structural)]
pub enum Backing {
    /// The bytes mirror an open file.
    File,
    /// The bytes are private memory, zero-filled when the mapping is made.
    Anonymous,
}

/// What a flush has to do with the backing file.
#[derive(Clone, Copy, Debug, PartialEq, Eq, Structural)]
pub enum WriteBack {
    /// Nothing reaches the file: the mapping is anonymous, read-only or
    /// copy-on-write.
    Skip,
    /// Write the whole region to the file and wait until it is durable.
    Blocking,
    /// Write the whole region to the file without waiting for durability.
    Background,
}

/// The abstract state of a memory map.
pub struct MmapView {
    /// The mapped bytes; their number never changes after the mapping is made.
    pub bytes: Seq<u8>,
    pub prot: Protection,
    pub backing: Backing,
}

/// `n` zero bytes.
pub open spec fn zeros(n: nat) -> Seq<u8> {
    Seq::new(n, |i: int| 0u8)
}

/// `bytes` with `buf` laid over it from `offset` on; what would fall past the
/// end of `bytes` is dropped.
pub open spec fn overwrite(bytes: Seq<u8>, offset: int, buf: Seq<u8>) -> Seq<u8> {
    Seq::new(
        bytes.len(),
        |i: int|
            if offset <= i < offset + buf.len() {
                buf[i - offset]
            } else {
                bytes[i]
            },
    )
}

/// How many bytes of an `n`-byte buffer fit in a region of `len` bytes from
/// `offset` on.
pub open spec fn write_count(len: int, offset: int, n: int) -> int {
    if n <= len - offset {
        n
    } else {
        len - offset
    }
}

/// The mapping made over a file whose contents are `contents`.
pub open spec fn file_mapping(contents: Seq<u8>, prot: Protection) -> MmapView {
    MmapView { bytes: contents, prot, backing: Backing::File }
}

/// The anonymous mapping of `len` bytes.
pub open spec fn anonymous_mapping(len: nat, prot: Protection) -> MmapView {
    MmapView { bytes: zeros(len), prot, backing: Backing::Anonymous }
}

impl MmapView {
    /// Every live mapping holds at least one byte.
    pub open spec fn wf(self) -> bool {
        self.bytes.len() > 0
    }

    pub open spec fn len(self) -> nat {
        self.bytes.len()
    }

    /// Whether a flush carries the bytes through to a file.
    pub open spec fn persists(self) -> bool {
        self.backing is File && self.prot.persists()
    }

    /// What a flush does: `wait` for the synchronous flush.
    pub open spec fn write_back(self, wait: bool) -> WriteBack {
        if !self.persists() {
            WriteBack::Skip
        } else if wait {
            WriteBack::Blocking
        } else {
            WriteBack::Background
        }
    }

    /// The same mapping holding `bytes`.
    pub open spec fn with_bytes(self, bytes: Seq<u8>) -> MmapView {
        MmapView { bytes, prot: self.prot, backing: self.backing }
    }
}

/// A memory-mapped buffer.
///
/// A file-backed `Mmap` holds a file's bytes; changes reach the file only
/// through a flush, and only for `Protection::ReadWrite`. An anonymous `Mmap`
/// is a zero-filled in-memory byte buffer.
pub struct Mmap {
    region: Vec<u8>,
    prot: Protection,
    backing: Backing,
}

impl View for Mmap {
    type V = MmapView;

    closed spec fn view(&self) -> MmapView {
        MmapView { bytes: self.region@, prot: self.prot, backing: self.backing }
    }
}

impl Mmap {
    /// Opens a file-backed memory map over a file whose contents are
    /// `contents`. An empty file cannot be mapped.
    pub fn open(contents: Vec<u8>, prot: Protection) -> (r: Result<Mmap, MapError>)
        ensures
            contents@.len() == 0 <==> r is Err,
            r is Err ==> r->Err_0 == MapError::ZeroLength,
            r is Ok ==> r->Ok_0@ == file_mapping(contents@, prot),
            r is Ok ==> r->Ok_0@.wf(),
    {
        if contents.len() == 0 {
            return Err(MapError::ZeroLength);
        }
        let m = Mmap { region: contents, prot, backing: Backing::File };
        proof {
            assert(m@ == file_mapping(contents@, prot));
        }
        Ok(m)
    }

    /// Opens an anonymous memory map of `len` zero bytes.
    pub fn anonymous(len: usize, prot: Protection) -> (r: Result<Mmap, MapError>)
        ensures
            len == 0 <==> r is Err,
            r is Err ==> r->Err_0 == MapError::ZeroLength,
            r is Ok ==> r->Ok_0@ == anonymous_mapping(len as nat, prot),
            r is Ok ==> r->Ok_0@.wf(),
    {
        if len == 0 {
            return Err(MapError::ZeroLength);
        }
        let mut region: Vec<u8> = Vec::with_capacity(len);
        let mut i: usize = 0;
        while i < len
            invariant
                i <= len,
                region@ == zeros(i as nat),
            decreases len - i,
        {
            region.push(0u8);
            i += 1;
            proof {
                assert(region@ =~= zeros(i as nat));
            }
        }
        let m = Mmap { region, prot, backing: Backing::Anonymous };
        proof {
            assert(m@ == anonymous_mapping(len as nat, prot));
        }
        Ok(m)
    }

    /// Decides what a synchronous flush does. When the result is
    /// `WriteBack::Blocking`, every byte of the mapping is to be written to
    /// the file and the call completes only once that is durable; otherwise
    /// nothing is to be done and the flush succeeds.
    pub fn flush(&self) -> (r: WriteBack)
        ensures
            r == self@.write_back(true),
    {
        self.write_back(true)
    }

    /// Decides what an asynchronous flush does: the same as `flush`, but the
    /// write-back is only started, not awaited.
    pub fn flush_async(&self) -> (r: WriteBack)
        ensures
            r == self@.write_back(false),
    {
        self.write_back(false)
    }

    fn write_back(&self, wait: bool) -> (r: WriteBack)
        ensures
            r == self@.write_back(wait),
    {
        match (self.backing, self.prot) {
            (Backing::File, Protection::ReadWrite) => if wait {
                WriteBack::Blocking
            } else {
                WriteBack::Background
            },
            _ => WriteBack::Skip,
        }
    }

    /// Returns the length of the memory map.
    pub fn len(&self) -> (r: usize)
        ensures
            r == self@.len(),
    {
        self.region.len()
    }

    /// The protection the mapping was made with.
    pub fn protection(&self) -> (r: Protection)
        ensures
            r == self@.prot,
    {
        self.prot
    }

    /// What backs the mapping.
    pub fn backing(&self) -> (r: Backing)
        ensures
            r == self@.backing,
    {
        self.backing
    }

    /// The whole mapped region.
    pub fn as_slice(&self) -> (r: &[u8])
        ensures
            r@ == self@.bytes,
    {
        self.region.as_slice()
    }

    /// The byte at `index`, or `OutOfBounds` past the end.
    pub fn get(&self, index: usize) -> (r: Result<u8, MapError>)
        ensures
            index < self@.len() <==> r is Ok,
            r is Ok ==> r->Ok_0 == self@.bytes[index as int],
            r is Err ==> r->Err_0 == MapError::OutOfBounds,
    {
        if index < self.region.len() {
            Ok(self.region[index])
        } else {
            Err(MapError::OutOfBounds)
        }
    }

    /// The bytes in `start..end`, or `OutOfBounds` where that is no range
    /// within the mapping.
    pub fn range(&self, start: usize, end: usize) -> (r: Result<&[u8], MapError>)
        ensures
            start <= end <= self@.len() <==> r is Ok,
            r is Ok ==> r->Ok_0@ == self@.bytes.subrange(start as int, end as int),
            r is Err ==> r->Err_0 == MapError::OutOfBounds,
    {
        if start <= end && end <= self.region.len() {
            Ok(vstd::slice::slice_subrange(self.region.as_slice(), start, end))
        } else {
            Err(MapError::OutOfBounds)
        }
    }

    /// The bytes from `start` to the end, or `OutOfBounds` when `start` is past
    /// the end.
    pub fn range_from(&self, start: usize) -> (r: Result<&[u8], MapError>)
        ensures
            start <= self@.len() <==> r is Ok,
            r is Ok ==> r->Ok_0@ == self@.bytes.subrange(start as int, self@.len() as int),
            r is Err ==> r->Err_0 == MapError::OutOfBounds,
    {
        self.range(start, self.region.len())
    }

    /// The first `end` bytes, or `OutOfBounds` when `end` is past the end.
    pub fn range_to(&self, end: usize) -> (r: Result<&[u8], MapError>)
        ensures
            end <= self@.len() <==> r is Ok,
            r is Ok ==> r->Ok_0@ == self@.bytes.subrange(0, end as int),
            r is Err ==> r->Err_0 == MapError::OutOfBounds,
    {
        self.range(0, end)
    }

    /// Sets the byte at `index`, or returns `OutOfBounds` past the end.
    /// Writing to a read-only mapping is a programming error.
    pub fn set(&mut self, index: usize, value: u8) -> (r: Result<(), MapError>)
        requires
            old(self)@.prot.spec_write(),
        ensures
            index < old(self)@.len() <==> r is Ok,
            r is Ok ==> final(self)@ == old(self)@.with_bytes(
                old(self)@.bytes.update(index as int, value),
            ),
            r is Err ==> r->Err_0 == MapError::OutOfBounds && final(self)@ == old(self)@,
    {
        if index < self.region.len() {
            self.region.set(index, value);
            Ok(())
        } else {
            Err(MapError::OutOfBounds)
        }
    }

    /// Writes as much of `buf` as fits from `offset` on and returns how many
    /// bytes that was; never writes past the end. `OutOfBounds` when `offset`
    /// is past the end. Writing to a read-only mapping is a programming error.
    pub fn write(&mut self, offset: usize, buf: &[u8]) -> (r: Result<usize, MapError>)
        requires
            old(self)@.prot.spec_write(),
        ensures
            offset <= old(self)@.len() <==> r is Ok,
            r is Ok ==> r->Ok_0 == write_count(old(self)@.len() as int, offset as int, buf@.len() as int),
            r is Ok ==> final(self)@ == old(self)@.with_bytes(overwrite(old(self)@.bytes, offset as int, buf@)),
            r is Err ==> r->Err_0 == MapError::OutOfBounds && final(self)@ == old(self)@,
    {
        let len = self.region.len();
        if offset > len {
            return Err(MapError::OutOfBounds);
        }
        let count: usize = if buf.len() <= len - offset {
            buf.len()
        } else {
            len - offset
        };
        let ghost before = self.region@;
        let mut i: usize = 0;
        while i < count
            invariant
                count == write_count(len as int, offset as int, buf@.len() as int),
                len == before.len(),
                offset <= len,
                i <= count,
                self.region@.len() == len,
                self.prot == old(self).prot,
                self.backing == old(self).backing,
                forall|j: int|
                    0 <= j < len ==> #[trigger] self.region@[j] == if offset <= j < offset + i {
                        buf@[j - offset]
                    } else {
                        before[j]
                    },
            decreases count - i,
        {
            self.region.set(offset + i, buf[i]);
            i += 1;
        }
        proof {
            assert(self.region@ =~= overwrite(before, offset as int, buf@));
        }
        Ok(count)
    }

    /// Writes all of `buf` from `offset` on. Where it does not fit, the part
    /// that fits is written and `WriteZero` is returned; `OutOfBounds` when
    /// `offset` is past the end. Writing to a read-only mapping is a
    /// programming error.
    pub fn write_all(&mut self, offset: usize, buf: &[u8]) -> (r: Result<(), MapError>)
        requires
            old(self)@.prot.spec_write(),
        ensures
            r is Ok <==> offset as int + buf@.len() <= old(self)@.len(),
            r == Err::<(), MapError>(MapError::OutOfBounds) <==> offset > old(self)@.len(),
            r == Err::<(), MapError>(MapError::WriteZero) <==> offset <= old(self)@.len()
                < offset as int + buf@.len(),
            offset <= old(self)@.len() ==> final(self)@ == old(self)@.with_bytes(
                overwrite(old(self)@.bytes, offset as int, buf@),
            ),
            offset > old(self)@.len() ==> final(self)@ == old(self)@,
    {
        match self.write(offset, buf) {
            Ok(n) => if n == buf.len() {
                Ok(())
            } else {
                Err(MapError::WriteZero)
            },
            Err(e) => Err(e),
        }
    }
}

} // verus!
