use vstd::prelude::*;

use crate::mmap::{file_mapping, overwrite, write_count, MmapView, WriteBack};
use crate::protection::Protection;

verus! {

/// Writing `b` at offset `0` through a read-write mapping of a file holding
/// `contents`, then flushing synchronously, writes back `b` followed by the
/// file's original trailing bytes, unchanged.
pub proof fn lemma_round_trip(contents: Seq<u8>, b: Seq<u8>)
    requires
        contents.len() > 0,
        b.len() <= contents.len(),
    ensures
        ({
            let m = file_mapping(contents, Protection::ReadWrite);
            let written = m.with_bytes(overwrite(m.bytes, 0, b));
            &&& written.write_back(true) == WriteBack::Blocking
            &&& written.bytes == b + contents.subrange(b.len() as int, contents.len() as int)
        }),
{
    let m = file_mapping(contents, Protection::ReadWrite);
    assert(overwrite(m.bytes, 0, b) =~= b + contents.subrange(b.len() as int, contents.len() as int));
}

/// Whatever is written through a copy-on-write mapping, no flush ever writes
/// back to the file, so a fresh read-only mapping of the file holds its
/// original contents.
pub proof fn lemma_copy_isolation(contents: Seq<u8>, bytes: Seq<u8>, wait: bool)
    requires
        contents.len() > 0,
    ensures
        file_mapping(contents, Protection::ReadCopy).with_bytes(bytes).write_back(wait)
            == WriteBack::Skip,
        file_mapping(contents, Protection::Read).bytes == contents,
{
}

/// A buffer longer than the room left after `offset` has exactly
/// `len - offset` of its bytes written: the region keeps its length, its first
/// `offset` bytes, and takes the leading part of the buffer after them.
pub proof fn lemma_partial_write(m: MmapView, offset: int, buf: Seq<u8>)
    requires
        0 <= offset <= m.len(),
        m.len() < offset + buf.len(),
    ensures
        write_count(m.len() as int, offset, buf.len() as int) == m.len() - offset,
        overwrite(m.bytes, offset, buf) == m.bytes.subrange(0, offset) + buf.subrange(
            0,
            m.len() - offset,
        ),
{
    assert(overwrite(m.bytes, offset, buf) =~= m.bytes.subrange(0, offset) + buf.subrange(
        0,
        m.len() - offset,
    ));
}

} // verus!
