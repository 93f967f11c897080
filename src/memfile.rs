use vstd::prelude::*;
use crate::device::{span, segment};
use crate::iobuf::splice;
use crate::vfs::written;
use crate::stat::{FileInfo, FileType};
use crate::vfs;
use crate::vfs::INode as _;

verus! {

/// Number of blocks of `block_size` bytes that `size` bytes take.
pub open spec fn blocks_for(size: int, block_size: int) -> int {
    if size == 0 {
        0
    } else {
        (size - 1) / block_size + 1
    }
}

/// A file object held in memory.
pub struct MemFile {
    bytes: Vec<u8>,
    kind: FileType,
    mode: u32,
    block_size: usize,
}

impl MemFile {
    #[verifier::type_invariant]
    closed spec fn block_size_positive(&self) -> bool {
        self.block_size > 0
    }


    /// An empty file of the given kind and mode, counted in blocks of
    /// `block_size` bytes.
    pub fn new(kind: FileType, mode: u32, block_size: usize) -> (r: MemFile)
        requires
            block_size > 0,
        ensures
            r.content() == Seq::<u8>::empty(),
            r.info_spec() == (FileInfo { size: 0, mode, type_: kind, blocks: 0 }),
    {
        MemFile { bytes: Vec::new(), kind, mode, block_size }
    }
}

impl vfs::INode for MemFile {
    closed spec fn content(&self) -> Seq<u8> {
        self.bytes@
    }

    closed spec fn info_spec(&self) -> FileInfo {
        FileInfo {
            size: self.bytes@.len() as usize,
            mode: self.mode,
            type_: self.kind,
            blocks: blocks_for(self.bytes@.len() as int, self.block_size as int) as usize,
        }
    }

    fn read_at(&self, offset: usize, buf: &mut [u8]) -> (r: Option<usize>)
        ensures
            ({
                let n = span(self.content().len() as int, offset as int, old(buf)@.len() as int);
                &&& r == Some(n as usize)
                &&& final(buf)@ == splice(old(buf)@, 0, segment(self.content(), offset as int, n))
            }),
    {
        let size = self.bytes.len();
        let want = buf.len();
        let n: usize = if offset >= size {
            0
        } else if want <= size - offset {
            want
        } else {
            size - offset
        };
        let ghost start = buf@;
        let mut i: usize = 0;
        while i < n
            invariant
                i <= n,
                n == span(size as int, offset as int, want as int),
                size == self.bytes@.len(),
                want == start.len(),
                buf@ == splice(start, 0, segment(self.bytes@, offset as int, i as int)),
            decreases n - i,
        {
            buf[i] = self.bytes[offset + i];
            i = i + 1;
            assert(buf@ =~= splice(start, 0, segment(self.bytes@, offset as int, i as int)));
        }
        Some(n)
    }

    fn write_at(&mut self, offset: usize, buf: &[u8]) -> (r: Option<usize>)
        ensures
            offset + buf@.len() <= usize::MAX ==> r == Some(buf@.len() as usize) && final(self).content()
                == written(old(self).content(), offset as int, buf@),
            offset + buf@.len() > usize::MAX ==> r is None && final(self).content() == old(self).content(),
            final(self).info_spec().mode == old(self).info_spec().mode,
            final(self).info_spec().type_ == old(self).info_spec().type_,
    {
        let len = buf.len();
        if offset > usize::MAX - len {
            return None;
        }
        let end = offset + len;
        proof {
            use_type_invariant(&*self);
        }
        let mut bytes = self.bytes.clone();
        let ghost before = self.bytes@;
        assert(bytes@ == before);
        while bytes.len() < end
            invariant
                bytes@.len() <= if before.len() >= end { before.len() as int } else { end as int },
                before.len() <= bytes@.len(),
                forall|j: int| 0 <= j < before.len() ==> bytes@[j] == before[j],
                forall|j: int| before.len() <= j < bytes@.len() ==> bytes@[j] == 0u8,
            decreases end - bytes@.len(),
        {
            bytes.push(0);
        }
        let mut i: usize = 0;
        while i < len
            invariant
                i <= len,
                len == buf@.len(),
                end == offset + len,
                bytes@.len() == (if before.len() >= end { before.len() as int } else { end as int }),
                forall|j: int|
                    0 <= j < bytes@.len() ==> bytes@[j] == (if offset <= j < offset + i {
                        buf@[j - offset]
                    } else if j < before.len() {
                        before[j]
                    } else {
                        0u8
                    }),
            decreases len - i,
        {
            bytes.set(offset + i, buf[i]);
            i = i + 1;
        }
        assert(bytes@ =~= written(before, offset as int, buf@));
        self.bytes = bytes;
        Some(len)
    }

    fn info(&self) -> (r: Result<FileInfo, ()>)
        ensures
            r == Ok::<FileInfo, ()>(self.info_spec()),
    {
        proof {
            use_type_invariant(self);
        }
        let size = self.bytes.len();
        let bs = self.block_size;
        let blocks = if size == 0 {
            0
        } else {
            assert((size - 1) as int / bs as int <= size - 1) by (nonlinear_arith)
                requires
                    bs > 0,
                    size >= 1,
            ;
            (size - 1) / bs + 1
        };
        Ok(FileInfo { size, mode: self.mode, type_: self.kind, blocks })
    }

    fn sync(&mut self) -> (r: Result<(), ()>)
        ensures
            r is Ok,
            *final(self) == *old(self),
    {
        Ok(())
    }
}

} // verus!
