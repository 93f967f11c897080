use vstd::prelude::*;
use crate::device::{DeviceDriver, span, segment, stored_io};
use crate::error::ErrorCode;
use crate::iobuf::{IoBuf, splice};

verus! {

/// A device held in memory: a plain store of bytes.
pub struct MemDisk {
    bytes: Vec<u8>,
}

impl MemDisk {
    /// A store of `size` zero bytes.
    pub fn new(size: usize) -> (r: MemDisk)
        ensures
            r.contents() == Seq::new(size as nat, |i: int| 0u8),
    {
        let mut bytes: Vec<u8> = Vec::new();
        let mut i: usize = 0;
        while i < size
            invariant
                i <= size,
                bytes@ == Seq::new(i as nat, |j: int| 0u8),
            decreases size - i,
        {
            bytes.push(0);
            i = i + 1;
            assert(bytes@ =~= Seq::new(i as nat, |j: int| 0u8));
        }
        MemDisk { bytes }
    }

    /// The number of bytes held.
    pub fn size(&self) -> (r: usize)
        ensures
            r == self.contents().len(),
    {
        self.bytes.len()
    }
}

impl DeviceDriver for MemDisk {
    open spec fn is_store(&self) -> bool {
        true
    }

    closed spec fn contents(&self) -> Seq<u8> {
        self.bytes@
    }

    open spec fn transfers(
        &self,
        after: Self,
        handed: IoBuf,
        back: IoBuf,
        is_write: bool,
        ret: ErrorCode,
    ) -> bool {
        &&& ret == ErrorCode::Success
        &&& stored_io(self.contents(), after.contents(), handed, back, is_write)
    }

    fn open(&mut self, flags: u32) -> ErrorCode {
        ErrorCode::Success
    }

    fn close(&mut self) -> ErrorCode {
        ErrorCode::Success
    }

    fn io(&mut self, buf: &mut IoBuf, is_write: bool) -> (r: ErrorCode) {
        let size = self.bytes.len();
        let off = buf.offset as usize;
        let want = buf.resident as usize;
        let n: usize = if off >= size {
            0
        } else if want <= size - off {
            want
        } else {
            size - off
        };
        assert(n == span(size as int, off as int, want as int));
        let ghost before = self.bytes@;
        let ghost start = *buf;
        let base = buf.base;
        let dlen = buf.data.len();
        let mut i: usize = 0;
        if is_write {
            while i < n
                invariant
                    i <= n,
                    n == span(size as int, off as int, want as int),
                    buf.wf(),
                    *buf == start,
                    off == start.offset,
                    base == start.base,
                    want == start.resident,
                    dlen == start.data@.len(),
                    self.bytes@.len() == size,
                    before.len() == size,
                    self.bytes@ == splice(before, off as int, start.window().take(i as int)),
                decreases n - i,
            {
                let b = buf.data[base + i];
                self.bytes.set(off + i, b);
                i = i + 1;
                assert(self.bytes@ =~= splice(before, off as int, start.window().take(i as int)));
            }
            assert(start.window().take(i as int) =~= start.window().take(n as int));
        } else {
            while i < n
                invariant
                    i <= n,
                    n == span(size as int, off as int, want as int),
                    self.bytes@ == before,
                    before.len() == size,
                    buf.base == start.base,
                    buf.offset == start.offset,
                    buf.len == start.len,
                    buf.resident == start.resident,
                    off == start.offset,
                    base == start.base,
                    want == start.resident,
                    dlen == start.data@.len(),
                    start.wf(),
                    buf.data@ == splice(start.data@, base as int, segment(before, off as int, i as int)),
                decreases n - i,
            {
                let b = self.bytes[off + i];
                buf.data.set(base + i, b);
                i = i + 1;
                assert(buf.data@ =~= splice(start.data@, base as int, segment(before, off as int, i as int)));
            }
        }
        buf.skip(n);
        ErrorCode::Success
    }

    fn ioctl(&mut self, op: i32, data: &mut u8) -> ErrorCode {
        ErrorCode::Unimplemented
    }
}

} // verus!
