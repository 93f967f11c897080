use vstd::prelude::*;
use crate::error::ErrorCode;
use crate::iobuf::{IoBuf, splice};

verus! {

/// How many of `want` bytes from position `off` lie inside `size` bytes.
pub open spec fn span(size: int, off: int, want: int) -> int {
    if off >= size {
        0
    } else if want <= size - off {
        want
    } else {
        size - off
    }
}

/// The `n` bytes of `s` from position `at` on.
pub open spec fn segment(s: Seq<u8>, at: int, n: int) -> Seq<u8> {
    Seq::new(n as nat, |i: int| s[at + i])
}

/// `after` is `before` advanced by `n` bytes, its memory set to `data`.
pub open spec fn moved(before: IoBuf, after: IoBuf, n: int, data: Seq<u8>) -> bool {
    &&& after.base == before.base + n
    &&& after.offset == before.offset + n
    &&& after.len == before.len
    &&& after.resident == before.resident - n
    &&& after.data@ == data
}

/// One transfer of a device that stores bytes: as many bytes of the window
/// as lie inside the store move, at the descriptor's offset, in the given
/// direction, and the descriptor advances past them.
pub open spec fn stored_io(
    before: Seq<u8>,
    after: Seq<u8>,
    buf: IoBuf,
    done: IoBuf,
    is_write: bool,
) -> bool {
    let n = span(before.len() as int, buf.offset as int, buf.resident as int);
    if is_write {
        &&& after == splice(before, buf.offset as int, buf.window().take(n))
        &&& moved(buf, done, n, buf.data@)
    } else {
        &&& after == before
        &&& moved(
            buf,
            done,
            n,
            splice(buf.data@, buf.base as int, segment(before, buf.offset as int, n)),
        )
    }
}

/// `d` is a descriptor over the whole of `data`, to move bytes at `offset`.
pub open spec fn fresh(d: IoBuf, data: Seq<u8>, offset: int) -> bool {
    &&& d.data@ == data
    &&& d.base == 0
    &&& d.offset == offset
    &&& d.len == data.len()
    &&& d.resident == data.len()
}

/// What a read of a buffer that held `before` comes to, where the driver
/// answered `ret` and left the descriptor as `done`: the count and the
/// buffer's bytes. There is a count only where the driver succeeded and left
/// a descriptor over as many bytes as the buffer, with no more left than
/// that; the count is what left the window.
pub open spec fn read_outcome(ret: ErrorCode, done: IoBuf, before: Seq<u8>) -> (Option<usize>, Seq<u8>) {
    if ret == ErrorCode::Success && done.resident <= before.len() && done.data@.len() == before.len() {
        (Some((before.len() - done.resident) as usize), done.data@)
    } else {
        (None, before)
    }
}

/// What a write of `len` bytes comes to, where the driver answered `ret` and
/// left the descriptor as `done`: a count where the driver succeeded and left
/// no more than `len`, the count being what left the window.
pub open spec fn write_outcome(ret: ErrorCode, done: IoBuf, len: int) -> Option<usize> {
    if ret == ErrorCode::Success && done.resident <= len {
        Some((len - done.resident) as usize)
    } else {
        None
    }
}

/// The kernel's operation slots of a device. `io` serves reads and writes;
/// `is_write` gives the direction.
pub trait DeviceDriver: Sized {
    /// Whether this device is a plain store of bytes; a device is none
    /// unless it says so.
    open spec fn is_store(&self) -> bool {
        false
    }

    /// What a store holds.
    open spec fn contents(&self) -> Seq<u8> {
        Seq::empty()
    }

    /// What one call of `io` may do: the device goes to `after`, the
    /// descriptor `handed` comes back as `back`, and the code is `ret`. A
    /// device that states nothing admits any outcome.
    open spec fn transfers(
        &self,
        after: Self,
        handed: IoBuf,
        back: IoBuf,
        is_write: bool,
        ret: ErrorCode,
    ) -> bool {
        true
    }

    fn open(&mut self, flags: u32) -> ErrorCode;

    fn close(&mut self) -> ErrorCode;

    fn io(&mut self, buf: &mut IoBuf, is_write: bool) -> (r: ErrorCode)
        requires
            old(buf).wf(),
        ensures
            old(self).transfers(*final(self), *old(buf), *final(buf), is_write, r),
            old(self).is_store() ==> {
                &&& r == ErrorCode::Success
                &&& final(self).is_store()
                &&& stored_io(old(self).contents(), final(self).contents(), *old(buf), *final(buf), is_write)
            },
    ;

    fn ioctl(&mut self, op: i32, data: &mut u8) -> ErrorCode;
}

/// A device the kernel hands over: its geometry and its driver.
pub struct Device<D> {
    pub blocks: usize,
    pub blocksize: usize,
    pub driver: D,
}

/// The bytes of `s`, copied into a vector.
fn copy_of(s: &[u8]) -> (r: Vec<u8>)
    ensures
        r@ == s@,
{
    let mut r: Vec<u8> = Vec::new();
    let mut i: usize = 0;
    while i < s.len()
        invariant
            i <= s@.len(),
            r@ == s@.take(i as int),
        decreases s@.len() - i,
    {
        r.push(s[i]);
        i = i + 1;
        assert(r@ =~= s@.take(i as int));
    }
    assert(r@ =~= s@);
    r
}

/// Ends a read whose descriptor the driver left as `done` with code `ret`:
/// where the driver succeeded and left a descriptor over as many bytes as
/// `buf` holds, `buf` takes its bytes and the count is what left the window.
/// Otherwise `None`, and `buf` is left as it was.
pub fn finish_read(ret: ErrorCode, done: &IoBuf, buf: &mut [u8]) -> (r: Option<usize>)
    ensures
        final(buf)@.len() == old(buf)@.len(),
        (r, final(buf)@) == read_outcome(ret, *done, old(buf)@),
{
    let len = buf.len();
    if ret != ErrorCode::Success || done.resident as usize > len || done.data.len() != len {
        return None;
    }
    let mut i: usize = 0;
    while i < len
        invariant
            len == buf@.len(),
            done.data@.len() == len,
            i <= len,
            forall|j: int| 0 <= j < i ==> buf@[j] == done.data@[j],
        decreases len - i,
    {
        buf[i] = done.data[i];
        i = i + 1;
    }
    assert(buf@ =~= done.data@);
    Some(len - done.resident as usize)
}

/// Ends a write of `len` bytes whose descriptor the driver left as `done`
/// with code `ret`: the count is what left the window, or `None` where the
/// driver failed or left more than was asked.
pub fn finish_write(ret: ErrorCode, done: &IoBuf, len: usize) -> (r: Option<usize>)
    ensures
        r == write_outcome(ret, *done, len as int),
{
    if ret != ErrorCode::Success || done.resident as usize > len {
        return None;
    }
    Some(len - done.resident as usize)
}

impl<D: DeviceDriver> Device<D> {
    pub fn new(blocks: usize, blocksize: usize, driver: D) -> (r: Self)
        ensures
            r.blocks == blocks,
            r.blocksize == blocksize,
            r.driver == driver,
    {
        Device { blocks, blocksize, driver }
    }

    /// Reads into `buf` from position `offset` through the driver's `io`
    /// slot; the count of bytes read. `None` where the transfer window does
    /// not fit the kernel's descriptor, or the driver fails.
    pub fn read_at(&mut self, offset: usize, buf: &mut [u8]) -> (r: Option<usize>)
        ensures
            final(self).blocks == old(self).blocks,
            final(self).blocksize == old(self).blocksize,
            final(buf)@.len() == old(buf)@.len(),
            r matches Some(n) ==> n <= old(buf)@.len(),
            offset + old(buf)@.len() > i32::MAX ==> r is None && final(buf)@ == old(buf)@
                && *final(self) == *old(self),
            offset + old(buf)@.len() <= i32::MAX ==> exists|handed: IoBuf, back: IoBuf, ret: ErrorCode|
                #[trigger] old(self).driver.transfers(final(self).driver, handed, back, false, ret)
                    && fresh(handed, old(buf)@, offset as int)
                    && (r, final(buf)@) == read_outcome(ret, back, old(buf)@),
            old(self).driver.is_store() && offset + old(buf)@.len() <= i32::MAX ==> {
                let c = old(self).driver.contents();
                let n = span(c.len() as int, offset as int, old(buf)@.len() as int);
                &&& r == Some(n as usize)
                &&& final(buf)@ == splice(old(buf)@, 0, segment(c, offset as int, n))
                &&& final(self).driver.is_store()
                &&& final(self).driver.contents() == c
            },
    {
        let len = buf.len();
        let io_buf = IoBuf::new(copy_of(buf), offset);
        let mut io_buf = match io_buf {
            Some(b) => b,
            None => return None,
        };
        let ghost handed = io_buf;
        let ghost d0 = self.driver;
        let ret = self.driver.io(&mut io_buf, false);
        let ghost back = io_buf;
        assert(d0.transfers(self.driver, handed, back, false, ret));
        let r = finish_read(ret, &io_buf, buf);
        assert(fresh(handed, old(buf)@, offset as int));
        assert((r, buf@) == read_outcome(ret, back, old(buf)@));
        r
    }

    /// Writes `buf` at position `offset` through the driver's `io` slot; the
    /// count of bytes written. `None` where the transfer window does not fit
    /// the kernel's descriptor, or the driver fails.
    pub fn write_at(&mut self, offset: usize, buf: &[u8]) -> (r: Option<usize>)
        ensures
            final(self).blocks == old(self).blocks,
            final(self).blocksize == old(self).blocksize,
            r matches Some(n) ==> n <= buf@.len(),
            offset + buf@.len() > i32::MAX ==> r is None && *final(self) == *old(self),
            offset + buf@.len() <= i32::MAX ==> exists|handed: IoBuf, back: IoBuf, ret: ErrorCode|
                #[trigger] old(self).driver.transfers(final(self).driver, handed, back, true, ret)
                    && fresh(handed, buf@, offset as int)
                    && r == write_outcome(ret, back, buf@.len() as int),
            old(self).driver.is_store() && offset + buf@.len() <= i32::MAX ==> {
                let c = old(self).driver.contents();
                let n = span(c.len() as int, offset as int, buf@.len() as int);
                &&& r == Some(n as usize)
                &&& final(self).driver.is_store()
                &&& final(self).driver.contents() == splice(c, offset as int, buf@.take(n))
            },
    {
        let len = buf.len();
        let io_buf = IoBuf::new(copy_of(buf), offset);
        let mut io_buf = match io_buf {
            Some(b) => b,
            None => return None,
        };
        assert(io_buf.window() =~= buf@);
        let ghost handed = io_buf;
        let ghost d0 = self.driver;
        let ret = self.driver.io(&mut io_buf, true);
        let ghost back = io_buf;
        assert(d0.transfers(self.driver, handed, back, true, ret));
        let r = finish_write(ret, &io_buf, len);
        assert(fresh(handed, buf@, offset as int));
        r
    }
}

/// Writing bytes to a store and reading `k` of them back from the same
/// position gives back the bytes written, as many as lie inside the store.
pub proof fn lemma_round_trip(store: Seq<u8>, offset: int, bytes: Seq<u8>, k: int)
    requires
        0 <= offset,
        0 <= k <= bytes.len(),
    ensures
        ({
            let written = splice(store, offset, bytes.take(span(store.len() as int, offset, bytes.len() as int)));
            let m = span(written.len() as int, offset, k);
            &&& written.len() == store.len()
            &&& m == span(store.len() as int, offset, k)
            &&& segment(written, offset, m) == bytes.take(m)
        }),
{
    let n = span(store.len() as int, offset, bytes.len() as int);
    let written = splice(store, offset, bytes.take(n));
    let m = span(written.len() as int, offset, k);
    assert(m <= n);
    assert(segment(written, offset, m) =~= bytes.take(m));
}

} // verus!
