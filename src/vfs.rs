use vstd::prelude::*;
use crate::device::{Device, span, segment};
use crate::iobuf::splice;
use crate::stat::FileInfo;

verus! {

/// `content` after `b` is written at `off`: the file grows to hold it, and
/// a gap before `off` reads as zeros.
pub open spec fn written(content: Seq<u8>, off: int, b: Seq<u8>) -> Seq<u8> {
    let size = if content.len() >= off + b.len() { content.len() as int } else { off + b.len() };
    Seq::new(
        size as nat,
        |i: int|
            if off <= i < off + b.len() {
                b[i - off]
            } else if i < content.len() {
                content[i]
            } else {
                0u8
            },
    )
}

/// The capabilities a file object of a filesystem offers to the kernel.
pub trait INode {
    /// The bytes the object holds.
    spec fn content(&self) -> Seq<u8>;

    /// What the object reports of itself whenever it reports anything.
    spec fn info_spec(&self) -> FileInfo;

    /// Reads from position `offset` into `buf`; the count of bytes read, or
    /// `None` where the object does not support reads.
    fn read_at(&self, offset: usize, buf: &mut [u8]) -> (r: Option<usize>)
        ensures
            final(buf)@.len() == old(buf)@.len(),
            r matches Some(n) ==> n == span(self.content().len() as int, offset as int, old(buf)@.len() as int)
                && final(buf)@ == splice(old(buf)@, 0, segment(self.content(), offset as int, n as int)),
            r is None ==> final(buf)@ == old(buf)@,
    ;

    /// Writes `buf` at position `offset`; the count of bytes written, or
    /// `None` where the object does not support writes.
    fn write_at(&mut self, offset: usize, buf: &[u8]) -> (r: Option<usize>)
        ensures
            r matches Some(n) ==> n == buf@.len() && final(self).content() == written(
                old(self).content(),
                offset as int,
                buf@,
            ),
            r is None ==> final(self).content() == old(self).content(),
    ;

    /// What the object reports of itself.
    fn info(&self) -> (r: Result<FileInfo, ()>)
        ensures
            r matches Ok(i) ==> i == self.info_spec() && i.size == self.content().len(),
    ;

    /// Flushes pending state.
    fn sync(&mut self) -> (r: Result<(), ()>)
        ensures
            final(self).content() == old(self).content(),
            final(self).info_spec() == old(self).info_spec(),
    ;
}

/// A filesystem that can be opened on a device it then owns.
pub trait FileSystem<D>: Sized {
    /// What opening on `device` may give. A filesystem that states nothing
    /// admits any result.
    open spec fn opens(device: Device<D>, result: Result<Self, ()>) -> bool {
        true
    }

    fn open(device: Device<D>) -> (r: Result<Self, ()>)
        ensures
            Self::opens(device, r),
    ;
}

} // verus!
