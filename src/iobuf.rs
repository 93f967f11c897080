use vstd::prelude::*;

verus! {

/// The kernel's buffer descriptor: a transfer window over `data`.
///
/// `base` is the position of the descriptor's base pointer inside `data`,
/// `offset` the position in the file or device that the next byte moves to or
/// from, `len` the length that was requested and `resident` what is left.
pub struct IoBuf {
    pub data: Vec<u8>,
    pub base: usize,
    pub offset: i32,
    pub len: u32,
    pub resident: u32,
}

/// `s` with the bytes from position `at` on replaced by `piece`, as far as
/// `s` reaches.
pub open spec fn splice(s: Seq<u8>, at: int, piece: Seq<u8>) -> Seq<u8> {
    Seq::new(s.len(), |i: int| if at <= i < at + piece.len() { piece[i - at] } else { s[i] })
}

impl IoBuf {
    /// The window lies inside `data`, what is left never exceeds what was
    /// requested, and the end of the window is a position the descriptor's
    /// signed offset can hold.
    pub open spec fn wf(&self) -> bool {
        &&& self.base + self.resident <= self.data@.len() <= usize::MAX
        &&& self.resident <= self.len
        &&& 0 <= self.offset
        &&& self.offset + self.resident <= i32::MAX
    }

    /// Both descriptors hold the same cursor over the same bytes.
    pub open spec fn same(&self, other: IoBuf) -> bool {
        &&& self.data@ == other.data@
        &&& self.base == other.base
        &&& self.offset == other.offset
        &&& self.len == other.len
        &&& self.resident == other.resident
    }

    /// The bytes still to be transferred.
    pub open spec fn window(&self) -> Seq<u8> {
        self.data@.subrange(self.base as int, self.base + self.resident)
    }

    /// The descriptor after `n` bytes have been transferred.
    pub open spec fn advanced(self, n: int) -> IoBuf {
        IoBuf {
            data: self.data,
            base: (self.base + n) as usize,
            offset: (self.offset + n) as i32,
            len: self.len,
            resident: (self.resident - n) as u32,
        }
    }

    /// A descriptor over the whole of `data`, to move bytes at `offset`.
    /// `None` where the window would end past what the signed offset holds.
    pub fn new(data: Vec<u8>, offset: usize) -> (r: Option<IoBuf>)
        ensures
            (offset + data@.len() <= i32::MAX) <==> r is Some,
            r matches Some(b) ==> {
                &&& b.wf()
                &&& b.data@ == data@
                &&& b.base == 0
                &&& b.offset == offset
                &&& b.len == data@.len()
                &&& b.resident == data@.len()
            },
    {
        let n = data.len();
        if offset > i32::MAX as usize || n > i32::MAX as usize - offset {
            return None;
        }
        Some(IoBuf { data, base: 0, offset: offset as i32, len: n as u32, resident: n as u32 })
    }

    /// A view of the bytes still to be transferred.
    pub fn as_ref(&self) -> (r: &[u8])
        requires
            self.wf(),
        ensures
            r@ == self.window(),
    {
        let end = self.base + self.resident as usize;
        &self.data.as_slice()[self.base..end]
    }

    /// A writable view of the bytes still to be transferred; writing through
    /// it changes those bytes of `data` and nothing else.
    pub fn as_mut(&mut self) -> (r: &mut [u8])
        requires
            old(self).wf(),
        ensures
            r@ == old(self).window(),
            final(self).base == old(self).base,
            final(self).offset == old(self).offset,
            final(self).len == old(self).len,
            final(self).resident == old(self).resident,
            final(self).data@ == old(self).data@.take(old(self).base as int) + final(r)@
                + old(self).data@.skip(old(self).base + old(self).resident),
    {
        let base = self.base;
        let resident = self.resident as usize;
        let (_, rest) = self.data.as_mut_slice().split_at_mut(base);
        let (win, _) = rest.split_at_mut(resident);
        win
    }

    /// Advances the cursor by `n` transferred bytes.
    pub fn skip(&mut self, n: usize)
        requires
            old(self).wf(),
            n <= old(self).resident,
        ensures
            *final(self) == old(self).advanced(n as int),
            final(self).wf(),
    {
        self.base = self.base + n;
        self.offset = self.offset + n as i32;
        self.resident = self.resident - n as u32;
    }
}

/// Advancing a well-formed descriptor by `n` bytes, where `n` is at most
/// what is left, moves its base and offset forward by `n`, takes `n` from
/// what is left, keeps its bytes and its requested length, and keeps it well
/// formed.
pub proof fn lemma_skip(buf: IoBuf, n: int)
    requires
        buf.wf(),
        0 <= n <= buf.resident,
    ensures
        buf.advanced(n).base == buf.base + n,
        buf.advanced(n).offset == buf.offset + n,
        buf.advanced(n).resident == buf.resident - n,
        buf.advanced(n).len == buf.len,
        buf.advanced(n).data@ == buf.data@,
        buf.advanced(n).wf(),
        buf.advanced(n).window() == buf.window().skip(n),
{
    assert(buf.advanced(n).window() =~= buf.window().skip(n));
}

} // verus!
