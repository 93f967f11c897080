use vstd::prelude::*;

verus! {

/// Size and alignment of a requested block.
#[derive(Debug, Clone, Copy, PartialEq, Eq, Structural)]
pub struct Layout {
    pub size: usize,
    pub align: usize,
}

/// Why an allocation failed.
#[derive(Debug, Clone, Copy, PartialEq, Eq, Structural)]
pub enum AllocErr {
    /// The host had no block of the requested layout.
    Exhausted { request: Layout },
}

/// The host kernel's allocation callbacks. Addresses are plain integers;
/// zero is the null address.
pub trait HostHeap {
    /// A fresh block of `size` bytes, or zero where none is left.
    fn malloc(&self, size: usize) -> usize;

    /// Gives back a block that `malloc` handed out.
    fn free(&self, addr: usize);
}

/// The runtime's allocator, served by the host's callbacks.
pub struct UcoreAllocator<H> {
    pub host: H,
}

/// The outcome of an allocation of `layout` that the host answered with
/// `addr`: the null address means the host is exhausted.
pub fn claim(addr: usize, layout: Layout) -> (r: Result<usize, AllocErr>)
    ensures
        addr == 0 ==> r == Err::<usize, AllocErr>(AllocErr::Exhausted { request: layout }),
        addr != 0 ==> r == Ok::<usize, AllocErr>(addr),
{
    if addr == 0 {
        Err(AllocErr::Exhausted { request: layout })
    } else {
        Ok(addr)
    }
}

impl<H: HostHeap> UcoreAllocator<H> {
    pub fn new(host: H) -> (r: Self)
        ensures
            r.host == host,
    {
        UcoreAllocator { host }
    }

    /// Asks the host for a block of `layout.size` bytes: its non-null address,
    /// or `Exhausted` with the request.
    pub fn allocate(&self, layout: Layout) -> (r: Result<usize, AllocErr>)
        ensures
            r matches Ok(a) ==> a != 0,
            r is Err ==> r == Err::<usize, AllocErr>(AllocErr::Exhausted { request: layout }),
    {
        let addr = self.host.malloc(layout.size);
        claim(addr, layout)
    }

    /// Gives a block back to the host.
    pub fn deallocate(&self, addr: usize, layout: Layout) {
        self.host.free(addr)
    }
}

} // verus!
