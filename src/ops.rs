use vstd::prelude::*;
use core::marker::PhantomData;
use crate::device::{Device, DeviceDriver, moved, segment, span};
use crate::error::ErrorCode;
use crate::iobuf::{IoBuf, splice};
use crate::stat::{FileInfo, Stat, stat_of, type_tag};
use crate::vfs;
use crate::vfs::written;

verus! {

/// The kernel's mark of an operation table.
pub const INODE_OPS_MAGIC: u64 = 0x8c4ba476;

/// Kernel-visible handle of a file object; the kernel serialises the calls
/// on one handle.
pub struct INode<T> {
    pub inode: T,
}

impl<T> INode<T> {
    /// A handle over the file object `inode`.
    pub fn new(inode: T) -> (r: Self)
        ensures
            r.inode == inode,
    {
        INode { inode }
    }
}

/// Kernel-visible handle of a mounted filesystem.
pub struct Fs<F> {
    pub fs: F,
}

/// The operation table of the file objects of type `T`: one slot per
/// kernel operation. It holds no state of any object.
pub struct INodeOps<T> {
    pub magic: u64,
    pub objects: PhantomData<T>,
}

/// Ends a transfer of which the file object reported `count` bytes: the
/// cursor advances by that count. A missing count, or one past what was left,
/// is reported as `Unimplemented` and leaves the cursor as it was.
pub fn finish_transfer(count: Option<usize>, buf: &mut IoBuf) -> (r: ErrorCode)
    requires
        old(buf).wf(),
    ensures
        final(buf).wf(),
        count is Some && count.unwrap() <= old(buf).resident ==> r == ErrorCode::Success
            && *final(buf) == old(buf).advanced(count.unwrap() as int),
        !(count is Some && count.unwrap() <= old(buf).resident) ==> r == ErrorCode::Unimplemented
            && *final(buf) == *old(buf),
{
    match count {
        Some(n) => {
            if n <= buf.resident as usize {
                buf.skip(n);
                ErrorCode::Success
            } else {
                ErrorCode::Unimplemented
            }
        },
        None => ErrorCode::Unimplemented,
    }
}

/// The code of a sync that succeeded or failed.
pub fn sync_code(synced: Result<(), ()>) -> (r: ErrorCode)
    ensures
        synced is Ok <==> r == ErrorCode::Success,
        synced is Err <==> r == ErrorCode::Unimplemented,
{
    match synced {
        Ok(_) => ErrorCode::Success,
        Err(_) => ErrorCode::Unimplemented,
    }
}

/// Stores the stat record of `info` where the file object reported it.
pub fn store_stat(info: Result<FileInfo, ()>, stat: &mut Stat) -> (r: ErrorCode)
    ensures
        match info {
            Ok(i) => r == ErrorCode::Success && *final(stat) == stat_of(i),
            Err(_) => r == ErrorCode::Unimplemented && *final(stat) == *old(stat),
        },
{
    match info {
        Ok(i) => {
            *stat = Stat::from(i);
            ErrorCode::Success
        },
        Err(_) => ErrorCode::Unimplemented,
    }
}

/// Stores the type tag of `info` where the file object reported it.
pub fn store_type(info: Result<FileInfo, ()>, type_store: &mut u32) -> (r: ErrorCode)
    ensures
        match info {
            Ok(i) => r == ErrorCode::Success && *final(type_store) == type_tag(i.type_),
            Err(_) => r == ErrorCode::Unimplemented && *final(type_store) == *old(type_store),
        },
{
    match info {
        Ok(i) => {
            *type_store = i.type_.tag();
            ErrorCode::Success
        },
        Err(_) => ErrorCode::Unimplemented,
    }
}

/// The cursor of `after` is that of `before` advanced past what left its
/// window, and of its memory only the window of `before` may differ.
pub open spec fn advanced_within(before: IoBuf, after: IoBuf) -> bool {
    let n = before.resident - after.resident;
    &&& after.resident <= before.resident
    &&& after.base == before.base + n
    &&& after.offset == before.offset + n
    &&& after.len == before.len
    &&& after.data@.len() == before.data@.len()
    &&& after.data@.take(before.base as int) == before.data@.take(before.base as int)
    &&& after.data@.skip(before.base + before.resident) == before.data@.skip(
        before.base + before.resident,
    )
}

impl<T: vfs::INode> INodeOps<T> {
    /// The table of the file objects of type `T`.
    pub fn from_rust_inode() -> (r: Self)
        ensures
            r.magic == INODE_OPS_MAGIC,
    {
        INodeOps { magic: INODE_OPS_MAGIC, objects: PhantomData }
    }

    pub fn open(&self, inode: &mut INode<T>, flags: u32) -> (r: ErrorCode)
        ensures
            r == ErrorCode::Unimplemented,
            *final(inode) == *old(inode),
    {
        ErrorCode::Unimplemented
    }

    pub fn close(&self, inode: &mut INode<T>) -> (r: ErrorCode)
        ensures
            r == ErrorCode::Unimplemented,
            *final(inode) == *old(inode),
    {
        ErrorCode::Unimplemented
    }

    /// Reads from the object at the descriptor's offset into its window and
    /// advances the cursor by the count the object reports.
    pub fn read(&self, inode: &mut INode<T>, buf: &mut IoBuf) -> (r: ErrorCode)
        requires
            old(buf).wf(),
        ensures
            final(buf).wf(),
            *final(inode) == *old(inode),
            r == ErrorCode::Success ==> advanced_within(*old(buf), *final(buf)),
            r == ErrorCode::Success ==> {
                let c = old(inode).inode.content();
                let n = span(c.len() as int, old(buf).offset as int, old(buf).resident as int);
                moved(
                    *old(buf),
                    *final(buf),
                    n,
                    splice(old(buf).data@, old(buf).base as int, segment(c, old(buf).offset as int, n)),
                )
            },
            r == ErrorCode::Unimplemented ==> final(buf).same(*old(buf)),
    {
        let offset = buf.offset as usize;
        let ghost start = *buf;
        let count = inode.inode.read_at(offset, buf.as_mut());
        assert(buf.data@.take(start.base as int) =~= start.data@.take(start.base as int));
        assert(buf.data@.skip(start.base + start.resident) =~= start.data@.skip(
            start.base + start.resident,
        ));
        proof {
            if count is None {
                assert(buf.data@ =~= start.data@);
            }
            if let Some(n) = count {
                assert(n <= start.resident);
                let c = inode.inode.content();
                assert(buf.data@ =~= splice(start.data@, start.base as int, segment(c, start.offset as int, n as int)));
            }
        }
        finish_transfer(count, buf)
    }

    /// Writes the descriptor's window to the object at its offset and
    /// advances the cursor by the count the object reports.
    pub fn write(&self, inode: &mut INode<T>, buf: &mut IoBuf) -> (r: ErrorCode)
        requires
            old(buf).wf(),
        ensures
            final(buf).wf(),
            final(buf).data@ == old(buf).data@,
            r == ErrorCode::Success ==> advanced_within(*old(buf), *final(buf)),
            r == ErrorCode::Success ==> *final(buf) == old(buf).advanced(old(buf).resident as int)
                && final(inode).inode.content() == written(
                old(inode).inode.content(),
                old(buf).offset as int,
                old(buf).window(),
            ),
            r == ErrorCode::Unimplemented ==> *final(buf) == *old(buf) && final(inode).inode.content()
                == old(inode).inode.content(),
    {
        let offset = buf.offset as usize;
        let count = inode.inode.write_at(offset, buf.as_ref());
        finish_transfer(count, buf)
    }

    /// Fills `stat` with the stat record of what the object reports.
    pub fn fstat(&self, inode: &mut INode<T>, stat: &mut Stat) -> (r: ErrorCode)
        ensures
            *final(inode) == *old(inode),
            r == ErrorCode::Unimplemented ==> *final(stat) == *old(stat),
            r == ErrorCode::Success ==> *final(stat) == stat_of(old(inode).inode.info_spec()),
    {
        let info = inode.inode.info();
        store_stat(info, stat)
    }

    /// Flushes the object's pending state; what it holds and reports stays.
    pub fn fsync(&self, inode: &mut INode<T>) -> (r: ErrorCode)
        ensures
            final(inode).inode.content() == old(inode).inode.content(),
            final(inode).inode.info_spec() == old(inode).inode.info_spec(),
    {
        sync_code(inode.inode.sync())
    }

    pub fn namefile(&self, inode: &mut INode<T>, buf: &mut IoBuf) -> (r: ErrorCode)
        ensures
            r == ErrorCode::Unimplemented,
            *final(inode) == *old(inode),
            *final(buf) == *old(buf),
    {
        ErrorCode::Unimplemented
    }

    pub fn getdirentry(&self, inode: &mut INode<T>, buf: &mut IoBuf) -> (r: ErrorCode)
        ensures
            r == ErrorCode::Unimplemented,
            *final(inode) == *old(inode),
            *final(buf) == *old(buf),
    {
        ErrorCode::Unimplemented
    }

    pub fn reclaim(&self, inode: &mut INode<T>) -> (r: ErrorCode)
        ensures
            r == ErrorCode::Unimplemented,
            *final(inode) == *old(inode),
    {
        ErrorCode::Unimplemented
    }

    /// Stores the type tag of what the object reports in `type_store`.
    pub fn gettype(&self, inode: &mut INode<T>, type_store: &mut u32) -> (r: ErrorCode)
        ensures
            *final(inode) == *old(inode),
            r == ErrorCode::Unimplemented ==> *final(type_store) == *old(type_store),
            r == ErrorCode::Success ==> *final(type_store) == type_tag(old(inode).inode.info_spec().type_),
    {
        let info = inode.inode.info();
        store_type(info, type_store)
    }

    pub fn tryseek(&self, inode: &mut INode<T>, pos: i32) -> (r: ErrorCode)
        ensures
            r == ErrorCode::Unimplemented,
            *final(inode) == *old(inode),
    {
        ErrorCode::Unimplemented
    }

    pub fn truncate(&self, inode: &mut INode<T>, len: i32) -> (r: ErrorCode)
        ensures
            r == ErrorCode::Unimplemented,
            *final(inode) == *old(inode),
    {
        ErrorCode::Unimplemented
    }

    pub fn create(
        &self,
        inode: &mut INode<T>,
        name: &[u8],
        excl: bool,
        inode_store: &mut Option<INode<T>>,
    ) -> (r: ErrorCode)
        ensures
            r == ErrorCode::Unimplemented,
            *final(inode) == *old(inode),
            *final(inode_store) == *old(inode_store),
    {
        ErrorCode::Unimplemented
    }

    pub fn lookup(&self, inode: &mut INode<T>, path: &[u8], inode_store: &mut Option<INode<T>>) -> (r:
        ErrorCode)
        ensures
            r == ErrorCode::Unimplemented,
            *final(inode) == *old(inode),
            *final(inode_store) == *old(inode_store),
    {
        ErrorCode::Unimplemented
    }

    pub fn ioctl(&self, inode: &mut INode<T>, op: i32, data: &mut u8) -> (r: ErrorCode)
        ensures
            r == ErrorCode::Unimplemented,
            *final(inode) == *old(inode),
            *final(data) == *old(data),
    {
        ErrorCode::Unimplemented
    }
}

/// The code and the store after a mount whose open gave `opened`, where the
/// store held `before`.
pub open spec fn mount_outcome<F>(opened: Result<F, ()>, before: Option<Fs<F>>) -> (ErrorCode, Option<Fs<F>>) {
    match opened {
        Ok(fs) => (ErrorCode::Success, Some(Fs { fs })),
        Err(_) => (ErrorCode::Unimplemented, before),
    }
}

/// Installs the handle of a filesystem that was opened, or reports that it
/// could not be and leaves `fs_store` as it was.
pub fn store_fs<F>(opened: Result<F, ()>, fs_store: &mut Option<Fs<F>>) -> (r: ErrorCode)
    ensures
        (r, *final(fs_store)) == mount_outcome(opened, *old(fs_store)),
{
    match opened {
        Ok(fs) => {
            *fs_store = Some(Fs { fs });
            ErrorCode::Success
        },
        Err(_) => ErrorCode::Unimplemented,
    }
}

/// Mounts a filesystem of type `F` on `dev`, which it then owns, and stores
/// its handle in `fs_store`. Where the filesystem cannot be opened the code
/// is `Unimplemented` and `fs_store` is left as it was: the outcome is that
/// of what the open gave.
pub fn sfs_do_mount<D: DeviceDriver, F: vfs::FileSystem<D>>(
    dev: Device<D>,
    fs_store: &mut Option<Fs<F>>,
) -> (r: ErrorCode)
    ensures
        r == ErrorCode::Success ==> *final(fs_store) is Some,
        r == ErrorCode::Unimplemented ==> *final(fs_store) == *old(fs_store),
        exists|opened: Result<F, ()>|
            #[trigger] F::opens(dev, opened) && (r, *final(fs_store)) == mount_outcome(opened, *old(fs_store)),
{
    let opened = F::open(dev);
    let r = store_fs(opened, fs_store);
    assert(F::opens(dev, opened));
    r
}

} // verus!
