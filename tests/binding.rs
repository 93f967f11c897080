use ucore_binding::allocator::{AllocErr, HostHeap, Layout, UcoreAllocator, claim};
use ucore_binding::device::{finish_read, finish_write, Device, DeviceDriver};
use ucore_binding::error::ErrorCode;
use ucore_binding::iobuf::IoBuf;
use ucore_binding::memdisk::MemDisk;
use ucore_binding::memfile::MemFile;
use ucore_binding::ops::{finish_transfer, sfs_do_mount, store_fs, store_stat, store_type, sync_code, Fs, INode, INodeOps, INODE_OPS_MAGIC};
use ucore_binding::stat::{FileInfo, FileType, Stat, S_IFBLK, S_IFCHR, S_IFDIR, S_IFLNK, S_IFMT, S_IFREG};
use ucore_binding::vfs::{FileSystem, INode as FileObject};

fn buf_over(data: Vec<u8>, offset: usize) -> IoBuf {
    IoBuf::new(data, offset).expect("window fits")
}

fn file_of(len: usize, block_size: usize) -> MemFile {
    let mut f = MemFile::new(FileType::File, 0o644, block_size);
    let bytes: Vec<u8> = (0..len).map(|i| (i % 251) as u8).collect();
    assert_eq!(f.write_at(0, &bytes), Some(len));
    f
}

struct DiskFs {
    dev: Device<MemDisk>,
}

impl FileSystem<MemDisk> for DiskFs {
    fn open(device: Device<MemDisk>) -> Result<Self, ()> {
        Ok(DiskFs { dev: device })
    }
}

struct RefusingFs;

impl FileSystem<MemDisk> for RefusingFs {
    fn open(_device: Device<MemDisk>) -> Result<Self, ()> {
        Err(())
    }
}

#[test]
fn error_code_raw_values() {
    assert_eq!(ErrorCode::Success.as_raw(), 0);
    assert_eq!(ErrorCode::Unimplemented.as_raw(), -1);
}

#[test]
fn iobuf_new_covers_whole_buffer() {
    let b = buf_over(vec![1, 2, 3], 10);
    assert_eq!(b.base, 0);
    assert_eq!(b.offset, 10);
    assert_eq!(b.len, 3);
    assert_eq!(b.resident, 3);
    assert_eq!(b.as_ref(), &[1, 2, 3]);
}

#[test]
fn iobuf_new_refuses_window_past_signed_offset() {
    assert!(IoBuf::new(vec![0; 4], i32::MAX as usize - 3).is_none());
    assert!(IoBuf::new(vec![0; 4], i32::MAX as usize - 4).is_some());
    assert!(IoBuf::new(Vec::new(), usize::MAX).is_none());
}

#[test]
fn skip_advances_cursor() {
    let mut b = buf_over(vec![10, 20, 30, 40, 50], 100);
    b.skip(2);
    assert_eq!(b.base, 2);
    assert_eq!(b.offset, 102);
    assert_eq!(b.resident, 3);
    assert_eq!(b.len, 5);
    assert_eq!(b.as_ref(), &[30, 40, 50]);
    b.skip(3);
    assert_eq!(b.resident, 0);
    assert_eq!(b.offset, 105);
    assert!(b.as_ref().is_empty());
}

#[test]
fn skip_zero_changes_nothing() {
    let mut b = buf_over(vec![7; 4], 0);
    b.skip(0);
    assert_eq!((b.base, b.offset, b.len, b.resident), (0, 0, 4, 4));
}

#[test]
fn as_mut_writes_only_window() {
    let mut b = buf_over(vec![1, 2, 3, 4], 0);
    b.skip(1);
    {
        let w = b.as_mut();
        assert_eq!(w.len(), 3);
        w[0] = 9;
        w[2] = 8;
    }
    assert_eq!(b.data, vec![1, 9, 3, 8]);
}

#[test]
fn stat_from_info_reports_no_links() {
    let info = FileInfo { size: 4096, mode: 0o100644, type_: FileType::File, blocks: 8 };
    let s = Stat::from(info);
    assert_eq!(s, Stat { mode: 0o100644, nlinks: 0, blocks: 8, size: 4096 });
}

#[test]
fn stat_from_info_saturates_large_values() {
    let big = u32::MAX as usize + 5;
    let s = Stat::from(FileInfo { size: big, mode: 1, type_: FileType::Dir, blocks: big });
    assert_eq!(s.size, u32::MAX);
    assert_eq!(s.blocks, u32::MAX);
    assert_eq!(s.nlinks, 0);
    let s = Stat::from(FileInfo { size: u32::MAX as usize, mode: 1, type_: FileType::Dir, blocks: 0 });
    assert_eq!(s.size, u32::MAX);
    assert_eq!(s.blocks, 0);
}

#[test]
fn type_tags() {
    assert_eq!(FileType::File.tag(), S_IFREG);
    assert_eq!(FileType::Dir.tag(), S_IFDIR);
    assert_eq!(FileType::SymLink.tag(), S_IFLNK);
    assert_eq!(FileType::CharDevice.tag(), S_IFCHR);
    assert_eq!(FileType::BlockDevice.tag(), S_IFBLK);
    assert_eq!(S_IFREG, 0o10000);
    assert_eq!(S_IFMT, 0o70000);
}

#[test]
fn device_round_trip() {
    let mut dev = Device::new(100, 512, MemDisk::new(100 * 512));
    let data: Vec<u8> = (0..300).map(|i| (i * 7 % 256) as u8).collect();
    assert_eq!(dev.write_at(1000, &data), Some(300));
    let mut back = vec![0u8; 300];
    assert_eq!(dev.read_at(1000, &mut back), Some(300));
    assert_eq!(back, data);
    let mut part = vec![0u8; 10];
    assert_eq!(dev.read_at(1000, &mut part), Some(10));
    assert_eq!(&part[..], &data[..10]);
    assert_eq!(dev.blocks, 100);
    assert_eq!(dev.blocksize, 512);
}

#[test]
fn device_write_is_cut_at_end_of_store() {
    let mut dev = Device::new(1, 8, MemDisk::new(8));
    assert_eq!(dev.write_at(6, &[1, 2, 3, 4]), Some(2));
    let mut back = vec![0xffu8; 4];
    assert_eq!(dev.read_at(4, &mut back), Some(4));
    assert_eq!(back, vec![0, 0, 1, 2]);
    let mut past = vec![0xaau8; 3];
    assert_eq!(dev.read_at(8, &mut past), Some(0));
    assert_eq!(past, vec![0xaa; 3]);
    assert_eq!(dev.read_at(6, &mut past), Some(2));
    assert_eq!(past, vec![1, 2, 0xaa]);
}

#[test]
fn device_refuses_offset_past_descriptor_range() {
    let mut dev = Device::new(1, 8, MemDisk::new(8));
    let mut b = vec![5u8; 2];
    assert_eq!(dev.read_at(i32::MAX as usize, &mut b), None);
    assert_eq!(b, vec![5, 5]);
    assert_eq!(dev.write_at(i32::MAX as usize, &[1]), None);
}

#[test]
fn memdisk_io_moves_bytes_and_advances() {
    let mut disk = MemDisk::new(16);
    let mut w = buf_over(vec![1, 2, 3], 4);
    assert_eq!(disk.io(&mut w, true), ErrorCode::Success);
    assert_eq!((w.base, w.offset, w.resident), (3, 7, 0));
    let mut r = buf_over(vec![0; 5], 3);
    assert_eq!(disk.io(&mut r, false), ErrorCode::Success);
    assert_eq!(r.data, vec![0, 1, 2, 3, 0]);
    assert_eq!(r.resident, 0);
    assert_eq!(disk.size(), 16);
}

#[test]
fn unimplemented_slots_change_nothing() {
    let ops = INodeOps::<MemFile>::from_rust_inode();
    assert_eq!(ops.magic, INODE_OPS_MAGIC);
    assert_eq!(INODE_OPS_MAGIC, 0x8c4ba476);
    let mut node = INode { inode: file_of(100, 512) };
    let mut b = buf_over(vec![3; 4], 0);
    assert_eq!(ops.open(&mut node, 0), ErrorCode::Unimplemented);
    assert_eq!(ops.close(&mut node), ErrorCode::Unimplemented);
    assert_eq!(ops.namefile(&mut node, &mut b), ErrorCode::Unimplemented);
    assert_eq!(ops.getdirentry(&mut node, &mut b), ErrorCode::Unimplemented);
    assert_eq!(ops.reclaim(&mut node), ErrorCode::Unimplemented);
    assert_eq!(ops.tryseek(&mut node, 3), ErrorCode::Unimplemented);
    assert_eq!(ops.truncate(&mut node, 0), ErrorCode::Unimplemented);
    let mut slot: Option<INode<MemFile>> = None;
    assert_eq!(ops.create(&mut node, b"a", false, &mut slot), ErrorCode::Unimplemented);
    assert_eq!(ops.lookup(&mut node, b"a", &mut slot), ErrorCode::Unimplemented);
    let mut d = 42u8;
    assert_eq!(ops.ioctl(&mut node, 1, &mut d), ErrorCode::Unimplemented);
    assert!(slot.is_none());
    assert_eq!(d, 42);
    assert_eq!((b.base, b.offset, b.len, b.resident), (0, 0, 4, 4));
    assert_eq!(b.data, vec![3; 4]);
    assert_eq!(node.inode.info().unwrap().size, 100);
}

#[test]
fn read_trampoline_advances_by_count_read() {
    let ops = INodeOps::<MemFile>::from_rust_inode();
    let mut node = INode { inode: file_of(10, 512) };
    let mut b = buf_over(vec![0xee; 8], 6);
    assert_eq!(ops.read(&mut node, &mut b), ErrorCode::Success);
    assert_eq!(b.resident, 4);
    assert_eq!(b.offset, 10);
    assert_eq!(b.base, 4);
    assert_eq!(b.data, vec![6, 7, 8, 9, 0xee, 0xee, 0xee, 0xee]);
    assert_eq!(ops.read(&mut node, &mut b), ErrorCode::Success);
    assert_eq!(b.resident, 4);
}

#[test]
fn write_trampoline_advances_by_count_written() {
    let ops = INodeOps::<MemFile>::from_rust_inode();
    let mut node = INode { inode: MemFile::new(FileType::File, 0, 512) };
    let mut b = buf_over(vec![1, 2, 3, 4, 5], 2);
    b.skip(1);
    assert_eq!(ops.write(&mut node, &mut b), ErrorCode::Success);
    assert_eq!(b.resident, 0);
    assert_eq!(b.offset, 7);
    let mut back = vec![9u8; 7];
    assert_eq!(node.inode.read_at(0, &mut back), Some(7));
    assert_eq!(back, vec![0, 0, 0, 2, 3, 4, 5]);
}

#[test]
fn finish_transfer_outcomes() {
    let mut b = buf_over(vec![0; 6], 0);
    assert_eq!(finish_transfer(Some(4), &mut b), ErrorCode::Success);
    assert_eq!((b.base, b.offset, b.resident), (4, 4, 2));
    assert_eq!(finish_transfer(Some(3), &mut b), ErrorCode::Unimplemented);
    assert_eq!((b.base, b.offset, b.resident), (4, 4, 2));
    assert_eq!(finish_transfer(None, &mut b), ErrorCode::Unimplemented);
    assert_eq!((b.base, b.offset, b.resident), (4, 4, 2));
    assert_eq!(finish_transfer(Some(2), &mut b), ErrorCode::Success);
    assert_eq!(b.resident, 0);
}

#[test]
fn store_stat_and_type_outcomes() {
    let info = FileInfo { size: 12, mode: 0o755, type_: FileType::Dir, blocks: 1 };
    let mut s = Stat { mode: 1, nlinks: 2, blocks: 3, size: 4 };
    assert_eq!(store_stat(Err(()), &mut s), ErrorCode::Unimplemented);
    assert_eq!(s, Stat { mode: 1, nlinks: 2, blocks: 3, size: 4 });
    assert_eq!(store_stat(Ok(info), &mut s), ErrorCode::Success);
    assert_eq!(s, Stat { mode: 0o755, nlinks: 0, blocks: 1, size: 12 });
    let mut t = 77u32;
    assert_eq!(store_type(Err(()), &mut t), ErrorCode::Unimplemented);
    assert_eq!(t, 77);
    assert_eq!(store_type(Ok(info), &mut t), ErrorCode::Success);
    assert_eq!(t, S_IFDIR);
}

#[test]
fn fsync_reports_success() {
    let ops = INodeOps::<MemFile>::from_rust_inode();
    let mut node = INode { inode: file_of(3, 512) };
    assert_eq!(ops.fsync(&mut node), ErrorCode::Success);
}

#[test]
fn mount_then_stat_type_and_truncate() {
    let dev = Device::new(100, 512, MemDisk::new(100 * 512));
    let mut store: Option<Fs<DiskFs>> = None;
    assert_eq!(sfs_do_mount(dev, &mut store), ErrorCode::Success);
    let fs = store.expect("mounted");
    assert_eq!(fs.fs.dev.blocks, 100);
    assert_eq!(fs.fs.dev.blocksize, 512);

    let ops = INodeOps::<MemFile>::from_rust_inode();
    let mut node = INode::new(file_of(4096, 512));
    let mut s = Stat { mode: 0, nlinks: 9, blocks: 0, size: 0 };
    assert_eq!(ops.fstat(&mut node, &mut s), ErrorCode::Success);
    assert_eq!(s.size, 4096);
    assert_eq!(s.nlinks, 0);
    assert_eq!(s.blocks, 8);
    assert_eq!(s.blocks as usize, node.inode.info().unwrap().blocks);
    let mut t = 0u32;
    assert_eq!(ops.gettype(&mut node, &mut t), ErrorCode::Success);
    assert_eq!(t, S_IFREG);
    assert_eq!(ops.truncate(&mut node, 0), ErrorCode::Unimplemented);
    assert_eq!(node.inode.info().unwrap().size, 4096);
}

#[test]
fn mount_failure_leaves_store_empty() {
    let dev = Device::new(1, 512, MemDisk::new(512));
    let mut store: Option<Fs<RefusingFs>> = None;
    assert_eq!(sfs_do_mount(dev, &mut store), ErrorCode::Unimplemented);
    assert!(store.is_none());
}

#[test]
fn memfile_block_count_rounds_up() {
    assert_eq!(file_of(0, 512).info().unwrap().blocks, 0);
    assert_eq!(file_of(1, 512).info().unwrap().blocks, 1);
    assert_eq!(file_of(512, 512).info().unwrap().blocks, 1);
    assert_eq!(file_of(513, 512).info().unwrap().blocks, 2);
}

struct FixedHeap {
    answer: usize,
}

impl HostHeap for FixedHeap {
    fn malloc(&self, _size: usize) -> usize {
        self.answer
    }
    fn free(&self, _addr: usize) {}
}

#[test]
fn allocator_maps_null_to_exhausted() {
    let layout = Layout { size: 64, align: 8 };
    let a = UcoreAllocator::new(FixedHeap { answer: 0 });
    assert_eq!(a.allocate(layout), Err(AllocErr::Exhausted { request: layout }));
    let a = UcoreAllocator::new(FixedHeap { answer: 0x1000 });
    assert_eq!(a.allocate(layout), Ok(0x1000));
    a.deallocate(0x1000, layout);
    assert_eq!(claim(0, layout), Err(AllocErr::Exhausted { request: layout }));
    assert_eq!(claim(5, layout), Ok(5));
}

#[test]
fn store_fs_installs_opened_filesystem() {
    let mut store: Option<Fs<u32>> = None;
    assert_eq!(store_fs(Err(()), &mut store), ErrorCode::Unimplemented);
    assert!(store.is_none());
    assert_eq!(store_fs(Ok(7u32), &mut store), ErrorCode::Success);
    assert_eq!(store.as_ref().map(|f| f.fs), Some(7));
    assert_eq!(store_fs(Err(()), &mut store), ErrorCode::Unimplemented);
    assert_eq!(store.map(|f| f.fs), Some(7));
}

#[test]
fn sync_code_outcomes() {
    assert_eq!(sync_code(Ok(())), ErrorCode::Success);
    assert_eq!(sync_code(Err(())), ErrorCode::Unimplemented);
}

#[test]
fn finish_read_outcomes() {
    let mut done = buf_over(vec![4, 5, 6], 0);
    done.skip(2);
    let mut out = vec![0u8; 3];
    assert_eq!(finish_read(ErrorCode::Success, &done, &mut out), Some(2));
    assert_eq!(out, vec![4, 5, 6]);
    let mut out = vec![1u8; 3];
    assert_eq!(finish_read(ErrorCode::Unimplemented, &done, &mut out), None);
    assert_eq!(out, vec![1, 1, 1]);
    let mut short = vec![1u8; 2];
    assert_eq!(finish_read(ErrorCode::Success, &done, &mut short), None);
    assert_eq!(short, vec![1, 1]);
}

#[test]
fn finish_write_outcomes() {
    let mut done = buf_over(vec![0; 5], 0);
    done.skip(3);
    assert_eq!(finish_write(ErrorCode::Success, &done, 5), Some(3));
    assert_eq!(finish_write(ErrorCode::Unimplemented, &done, 5), None);
    assert_eq!(finish_write(ErrorCode::Success, &done, 1), None);
}
