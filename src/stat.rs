use vstd::prelude::*;

verus! {

/// Mask of the file-type field in a mode.
pub const S_IFMT: u32 = 0o70000;
/// Ordinary regular file.
pub const S_IFREG: u32 = 0o10000;
/// Directory.
pub const S_IFDIR: u32 = 0o20000;
/// Symbolic link.
pub const S_IFLNK: u32 = 0o30000;
/// Character device.
pub const S_IFCHR: u32 = 0o40000;
/// Block device.
pub const S_IFBLK: u32 = 0o50000;

/// Kind of a file object.
#[derive(Debug, Clone, Copy, PartialEq, Eq, Structural)]
pub enum FileType {
    File,
    Dir,
    SymLink,
    CharDevice,
    BlockDevice,
}

/// The kernel's type tag of each kind.
pub open spec fn type_tag(t: FileType) -> u32 {
    match t {
        FileType::File => S_IFREG,
        FileType::Dir => S_IFDIR,
        FileType::SymLink => S_IFLNK,
        FileType::CharDevice => S_IFCHR,
        FileType::BlockDevice => S_IFBLK,
    }
}

impl FileType {
    /// The kernel's type tag of this kind.
    pub fn tag(self) -> (r: u32)
        ensures
            r == type_tag(self),
            r & S_IFMT == r,
    {
        let r = match self {
            FileType::File => S_IFREG,
            FileType::Dir => S_IFDIR,
            FileType::SymLink => S_IFLNK,
            FileType::CharDevice => S_IFCHR,
            FileType::BlockDevice => S_IFBLK,
        };
        assert(r & 0o70000u32 == r) by (bit_vector)
            requires
                r == 0o10000u32 || r == 0o20000u32 || r == 0o30000u32 || r == 0o40000u32
                    || r == 0o50000u32,
        ;
        r
    }
}

/// What a file object reports of itself.
#[derive(Debug, Clone, Copy, PartialEq, Eq, Structural)]
pub struct FileInfo {
    pub size: usize,
    pub mode: u32,
    pub type_: FileType,
    pub blocks: usize,
}

/// The kernel's fixed-size stat record.
#[derive(Debug, Clone, Copy, PartialEq, Eq, Structural)]
pub struct Stat {
    /// protection mode and file type
    pub mode: u32,
    /// number of hard links
    pub nlinks: u32,
    /// number of blocks the file is using
    pub blocks: u32,
    /// file size in bytes
    pub size: u32,
}

/// `x` in a 32-bit field: itself where it fits, else the largest value.
pub open spec fn narrow(x: int) -> u32 {
    if x <= u32::MAX {
        x as u32
    } else {
        u32::MAX
    }
}

/// The stat record of a file-info record. Link counts are not tracked, so
/// `nlinks` is zero; sizes past what 32 bits hold saturate.
pub open spec fn stat_of(info: FileInfo) -> Stat {
    Stat { mode: info.mode, nlinks: 0, blocks: narrow(info.blocks as int), size: narrow(info.size as int) }
}

/// Saturating narrowing to 32 bits.
pub fn narrow_u32(x: usize) -> (r: u32)
    ensures
        r == narrow(x as int),
{
    if x > u32::MAX as usize {
        u32::MAX
    } else {
        x as u32
    }
}

impl From<FileInfo> for Stat {
    fn from(info: FileInfo) -> (r: Stat) {
        Stat { mode: info.mode, nlinks: 0, blocks: narrow_u32(info.blocks), size: narrow_u32(info.size) }
    }
}

impl vstd::std_specs::convert::FromSpecImpl<FileInfo> for Stat {
    open spec fn obeys_from_spec() -> bool {
        true
    }

    open spec fn from_spec(info: FileInfo) -> Stat {
        stat_of(info)
    }
}

/// A stat record reports no hard links, and the block count and size of the
/// file-info record it was made from wherever they fit in 32 bits.
pub proof fn lemma_stat_fields(info: FileInfo)
    ensures
        stat_of(info).nlinks == 0,
        stat_of(info).mode == info.mode,
        info.blocks <= u32::MAX ==> stat_of(info).blocks == info.blocks,
        info.size <= u32::MAX ==> stat_of(info).size == info.size,
{
}

} // verus!
