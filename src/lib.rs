//! A binding layer that presents a native filesystem to a host kernel through
//! the kernel's operation-table convention: error codes, the kernel's buffer
//! descriptor, stat records, the device adapter, the per-type operation table
//! and the allocator shim.

pub mod error;
pub mod iobuf;
pub mod stat;
pub mod device;
pub mod memdisk;
pub mod vfs;
pub mod ops;
pub mod memfile;
pub mod allocator;
