//! Mounted filesystems, as laid out by the 11.00 build.
use vstd::prelude::*;

verus! {

/// `MNT_RDONLY`: the filesystem is mounted read-only.
pub const MNT_RDONLY: u64 = 0x0000000000000001;

/// `MBF_NOWAIT`: `vfs_busy` fails instead of sleeping.
pub const MBF_NOWAIT: i32 = 1;

/// `MBF_MNTLSTLOCK`: `vfs_busy` drops `mountlist_mtx` on success.
pub const MBF_MNTLSTLOCK: i32 = 2;

/// `mount`: one mounted filesystem, linked into `mountlist`.
pub struct Mount {}

impl Mount {
    /// Byte offset of `mnt_mtx`.
    pub const MTX_OFFSET: usize = 0;

    /// Byte offset of `mnt_list`, the links of `mountlist`.
    pub const ENTRY_OFFSET: usize = 0x28;

    /// Byte offset of `mnt_op`.
    pub const OPS_OFFSET: usize = 0x38;

    /// Byte offset of `mnt_vfc`.
    pub const FS_OFFSET: usize = 0x40;

    /// Byte offset of `mnt_flag`.
    pub const FLAGS_OFFSET: usize = 0x80;

    /// Byte offset of `mnt_stat`.
    pub const STATS_OFFSET: usize = 0xA8;

    /// The largest of the offsets above.
    pub const LAST_OFFSET: usize = 0xA8;

    /// Address of `mnt_mtx` in the mount at `mp`.
    pub fn mtx(mp: usize) -> (r: usize)
        ensures
            r == mp + Mount::MTX_OFFSET,
    {
        mp
    }

    /// Address of `mnt_list` in the mount at `mp`; reading it needs
    /// `mountlist_mtx` held.
    pub fn entry(mp: usize) -> (r: usize)
        requires
            mp + Mount::LAST_OFFSET <= usize::MAX,
        ensures
            r == mp + Mount::ENTRY_OFFSET,
    {
        mp + Mount::ENTRY_OFFSET
    }

    /// Address of `mnt_op` in the mount at `mp`.
    pub fn ops(mp: usize) -> (r: usize)
        requires
            mp + Mount::LAST_OFFSET <= usize::MAX,
        ensures
            r == mp + Mount::OPS_OFFSET,
    {
        mp + Mount::OPS_OFFSET
    }

    /// Address of `mnt_vfc` in the mount at `mp`.
    pub fn fs(mp: usize) -> (r: usize)
        requires
            mp + Mount::LAST_OFFSET <= usize::MAX,
        ensures
            r == mp + Mount::FS_OFFSET,
    {
        mp + Mount::FS_OFFSET
    }

    /// Address of `mnt_flag` in the mount at `mp`; reading it needs the
    /// mount's own mutex held.
    pub fn flags(mp: usize) -> (r: usize)
        requires
            mp + Mount::LAST_OFFSET <= usize::MAX,
        ensures
            r == mp + Mount::FLAGS_OFFSET,
    {
        mp + Mount::FLAGS_OFFSET
    }

    /// Address of `mnt_stat` in the mount at `mp`.
    pub fn stats(mp: usize) -> (r: usize)
        requires
            mp + Mount::LAST_OFFSET <= usize::MAX,
        ensures
            r == mp + Mount::STATS_OFFSET,
    {
        mp + Mount::STATS_OFFSET
    }

    /// Whether the mount flags `flags` say read-only.
    pub fn is_read_only(flags: u64) -> (r: bool)
        ensures
            r == (flags & MNT_RDONLY != 0),
    {
        flags & MNT_RDONLY != 0
    }
}

/// `vfsconf`: a filesystem type; its 16-byte name is at `4`.
pub struct Filesystem {}

impl Filesystem {
    /// Byte offset of `vfc_name`.
    pub const NAME_OFFSET: usize = 4;

    /// Length of `vfc_name`, its terminating zero included.
    pub const NAME_LEN: usize = 16;

    /// Address of `vfc_name` in the filesystem type at `fs`.
    pub fn name(fs: usize) -> (r: usize)
        requires
            fs + Filesystem::NAME_OFFSET <= usize::MAX,
        ensures
            r == fs + Filesystem::NAME_OFFSET,
    {
        fs + Filesystem::NAME_OFFSET
    }
}

/// `vfsops`: the operations of a filesystem type.
pub struct FsOps {}

impl FsOps {
    /// Byte offset of `vfs_root`, a function pointer.
    pub const ROOT_OFFSET: usize = 0x18;

    /// Address of the `vfs_root` pointer in the operations at `ops`.
    pub fn root(ops: usize) -> (r: usize)
        requires
            ops + FsOps::ROOT_OFFSET <= usize::MAX,
        ensures
            r == ops + FsOps::ROOT_OFFSET,
    {
        ops + FsOps::ROOT_OFFSET
    }
}

/// `statfs`: the statistics of a mount.
pub struct FsStats {}

impl FsStats {
    /// Byte offset of `f_mntfromname`.
    pub const MOUNTED_FROM_OFFSET: usize = 0x128;

    /// Length of `f_mntfromname`.
    pub const MOUNTED_FROM_LEN: usize = 88;

    /// Size in bytes.
    pub const SIZE: usize = 0x1D8;

    /// Address of `f_mntfromname` in the statistics at `st`.
    pub fn mounted_from(st: usize) -> (r: usize)
        requires
            st + FsStats::MOUNTED_FROM_OFFSET <= usize::MAX,
        ensures
            r == st + FsStats::MOUNTED_FROM_OFFSET,
    {
        st + FsStats::MOUNTED_FROM_OFFSET
    }
}

} // verus!
