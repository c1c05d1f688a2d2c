//! Mount flags, kept as one boolean per flag bit.
//!
//! The process around the library turns these into the kernel's
//! `MS_*` bits right before `mount(2)`; inside the library each flag
//! is a plain field, so every rule about them is checked directly.

use vstd::prelude::*;

verus! {

/// The mount flags that the command line can toggle.
#[derive(Debug, Clone, Copy, PartialEq, Eq, Structural)]
pub struct MountFlags {
    pub rdonly: bool,
    pub nosuid: bool,
    pub nodev: bool,
    pub noexec: bool,
    pub synchronous: bool,
    pub dirsync: bool,
    pub noatime: bool,
    pub nodiratime: bool,
    pub silent: bool,
    pub relatime: bool,
    pub strictatime: bool,
    pub lazytime: bool,
}

/// No flag set.
pub open spec fn spec_empty_flags() -> MountFlags {
    MountFlags {
        rdonly: false,
        nosuid: false,
        nodev: false,
        noexec: false,
        synchronous: false,
        dirsync: false,
        noatime: false,
        nodiratime: false,
        silent: false,
        relatime: false,
        strictatime: false,
        lazytime: false,
    }
}

impl MountFlags {
    /// No flag set.
    pub fn empty() -> (r: MountFlags)
        ensures
            r == spec_empty_flags(),
    {
        MountFlags {
            rdonly: false,
            nosuid: false,
            nodev: false,
            noexec: false,
            synchronous: false,
            dirsync: false,
            noatime: false,
            nodiratime: false,
            silent: false,
            relatime: false,
            strictatime: false,
            lazytime: false,
        }
    }

    /// The pseudo-filesystem default `NOSUID|NOEXEC|NODEV`.
    pub fn nosuid_noexec_nodev() -> (r: MountFlags)
        ensures
            r == (MountFlags { nosuid: true, noexec: true, nodev: true, ..spec_empty_flags() }),
    {
        let mut f = MountFlags::empty();
        f.nosuid = true;
        f.noexec = true;
        f.nodev = true;
        f
    }

    /// The `devtmpfs` default `NOSUID`.
    pub fn nosuid_only() -> (r: MountFlags)
        ensures
            r == (MountFlags { nosuid: true, ..spec_empty_flags() }),
    {
        let mut f = MountFlags::empty();
        f.nosuid = true;
        f
    }
}

} // verus!
