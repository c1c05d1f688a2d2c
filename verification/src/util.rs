//! Pivot hygiene rules, the systemd hand-off test, and the exit code
//! of every fatal path.

use vstd::prelude::*;
use crate::bytes::{ends_with, is_suffix, push_all};
use crate::dec::{format_i64_dec, spec_parse_i64};
use crate::lit;

verus! {

/// `statfs` magic of `ramfs`.
pub const RAMFS_MAGIC: i64 = 0x858458f6;

/// `statfs` magic of `tmpfs`.
pub const TMPFS_MAGIC: i64 = 0x01021994;

/// Why the pivot out of the initramfs was refused.
#[derive(Debug, Clone, Copy, PartialEq, Eq, Structural)]
pub enum PivotError {
    /// The process is not PID 1.
    NotPid1,
    /// The old root and the new root are on the same device.
    SameDevice,
    /// A required file does not live on the old root device.
    NotInRoot,
    /// The old root is neither `ramfs` nor `tmpfs`.
    NotRamfs,
}

/// The checks that precede deleting the old root, over the gathered
/// numbers: the pid, the device of `/`, the device of the new root,
/// the devices of the release file, the configuration and `/init`,
/// and the filesystem magic of `/`. All must pass, in this order.
pub open spec fn spec_pivot_sanity(
    pid: u32,
    root_dev: u64,
    new_root_dev: u64,
    release_dev: u64,
    config_dev: u64,
    init_dev: u64,
    root_magic: i64,
) -> Result<(), PivotError> {
    if pid != 1 {
        Err(PivotError::NotPid1)
    } else if new_root_dev == root_dev {
        Err(PivotError::SameDevice)
    } else if release_dev != root_dev || config_dev != root_dev || init_dev != root_dev {
        Err(PivotError::NotInRoot)
    } else if root_magic != RAMFS_MAGIC && root_magic != TMPFS_MAGIC {
        Err(PivotError::NotRamfs)
    } else {
        Ok(())
    }
}

/// Decide whether the old root may be deleted.
pub fn pivot_sanity_check(
    pid: u32,
    root_dev: u64,
    new_root_dev: u64,
    release_dev: u64,
    config_dev: u64,
    init_dev: u64,
    root_magic: i64,
) -> (r: Result<(), PivotError>)
    ensures
        r == spec_pivot_sanity(
            pid,
            root_dev,
            new_root_dev,
            release_dev,
            config_dev,
            init_dev,
            root_magic,
        ),
{
    if pid != 1 {
        Err(PivotError::NotPid1)
    } else if new_root_dev == root_dev {
        Err(PivotError::SameDevice)
    } else if release_dev != root_dev || config_dev != root_dev || init_dev != root_dev {
        Err(PivotError::NotInRoot)
    } else if root_magic != RAMFS_MAGIC && root_magic != TMPFS_MAGIC {
        Err(PivotError::NotRamfs)
    } else {
        Ok(())
    }
}

/// What the old root's deletion does with one inode.
#[derive(Debug, Clone, Copy, PartialEq, Eq, Structural)]
pub enum DeleteAction {
    /// The inode lives on another device — the new root's — and is
    /// kept, without descending into it.
    Keep,
    /// A directory on the old root: its entries go first, then the
    /// directory itself.
    RecurseThenRemoveDir,
    /// The old root directory itself: its entries go, the root inode
    /// stays.
    RecurseOnly,
    /// Anything else on the old root is unlinked.
    RemoveFile,
}

/// The deletion rule for one inode, from its device, its mode and
/// whether it is the root directory itself: everything on the old
/// root device goes, everything else stays untouched.
pub open spec fn spec_delete_action(
    entry_dev: u64,
    root_dev: u64,
    is_dir: bool,
    is_root: bool,
) -> DeleteAction {
    if entry_dev != root_dev {
        DeleteAction::Keep
    } else if is_dir && is_root {
        DeleteAction::RecurseOnly
    } else if is_dir {
        DeleteAction::RecurseThenRemoveDir
    } else if is_root {
        DeleteAction::Keep
    } else {
        DeleteAction::RemoveFile
    }
}

/// Decide what the old root's deletion does with one inode.
pub fn delete_action(entry_dev: u64, root_dev: u64, is_dir: bool, is_root: bool) -> (r:
    DeleteAction)
    ensures
        r == spec_delete_action(entry_dev, root_dev, is_dir, is_root),
{
    if entry_dev != root_dev {
        DeleteAction::Keep
    } else if is_dir && is_root {
        DeleteAction::RecurseOnly
    } else if is_dir {
        DeleteAction::RecurseThenRemoveDir
    } else if is_root {
        DeleteAction::Keep
    } else {
        DeleteAction::RemoveFile
    }
}

/// An inode off the old root device is never touched, whatever else
/// holds of it.
pub proof fn lemma_new_root_untouched(entry_dev: u64, root_dev: u64, is_dir: bool, is_root: bool)
    ensures
        entry_dev != root_dev ==> spec_delete_action(entry_dev, root_dev, is_dir, is_root)
            == DeleteAction::Keep,
{
}

/// Whether a resolved init path names systemd, which is then handed
/// the boot timestamp: the path ends in `/systemd`.
pub fn is_systemd_compatible(resolved_init: &[u8]) -> (r: bool)
    ensures
        r == is_suffix(lit::spec_systemd_suffix(), resolved_init@),
{
    let suffix = lit::lit_systemd_suffix();
    ends_with(resolved_init, suffix.as_slice())
}

/// The timestamp line handed to a systemd-compatible init: the word
/// `initrd-timestamp=`, the wall clock, a space, the monotonic clock,
/// a newline; both clocks in microseconds.
pub open spec fn spec_systemd_state_line(s: Seq<u8>, wall: i64, monotonic: i64) -> bool {
    exists|i: int|
        {
            &&& 17 <= i < s.len()
            &&& s.subrange(0, 17) == lit::spec_initrd_timestamp()
            &&& spec_parse_i64(#[trigger] s.subrange(17, i)) == Some(wall)
            &&& s[i] == 32
            &&& s.last() == 10
            &&& spec_parse_i64(s.subrange(i + 1, s.len() - 1)) == Some(monotonic)
        }
}

/// Write the timestamp line for a systemd-compatible init.
pub fn systemd_state_line(wall: i64, monotonic: i64) -> (out: Vec<u8>)
    requires
        wall >= 0,
        monotonic >= 0,
    ensures
        spec_systemd_state_line(out@, wall, monotonic),
{
    let mut out = lit::lit_initrd_timestamp();
    let r = format_i64_dec(wall);
    push_all(&mut out, r.as_slice());
    let ghost i = out@.len() as int;
    out.push(32);
    let m = format_i64_dec(monotonic);
    push_all(&mut out, m.as_slice());
    out.push(10);
    proof {
        assert(out@.subrange(0, 17) =~= lit::spec_initrd_timestamp());
        assert(out@.subrange(17, i) =~= r@);
        assert(out@.subrange(i + 1, out@.len() - 1) =~= m@);
        assert(out@[i] == 32);
        assert(out@.last() == 10);
    }
    out
}

/// The fatal failures, in boot order.
#[derive(Debug, Clone, Copy, PartialEq, Eq, Structural)]
pub enum FatalError {
    SanityCheck,
    KmsgOpen,
    PseudoFsMount,
    ConfigLoad,
    KernelVersionMismatch,
    AliasLoad,
    PivotDir,
    CmdlineParse,
    EventLoopSetup,
    UdevStart,
    ForceModuleLoad,
    VconsoleSetup,
    SysfsWalk,
    EventLoopPoll,
    ExecFailure,
}

/// The process exit code of each fatal failure.
pub open spec fn spec_exit_code(e: FatalError) -> u8 {
    match e {
        FatalError::SanityCheck => 1,
        FatalError::KmsgOpen => 2,
        FatalError::PseudoFsMount => 3,
        FatalError::ConfigLoad => 4,
        FatalError::KernelVersionMismatch => 5,
        FatalError::AliasLoad => 6,
        FatalError::PivotDir => 7,
        FatalError::CmdlineParse => 8,
        FatalError::EventLoopSetup => 9,
        FatalError::UdevStart => 10,
        FatalError::ForceModuleLoad => 11,
        FatalError::VconsoleSetup => 12,
        FatalError::SysfsWalk => 13,
        FatalError::EventLoopPoll => 14,
        FatalError::ExecFailure => 101,
    }
}

/// The process exit code of each fatal failure.
pub fn exit_code(e: FatalError) -> (c: u8)
    ensures
        c == spec_exit_code(e),
{
    match e {
        FatalError::SanityCheck => 1,
        FatalError::KmsgOpen => 2,
        FatalError::PseudoFsMount => 3,
        FatalError::ConfigLoad => 4,
        FatalError::KernelVersionMismatch => 5,
        FatalError::AliasLoad => 6,
        FatalError::PivotDir => 7,
        FatalError::CmdlineParse => 8,
        FatalError::EventLoopSetup => 9,
        FatalError::UdevStart => 10,
        FatalError::ForceModuleLoad => 11,
        FatalError::VconsoleSetup => 12,
        FatalError::SysfsWalk => 13,
        FatalError::EventLoopPoll => 14,
        FatalError::ExecFailure => 101,
    }
}

} // verus!
