//! Core logic of an initramfs `init`: kernel command line parsing, root
//! partition selection, kernel module loading with dependency tracking,
//! device alias matching, and the pivot hand-off rules.
//!
//! The code here is pure decision logic over plain values; the thin
//! process around it performs the actual system calls and hands the
//! results back in.

use vstd::prelude::*;

pub mod alias;
pub mod bytes;
pub mod cmdline;
pub mod config;
pub mod dec;
pub mod flags;
pub mod hex;
pub mod kmsg;
pub mod lit;
pub mod loader;
pub mod modparams;
pub mod mount;
pub mod orchestrator;
pub mod partition;
pub mod uevent;
pub mod util;
pub mod uuid;
pub mod vconsole;
pub mod verbosity;

verus! {

} // verus!
