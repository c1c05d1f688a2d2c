//! The boot orchestration state machine.
//!
//! The process around the library performs each phase's outside work
//! (mounts, file reads, threads, the event loop) and reports what
//! happened; the decision what comes next — advance, retry, or die
//! with which exit code — is taken here.

use vstd::prelude::*;
use crate::util::FatalError;

verus! {

/// The boot phases, in order.
#[derive(Debug, Clone, Copy, PartialEq, Eq, Structural)]
pub enum BootPhase {
    /// Sanity checks, `devtmpfs`, the kernel log handle.
    Initializing,
    /// Pseudo filesystems, configuration, aliases, the command line.
    Configured,
    /// Listener and walker running, waiting for the root to appear.
    Listening,
    /// The root is mounted; the workers are being stopped.
    RootMounted,
    /// Moving mounts, deleting the old root.
    Switching,
    /// Ready to execute the target init.
    Handoff,
}

/// What the process reports back to the machine.
#[derive(Debug, Clone, Copy, PartialEq, Eq, Structural)]
pub enum BootEvent {
    SanityFailed,
    KmsgFailed,
    KmsgOpened,
    PseudoFsFailed,
    ConfigFailed,
    KernelVersionMismatched,
    AliasesFailed,
    PivotDirFailed,
    CmdlineFailed,
    CmdlineParsed,
    EventLoopFailed,
    UdevFailed,
    ForceModulesFailed,
    VconsoleFailed,
    WalkerFailed,
    PollInterrupted,
    PollTimeout,
    PollFailed,
    MainWake,
    ModulesSettled,
    PivotFailed,
    PivotComplete,
    ExecReturned,
}

/// What to do next.
#[derive(Debug, Clone, Copy, PartialEq, Eq, Structural)]
pub enum BootStep {
    /// Keep working in the same phase.
    Stay,
    /// Enter the next phase.
    Advance(BootPhase),
    /// Die with this failure's exit code.
    Fail(FatalError),
}

/// The position of a phase in boot order.
pub open spec fn spec_phase_index(p: BootPhase) -> int {
    match p {
        BootPhase::Initializing => 0,
        BootPhase::Configured => 1,
        BootPhase::Listening => 2,
        BootPhase::RootMounted => 3,
        BootPhase::Switching => 4,
        BootPhase::Handoff => 5,
    }
}

/// The transition table: which reports each phase accepts, where a
/// fatal report maps to its exit code, a retryable one stays, and the
/// phase's completion advances. A report a phase does not know is
/// ignored.
pub open spec fn spec_boot_step(p: BootPhase, e: BootEvent) -> BootStep {
    match p {
        BootPhase::Initializing => match e {
            BootEvent::SanityFailed => BootStep::Fail(FatalError::SanityCheck),
            BootEvent::KmsgFailed => BootStep::Fail(FatalError::KmsgOpen),
            BootEvent::KmsgOpened => BootStep::Advance(BootPhase::Configured),
            _ => BootStep::Stay,
        },
        BootPhase::Configured => match e {
            BootEvent::PseudoFsFailed => BootStep::Fail(FatalError::PseudoFsMount),
            BootEvent::ConfigFailed => BootStep::Fail(FatalError::ConfigLoad),
            BootEvent::KernelVersionMismatched => BootStep::Fail(
                FatalError::KernelVersionMismatch,
            ),
            BootEvent::AliasesFailed => BootStep::Fail(FatalError::AliasLoad),
            BootEvent::PivotDirFailed => BootStep::Fail(FatalError::PivotDir),
            BootEvent::CmdlineFailed => BootStep::Fail(FatalError::CmdlineParse),
            BootEvent::CmdlineParsed => BootStep::Advance(BootPhase::Listening),
            _ => BootStep::Stay,
        },
        BootPhase::Listening => match e {
            BootEvent::EventLoopFailed => BootStep::Fail(FatalError::EventLoopSetup),
            BootEvent::UdevFailed => BootStep::Fail(FatalError::UdevStart),
            BootEvent::ForceModulesFailed => BootStep::Fail(FatalError::ForceModuleLoad),
            BootEvent::VconsoleFailed => BootStep::Fail(FatalError::VconsoleSetup),
            BootEvent::WalkerFailed => BootStep::Fail(FatalError::SysfsWalk),
            BootEvent::PollInterrupted => BootStep::Stay,
            BootEvent::PollTimeout => BootStep::Fail(FatalError::EventLoopPoll),
            BootEvent::PollFailed => BootStep::Fail(FatalError::EventLoopPoll),
            BootEvent::MainWake => BootStep::Advance(BootPhase::RootMounted),
            _ => BootStep::Stay,
        },
        BootPhase::RootMounted => match e {
            BootEvent::ModulesSettled => BootStep::Advance(BootPhase::Switching),
            _ => BootStep::Stay,
        },
        BootPhase::Switching => match e {
            BootEvent::PivotFailed => BootStep::Fail(FatalError::PivotDir),
            BootEvent::PivotComplete => BootStep::Advance(BootPhase::Handoff),
            _ => BootStep::Stay,
        },
        BootPhase::Handoff => match e {
            BootEvent::ExecReturned => BootStep::Fail(FatalError::ExecFailure),
            _ => BootStep::Stay,
        },
    }
}

/// Take one step of the boot machine.
pub fn boot_step(p: BootPhase, e: BootEvent) -> (r: BootStep)
    ensures
        r == spec_boot_step(p, e),
{
    match p {
        BootPhase::Initializing => match e {
            BootEvent::SanityFailed => BootStep::Fail(FatalError::SanityCheck),
            BootEvent::KmsgFailed => BootStep::Fail(FatalError::KmsgOpen),
            BootEvent::KmsgOpened => BootStep::Advance(BootPhase::Configured),
            _ => BootStep::Stay,
        },
        BootPhase::Configured => match e {
            BootEvent::PseudoFsFailed => BootStep::Fail(FatalError::PseudoFsMount),
            BootEvent::ConfigFailed => BootStep::Fail(FatalError::ConfigLoad),
            BootEvent::KernelVersionMismatched => BootStep::Fail(
                FatalError::KernelVersionMismatch,
            ),
            BootEvent::AliasesFailed => BootStep::Fail(FatalError::AliasLoad),
            BootEvent::PivotDirFailed => BootStep::Fail(FatalError::PivotDir),
            BootEvent::CmdlineFailed => BootStep::Fail(FatalError::CmdlineParse),
            BootEvent::CmdlineParsed => BootStep::Advance(BootPhase::Listening),
            _ => BootStep::Stay,
        },
        BootPhase::Listening => match e {
            BootEvent::EventLoopFailed => BootStep::Fail(FatalError::EventLoopSetup),
            BootEvent::UdevFailed => BootStep::Fail(FatalError::UdevStart),
            BootEvent::ForceModulesFailed => BootStep::Fail(FatalError::ForceModuleLoad),
            BootEvent::VconsoleFailed => BootStep::Fail(FatalError::VconsoleSetup),
            BootEvent::WalkerFailed => BootStep::Fail(FatalError::SysfsWalk),
            BootEvent::PollInterrupted => BootStep::Stay,
            BootEvent::PollTimeout => BootStep::Fail(FatalError::EventLoopPoll),
            BootEvent::PollFailed => BootStep::Fail(FatalError::EventLoopPoll),
            BootEvent::MainWake => BootStep::Advance(BootPhase::RootMounted),
            _ => BootStep::Stay,
        },
        BootPhase::RootMounted => match e {
            BootEvent::ModulesSettled => BootStep::Advance(BootPhase::Switching),
            _ => BootStep::Stay,
        },
        BootPhase::Switching => match e {
            BootEvent::PivotFailed => BootStep::Fail(FatalError::PivotDir),
            BootEvent::PivotComplete => BootStep::Advance(BootPhase::Handoff),
            _ => BootStep::Stay,
        },
        BootPhase::Handoff => match e {
            BootEvent::ExecReturned => BootStep::Fail(FatalError::ExecFailure),
            _ => BootStep::Stay,
        },
    }
}

/// The machine only moves forward: an advance enters exactly the next
/// phase in boot order, and nothing ever moves back.
pub proof fn lemma_phases_advance_in_order(p: BootPhase, e: BootEvent)
    ensures
        spec_boot_step(p, e) matches BootStep::Advance(q) ==> spec_phase_index(q)
            == spec_phase_index(p) + 1,
{
}

} // verus!
