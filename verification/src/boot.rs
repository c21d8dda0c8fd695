//! Deterministic kernel initialization phase tracking.
//!
//! The real boot path lives behind platform-specific code. This module models
//! the initialization order so phase ordering can be checked before any
//! hardware is involved.
use vstd::prelude::*;

use crate::error::{KernelError, KernelResult};

verus! {

/// Ordered kernel initialization phases.
#[derive(Clone, Copy, Debug, Eq, PartialEq, Structural)]
pub enum BootPhase {
    /// Bootloader handoff and manifest parsing.
    LoaderHandoff,
    /// Early console setup.
    EarlyConsole,
    /// CPU feature validation.
    CpuFeatures,
    /// Boot memory map preservation.
    MemoryMap,
    /// Page table setup.
    Paging,
    /// Interrupt descriptor setup.
    Interrupts,
    /// Allocator initialization.
    Allocator,
    /// Timer initialization.
    Timer,
    /// Scheduler initialization.
    Scheduler,
    /// Device discovery and registration.
    Devices,
    /// Security and policy initialization.
    Security,
    /// Audit and observability handoff.
    Audit,
    /// Syscall table activation.
    Syscalls,
    /// Init runtime spawn.
    RuntimeSpawn,
}

impl BootPhase {
    /// The label of each phase.
    pub open spec fn spec_name(self) -> &'static str {
        match self {
            BootPhase::LoaderHandoff => "loader_handoff",
            BootPhase::EarlyConsole => "early_console",
            BootPhase::CpuFeatures => "cpu_features",
            BootPhase::MemoryMap => "memory_map",
            BootPhase::Paging => "paging",
            BootPhase::Interrupts => "interrupts",
            BootPhase::Allocator => "allocator",
            BootPhase::Timer => "timer",
            BootPhase::Scheduler => "scheduler",
            BootPhase::Devices => "devices",
            BootPhase::Security => "security",
            BootPhase::Audit => "audit",
            BootPhase::Syscalls => "syscalls",
            BootPhase::RuntimeSpawn => "runtime_spawn",
        }
    }

    /// Stable phase name for logs and diagnostics.
    pub fn name(self) -> (label: &'static str)
        ensures
            label == self.spec_name(),
    {
        match self {
            Self::LoaderHandoff => "loader_handoff",
            Self::EarlyConsole => "early_console",
            Self::CpuFeatures => "cpu_features",
            Self::MemoryMap => "memory_map",
            Self::Paging => "paging",
            Self::Interrupts => "interrupts",
            Self::Allocator => "allocator",
            Self::Timer => "timer",
            Self::Scheduler => "scheduler",
            Self::Devices => "devices",
            Self::Security => "security",
            Self::Audit => "audit",
            Self::Syscalls => "syscalls",
            Self::RuntimeSpawn => "runtime_spawn",
        }
    }
}

/// Number of deterministic boot phases.
pub const BOOT_PHASE_COUNT: usize = 14;

/// Deterministic initialization order.
pub const BOOT_SEQUENCE: [BootPhase; BOOT_PHASE_COUNT] = [
    BootPhase::LoaderHandoff,
    BootPhase::EarlyConsole,
    BootPhase::CpuFeatures,
    BootPhase::MemoryMap,
    BootPhase::Paging,
    BootPhase::Interrupts,
    BootPhase::Allocator,
    BootPhase::Timer,
    BootPhase::Scheduler,
    BootPhase::Devices,
    BootPhase::Security,
    BootPhase::Audit,
    BootPhase::Syscalls,
    BootPhase::RuntimeSpawn,
];

/// Boot progress tracker.
///
/// The view is the number of phases completed; the completed phases are
/// always the first that many of [`BOOT_SEQUENCE`].
#[derive(Clone, Debug, Eq, PartialEq)]
pub struct BootProgress {
    completed: [bool; BOOT_PHASE_COUNT],
    next_index: usize,
}

impl View for BootProgress {
    type V = nat;

    closed spec fn view(&self) -> nat {
        self.next_index as nat
    }
}

impl BootProgress {
    /// Whether a phase has been marked complete.
    pub closed spec fn has_completed(&self, phase: BootPhase) -> bool {
        self.completed@[phase as int]
    }

    /// Exactly the first `self@` phases of the boot order are complete.
    pub open spec fn wf(&self) -> bool {
        &&& self@ <= BOOT_PHASE_COUNT
        &&& forall|i: int|
            0 <= i < BOOT_PHASE_COUNT ==> (self.has_completed(#[trigger] BOOT_SEQUENCE@[i])
                <==> i < self@)
    }

    /// The phase expected after `done` completed ones.
    pub open spec fn expected_after(done: nat) -> Option<BootPhase> {
        if done < BOOT_PHASE_COUNT {
            Some(BOOT_SEQUENCE@[done as int])
        } else {
            None
        }
    }

    /// Creates a tracker with no phases completed.
    pub fn new() -> (progress: Self)
        ensures
            progress.wf(),
            progress@ == 0,
    {
        Self { completed: [false; BOOT_PHASE_COUNT], next_index: 0 }
    }

    /// Returns the next phase expected by the deterministic order.
    pub fn next_expected(&self) -> (phase: Option<BootPhase>)
        requires
            self.wf(),
        ensures
            phase == Self::expected_after(self@),
    {
        if self.next_index < BOOT_PHASE_COUNT {
            Some(BOOT_SEQUENCE[self.next_index])
        } else {
            None
        }
    }

    /// Marks the next phase complete, rejecting out-of-order calls.
    pub fn complete(&mut self, phase: BootPhase) -> (result: KernelResult<()>)
        requires
            old(self).wf(),
        ensures
            final(self).wf(),
            Self::expected_after(old(self)@) == Some(phase) ==> {
                &&& result == Ok::<(), KernelError>(())
                &&& final(self)@ == old(self)@ + 1
            },
            Self::expected_after(old(self)@) != Some(phase) ==> {
                &&& result == Err::<(), KernelError>(KernelError::InvalidState)
                &&& *final(self) == *old(self)
            },
    {
        let expected = match self.next_expected() {
            Some(expected) => expected,
            None => {
                return Err(KernelError::InvalidState);
            },
        };
        if expected != phase {
            return Err(KernelError::InvalidState);
        }
        self.completed[self.next_index] = true;
        self.next_index += 1;
        Ok(())
    }

    /// Returns `true` when all boot phases have completed.
    pub fn is_complete(&self) -> (done: bool)
        ensures
            done == (self@ == BOOT_PHASE_COUNT),
    {
        self.next_index == BOOT_PHASE_COUNT
    }

    /// Number of completed phases.
    pub fn completed_count(&self) -> (count: usize)
        ensures
            count == self@,
    {
        self.next_index
    }
}

impl Default for BootProgress {
    fn default() -> (progress: Self)
        ensures
            progress.wf(),
            progress@ == 0,
    {
        Self::new()
    }
}

/// The boot order holds every phase once, in the order of declaration.
pub proof fn law_boot_sequence_is_declaration_order(i: int)
    requires
        0 <= i < BOOT_PHASE_COUNT,
    ensures
        BOOT_SEQUENCE@[i] as int == i,
{
}

/// While boot is incomplete exactly one phase is accepted next, the one whose
/// place in the order is the number of completed phases; once boot is complete
/// none is.
pub proof fn law_one_phase_is_accepted(done: nat, phase: BootPhase)
    ensures
        BootProgress::expected_after(done) == Some(phase) <==> done < BOOT_PHASE_COUNT && phase
            as int == done,
{
    if done < BOOT_PHASE_COUNT {
        law_boot_sequence_is_declaration_order(done as int);
    }
}

/// A phase is complete only if every phase before it is.
pub proof fn law_phases_complete_in_order(progress: BootProgress, earlier: int, later: int)
    requires
        progress.wf(),
        0 <= earlier <= later < BOOT_PHASE_COUNT,
        progress.has_completed(BOOT_SEQUENCE@[later]),
    ensures
        progress.has_completed(BOOT_SEQUENCE@[earlier]),
{
}

/// What the kernel waits for next, by how many phases it has completed.
pub proof fn law_boot_order_is_fixed(done: nat)
    ensures
        BootProgress::expected_after(done) == Some(BootPhase::LoaderHandoff) <==> done == 0,
        BootProgress::expected_after(done) == Some(BootPhase::EarlyConsole) <==> done == 1,
        BootProgress::expected_after(done) == Some(BootPhase::CpuFeatures) <==> done == 2,
        BootProgress::expected_after(done) == Some(BootPhase::MemoryMap) <==> done == 3,
        BootProgress::expected_after(done) == Some(BootPhase::Paging) <==> done == 4,
        BootProgress::expected_after(done) == Some(BootPhase::Interrupts) <==> done == 5,
        BootProgress::expected_after(done) == Some(BootPhase::Allocator) <==> done == 6,
        BootProgress::expected_after(done) == Some(BootPhase::Timer) <==> done == 7,
        BootProgress::expected_after(done) == Some(BootPhase::Scheduler) <==> done == 8,
        BootProgress::expected_after(done) == Some(BootPhase::Devices) <==> done == 9,
        BootProgress::expected_after(done) == Some(BootPhase::Security) <==> done == 10,
        BootProgress::expected_after(done) == Some(BootPhase::Audit) <==> done == 11,
        BootProgress::expected_after(done) == Some(BootPhase::Syscalls) <==> done == 12,
        BootProgress::expected_after(done) == Some(BootPhase::RuntimeSpawn) <==> done == 13,
        BootProgress::expected_after(done) is None <==> done >= 14,
{
}

/// The labels of the phases.
pub proof fn law_phase_labels_are_stable(phase: BootPhase)
    ensures
        phase == BootPhase::LoaderHandoff ==> phase.spec_name() == "loader_handoff",
        phase == BootPhase::EarlyConsole ==> phase.spec_name() == "early_console",
        phase == BootPhase::CpuFeatures ==> phase.spec_name() == "cpu_features",
        phase == BootPhase::MemoryMap ==> phase.spec_name() == "memory_map",
        phase == BootPhase::Paging ==> phase.spec_name() == "paging",
        phase == BootPhase::Interrupts ==> phase.spec_name() == "interrupts",
        phase == BootPhase::Allocator ==> phase.spec_name() == "allocator",
        phase == BootPhase::Timer ==> phase.spec_name() == "timer",
        phase == BootPhase::Scheduler ==> phase.spec_name() == "scheduler",
        phase == BootPhase::Devices ==> phase.spec_name() == "devices",
        phase == BootPhase::Security ==> phase.spec_name() == "security",
        phase == BootPhase::Audit ==> phase.spec_name() == "audit",
        phase == BootPhase::Syscalls ==> phase.spec_name() == "syscalls",
        phase == BootPhase::RuntimeSpawn ==> phase.spec_name() == "runtime_spawn",
{
}

} // verus!
