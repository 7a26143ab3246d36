//! The deployment state machine.
//!
//! A deployment uploads a program binary into the ledger in strictly
//! ordered phases: allocate the storage account, write every chunk in
//! order, then finalize.  Two loader variants share the machine: the
//! fixed loader allocates the program account itself, writes the chunks
//! into it and finalizes it executable; the upgradeable loader stages the
//! chunks in a buffer account sized for twice the binary (headroom for a
//! later, larger upgrade), then either deploys a fresh program account
//! pointing at the buffer or, when the target program already exists,
//! upgrades it in place.  Any failed step aborts the whole pipeline; no
//! rollback is attempted.
//!
//! The machine itself only decides: callers perform each step against the
//! real environment and feed the outcome back.  The model ledger at the
//! bottom of this module runs the same machine against in-memory accounts
//! and proves what a completed pipeline leaves behind.

use vstd::prelude::*;
use crate::chunks::{lemma_chunk_count_bounds, lemma_chunk_in_bounds, spec_chunk_count};

verus! {

/// Which loader a deployment targets.
#[derive(Debug, Clone, Copy, PartialEq, Eq, Structural)]
pub enum LoaderVariant {
    /// The fixed loader: the program account itself is written and
    /// finalized; the program cannot be upgraded later.
    Fixed,
    /// The upgradeable loader: a staging buffer is written, then promoted
    /// by a deploy or an upgrade.
    Upgradeable,
}

/// Phase of a deployment session.
#[derive(Debug, Clone, Copy, PartialEq, Eq, Structural)]
pub enum DeployPhase {
    /// Nothing has been submitted; storage must be allocated first.
    Created,
    /// Storage exists and the first `written` chunks have been accepted.
    Writing { written: usize },
    /// All chunks are in place and the existence of the target program
    /// account is known; the promoting step may be submitted.
    Finalizing { program_exists: bool },
    /// The pipeline completed.
    Deployed,
    /// A step was rejected; the pipeline is aborted and partially written
    /// storage is left in place.
    Failed,
}

/// The next outward step a session asks its driver to perform.
#[derive(Debug, Clone, Copy, PartialEq, Eq, Structural)]
pub enum DeployStep {
    /// Create and fund the storage account (fixed: the program account;
    /// upgradeable: the staging buffer).
    Allocate,
    /// Submit the write of chunk `index`, whose payload starts at byte
    /// `offset` of the binary.
    WriteChunk { index: usize, offset: u32 },
    /// Ask whether the target program account already exists
    /// (upgradeable variant only).
    CheckProgram,
    /// Mark the storage account executable (fixed variant).
    Finalize,
    /// Create the program account pointing at the staged buffer
    /// (upgradeable variant, target absent).
    Deploy,
    /// Re-point the existing program at the staged buffer (upgradeable
    /// variant, target present).
    Upgrade,
    /// Nothing is left to do: the deployment succeeded.
    Done,
    /// Nothing may be done: a step failed and the pipeline is aborted.
    Aborted,
}

/// What the driver reports back after performing a step.
#[derive(Debug, Clone, Copy, PartialEq, Eq, Structural)]
pub enum DeployEvent {
    /// The submitted transaction was accepted.
    Accepted,
    /// The submitted transaction was rejected, or the submission itself
    /// failed.
    Rejected,
    /// The existence check found the target program account.
    ProgramFound,
    /// The existence check found no target program account.
    ProgramMissing,
    /// The existence check itself failed; this must not be conflated with
    /// the target being absent.
    CheckFailed,
}

/// Ephemeral state of one deployment: the loader variant, the binary's
/// length, the chunk size computed once for the whole session, and the
/// current phase.
#[derive(Debug, Clone, Copy, PartialEq, Eq, Structural)]
pub struct DeploySession {
    /// The loader variant deployed against.
    pub variant: LoaderVariant,
    /// Length of the binary payload in bytes.
    pub binary_len: usize,
    /// Payload bytes per chunk, fixed for the whole session.
    pub chunk_size: usize,
    /// Where the pipeline stands.
    pub phase: DeployPhase,
}

impl DeploySession {
    /// The number of chunks this session writes.
    pub open spec fn spec_chunks(self) -> nat {
        spec_chunk_count(self.binary_len as nat, self.chunk_size as nat)
    }

    /// Well-formedness: a positive chunk size, offsets representable in
    /// 32 bits, and a written count never beyond the chunk count.
    pub open spec fn wf(self) -> bool {
        &&& self.chunk_size > 0
        &&& self.binary_len <= u32::MAX
        &&& 2 * self.binary_len <= usize::MAX
        &&& match self.phase {
            DeployPhase::Writing { written } => written <= self.spec_chunks(),
            _ => true,
        }
    }

    /// The step a driver must perform next in this phase.
    pub open spec fn spec_next_step(self) -> DeployStep {
        match self.phase {
            DeployPhase::Created => DeployStep::Allocate,
            DeployPhase::Writing { written } => {
                if written < self.spec_chunks() {
                    DeployStep::WriteChunk {
                        index: written,
                        offset: (written * self.chunk_size) as u32,
                    }
                } else {
                    match self.variant {
                        LoaderVariant::Fixed => DeployStep::Finalize,
                        LoaderVariant::Upgradeable => DeployStep::CheckProgram,
                    }
                }
            },
            DeployPhase::Finalizing { program_exists } => {
                if program_exists {
                    DeployStep::Upgrade
                } else {
                    DeployStep::Deploy
                }
            },
            DeployPhase::Deployed => DeployStep::Done,
            DeployPhase::Failed => DeployStep::Aborted,
        }
    }

    /// The phase after the driver reports `event` for the step
    /// `spec_next_step` asked for.  Any rejection or check failure, and
    /// any report that does not answer the pending step, aborts the
    /// pipeline; the terminal phases never move.
    pub open spec fn spec_advance(self, event: DeployEvent) -> DeploySession {
        let failed = DeploySession { phase: DeployPhase::Failed, ..self };
        match self.phase {
            DeployPhase::Created => match event {
                DeployEvent::Accepted => DeploySession {
                    phase: DeployPhase::Writing { written: 0 },
                    ..self
                },
                _ => failed,
            },
            DeployPhase::Writing { written } => {
                if written < self.spec_chunks() {
                    match event {
                        DeployEvent::Accepted => DeploySession {
                            phase: DeployPhase::Writing { written: (written + 1) as usize },
                            ..self
                        },
                        _ => failed,
                    }
                } else {
                    match self.variant {
                        LoaderVariant::Fixed => match event {
                            DeployEvent::Accepted => DeploySession {
                                phase: DeployPhase::Deployed,
                                ..self
                            },
                            _ => failed,
                        },
                        LoaderVariant::Upgradeable => match event {
                            DeployEvent::ProgramFound => DeploySession {
                                phase: DeployPhase::Finalizing { program_exists: true },
                                ..self
                            },
                            DeployEvent::ProgramMissing => DeploySession {
                                phase: DeployPhase::Finalizing { program_exists: false },
                                ..self
                            },
                            _ => failed,
                        },
                    }
                }
            },
            DeployPhase::Finalizing { .. } => match event {
                DeployEvent::Accepted => DeploySession { phase: DeployPhase::Deployed, ..self },
                _ => failed,
            },
            DeployPhase::Deployed => self,
            DeployPhase::Failed => self,
        }
    }

    /// Open a session in its initial phase.
    pub fn new(variant: LoaderVariant, binary_len: usize, chunk_size: usize) -> (r: DeploySession)
        requires
            chunk_size > 0,
            binary_len <= u32::MAX,
            2 * binary_len <= usize::MAX,
        ensures
            r == (DeploySession { variant, binary_len, chunk_size, phase: DeployPhase::Created }),
            r.wf(),
    {
        DeploySession { variant, binary_len, chunk_size, phase: DeployPhase::Created }
    }

    /// The number of chunks this session writes.
    pub fn chunk_count(&self) -> (r: usize)
        requires
            self.wf(),
        ensures
            r == self.spec_chunks(),
    {
        let q = self.binary_len / self.chunk_size;
        if self.binary_len % self.chunk_size == 0 {
            q
        } else {
            proof {
                vstd::arithmetic::div_mod::lemma_fundamental_div_mod(
                    self.binary_len as int,
                    self.chunk_size as int,
                );
                assert(q <= q * self.chunk_size) by (nonlinear_arith)
                    requires q >= 0, self.chunk_size >= 1,
                ;
                assert(self.chunk_size * q == q * self.chunk_size) by (nonlinear_arith);
            }
            q + 1
        }
    }

    /// The step the driver must perform next.
    pub fn next_step(&self) -> (r: DeployStep)
        requires
            self.wf(),
        ensures
            r == self.spec_next_step(),
    {
        match self.phase {
            DeployPhase::Created => DeployStep::Allocate,
            DeployPhase::Writing { written } => {
                if written < self.chunk_count() {
                    proof {
                        lemma_chunk_in_bounds(
                            self.binary_len as nat,
                            self.chunk_size as nat,
                            written as nat,
                        );
                    }
                    DeployStep::WriteChunk {
                        index: written,
                        offset: (written * self.chunk_size) as u32,
                    }
                } else {
                    match self.variant {
                        LoaderVariant::Fixed => DeployStep::Finalize,
                        LoaderVariant::Upgradeable => DeployStep::CheckProgram,
                    }
                }
            },
            DeployPhase::Finalizing { program_exists } => {
                if program_exists {
                    DeployStep::Upgrade
                } else {
                    DeployStep::Deploy
                }
            },
            DeployPhase::Deployed => DeployStep::Done,
            DeployPhase::Failed => DeployStep::Aborted,
        }
    }

    /// Record the outcome of the pending step and move to the next phase.
    pub fn advance(&mut self, event: DeployEvent)
        requires
            old(self).wf(),
        ensures
            *final(self) == old(self).spec_advance(event),
            final(self).wf(),
    {
        proof {
            lemma_chunk_count_bounds(self.binary_len as nat, self.chunk_size as nat);
        }
        let failed_phase = DeployPhase::Failed;
        match self.phase {
            DeployPhase::Created => {
                match event {
                    DeployEvent::Accepted => {
                        self.phase = DeployPhase::Writing { written: 0 };
                    },
                    _ => {
                        self.phase = failed_phase;
                    },
                }
            },
            DeployPhase::Writing { written } => {
                if written < self.chunk_count() {
                    match event {
                        DeployEvent::Accepted => {
                            self.phase = DeployPhase::Writing { written: written + 1 };
                        },
                        _ => {
                            self.phase = failed_phase;
                        },
                    }
                } else {
                    match self.variant {
                        LoaderVariant::Fixed => {
                            match event {
                                DeployEvent::Accepted => {
                                    self.phase = DeployPhase::Deployed;
                                },
                                _ => {
                                    self.phase = failed_phase;
                                },
                            }
                        },
                        LoaderVariant::Upgradeable => {
                            match event {
                                DeployEvent::ProgramFound => {
                                    self.phase = DeployPhase::Finalizing { program_exists: true };
                                },
                                DeployEvent::ProgramMissing => {
                                    self.phase = DeployPhase::Finalizing { program_exists: false };
                                },
                                _ => {
                                    self.phase = failed_phase;
                                },
                            }
                        },
                    }
                }
            },
            DeployPhase::Finalizing { .. } => {
                match event {
                    DeployEvent::Accepted => {
                        self.phase = DeployPhase::Deployed;
                    },
                    _ => {
                        self.phase = failed_phase;
                    },
                }
            },
            DeployPhase::Deployed => {},
            DeployPhase::Failed => {},
        }
    }

    /// Bytes of storage this session allocates: the binary's exact length
    /// for the fixed loader, twice the length for the upgradeable loader
    /// (headroom for a future larger upgrade).
    pub fn allocation_len(&self) -> (r: usize)
        requires
            self.wf(),
        ensures
            self.variant == LoaderVariant::Fixed ==> r == self.binary_len,
            self.variant == LoaderVariant::Upgradeable ==> r == 2 * self.binary_len,
    {
        proof {
            assert(self.binary_len <= u32::MAX);
        }
        match self.variant {
            LoaderVariant::Fixed => self.binary_len,
            LoaderVariant::Upgradeable => 2 * self.binary_len,
        }
    }
}

/// How far a session still has to go: strictly decreases at every
/// non-failing, non-terminal transition.
pub open spec fn spec_remaining_steps(s: DeploySession) -> int {
    match s.phase {
        DeployPhase::Created => s.spec_chunks() + 3int,
        DeployPhase::Writing { written } => s.spec_chunks() - written + 2,
        DeployPhase::Finalizing { .. } => 1,
        DeployPhase::Deployed => 0,
        DeployPhase::Failed => 0,
    }
}

} // verus!
