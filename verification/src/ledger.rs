//! A model ledger: the deployment state machine run to completion against
//! in-memory accounts.
//!
//! The drivers here perform every step of a deployment against plain model
//! accounts and feed the machine the outcome, exactly as a real driver
//! does against a ledger environment.  Their contracts state what a
//! completed pipeline leaves behind: the fixed-loader variant an
//! executable account of exactly the binary's bytes owned by the fixed
//! loader, the upgradeable variant a staged buffer of twice the binary's
//! length and a program account pointing at it — fresh when no program
//! existed, upgraded in place (same identity) when one did.

use vstd::prelude::*;
use crate::chunks::{chunk_payload, lemma_chunk_count_bounds, lemma_chunk_in_bounds, spec_clip};
use crate::deploy::{
    DeployEvent, DeployPhase, DeploySession, DeployStep, LoaderVariant, spec_remaining_steps,
};

verus! {

/// Who owns a model account.
#[derive(Debug, Clone, Copy, PartialEq, Eq, Structural)]
pub enum ModelOwner {
    /// The system program: the account has not been handed to a loader.
    System,
    /// The fixed loader.
    FixedLoader,
    /// The upgradeable loader.
    UpgradeableLoader,
}

/// One storage account of the model ledger.
#[derive(Debug, Clone)]
pub struct ModelAccount {
    /// Whether the account has been created.
    pub exists: bool,
    /// The owning program.
    pub owner: ModelOwner,
    /// The account's bytes.
    pub data: Vec<u8>,
    /// Whether the account is marked executable.
    pub executable: bool,
}

/// The target program account of an upgradeable deployment.
#[derive(Debug, Clone, Copy, PartialEq, Eq, Structural)]
pub struct ModelProgram {
    /// Whether the program account exists.
    pub exists: bool,
    /// The account's identity (its address).
    pub id: u64,
    /// Whether its program-data pointer references the staged buffer.
    pub linked_to_buffer: bool,
}

/// A vector of `n` zero bytes.
pub fn zero_vec(n: usize) -> (r: Vec<u8>)
    ensures
        r@.len() == n,
        forall|i: int| 0 <= i < n ==> r@[i] == 0u8,
{
    let mut v: Vec<u8> = Vec::new();
    let mut i: usize = 0;
    while i < n
        invariant
            i <= n,
            v@.len() == i,
            forall|j: int| 0 <= j < i ==> v@[j] == 0u8,
        decreases n - i,
    {
        v.push(0u8);
        i += 1;
    }
    v
}

/// Overwrite `dst[offset .. offset + src.len()]` with `src`, leaving every
/// other byte unchanged.
pub fn write_bytes(dst: &mut Vec<u8>, offset: usize, src: &Vec<u8>)
    requires
        offset + src@.len() <= old(dst)@.len(),
    ensures
        final(dst)@.len() == old(dst)@.len(),
        forall|i: int|
            0 <= i < old(dst)@.len() ==> final(dst)@[i] == if offset <= i < offset + src@.len() {
                src@[i - offset]
            } else {
                old(dst)@[i]
            },
{
    let mut j: usize = 0;
    let src_len = src.len();
    let dst_len = dst.len();
    while j < src_len
        invariant
            j <= src_len,
            src_len == src@.len(),
            dst_len == dst@.len(),
            offset + src_len <= dst_len,
            dst@.len() == old(dst)@.len(),
            forall|i: int|
                0 <= i < dst@.len() ==> dst@[i] == if offset <= i < offset + j {
                    src@[i - offset]
                } else {
                    old(dst)@[i]
                },
        decreases src@.len() - j,
    {
        dst.set(offset + j, src[j]);
        j += 1;
    }
}

/// Run a complete fixed-loader deployment of `binary` against a model
/// ledger.  The pipeline allocates the program account, writes every
/// chunk in order, and finalizes; the resulting account holds exactly the
/// binary's bytes, is owned by the fixed loader, and is marked
/// executable.
pub fn run_fixed_deploy(binary: &Vec<u8>, chunk_size: usize) -> (r: (DeploySession, ModelAccount))
    requires
        chunk_size > 0,
        binary@.len() <= u32::MAX,
        2 * binary@.len() <= usize::MAX,
    ensures
        r.0.phase == DeployPhase::Deployed,
        r.1.exists,
        r.1.owner == ModelOwner::FixedLoader,
        r.1.executable,
        r.1.data@ == binary@,
{
    let len = binary.len();
    let chunks = chunk_payload(binary, chunk_size);
    let mut session = DeploySession::new(LoaderVariant::Fixed, len, chunk_size);
    let mut account = ModelAccount {
        exists: false,
        owner: ModelOwner::System,
        data: Vec::new(),
        executable: false,
    };
    proof {
        lemma_chunk_count_bounds(len as nat, chunk_size as nat);
    }
    loop
        invariant
            session.wf(),
            session.variant == LoaderVariant::Fixed,
            session.binary_len == len,
            session.chunk_size == chunk_size,
            len == binary@.len(),
            chunk_size > 0,
            chunks@.len() == session.spec_chunks(),
            forall|i: int|
                0 <= i < chunks@.len() ==> #[trigger] chunks@[i].bytes@
                    == crate::chunks::spec_chunk_bytes(binary@, chunk_size as nat, i as nat),
            forall|i: int|
                0 <= i < chunks@.len() ==> #[trigger] chunks@[i].offset == i * (chunk_size as int),
            match session.phase {
                DeployPhase::Created => !account.exists,
                DeployPhase::Writing { written } => {
                    &&& account.exists
                    &&& account.owner == ModelOwner::FixedLoader
                    &&& !account.executable
                    &&& account.data@.len() == len
                    &&& forall|i: int|
                        0 <= i < spec_clip((written as nat) * (chunk_size as nat), len as nat)
                            ==> account.data@[i] == binary@[i]
                },
                DeployPhase::Finalizing { .. } => false,
                DeployPhase::Deployed => {
                    &&& account.exists
                    &&& account.owner == ModelOwner::FixedLoader
                    &&& account.executable
                    &&& account.data@ == binary@
                },
                DeployPhase::Failed => false,
            },
        ensures
            session.phase == DeployPhase::Deployed,
            account.exists,
            account.owner == ModelOwner::FixedLoader,
            account.executable,
            account.data@ == binary@,
        decreases spec_remaining_steps(session),
    {
        let step = session.next_step();
        match step {
            DeployStep::Allocate => {
                account = ModelAccount {
                    exists: true,
                    owner: ModelOwner::FixedLoader,
                    data: zero_vec(len),
                    executable: false,
                };
                session.advance(DeployEvent::Accepted);
                proof {
                    assert(spec_clip((0 as nat) * (chunk_size as nat), len as nat) == 0);
                }
            },
            DeployStep::WriteChunk { index, offset } => {
                proof {
                    lemma_chunk_in_bounds(len as nat, chunk_size as nat, index as nat);
                }
                write_bytes(&mut account.data, offset as usize, &chunks[index].bytes);
                session.advance(DeployEvent::Accepted);
                proof {
                    let size = chunk_size as nat;
                    let w = index as nat;
                    let start = w * size;
                    let end = crate::chunks::spec_chunk_end(len as nat, size, w);
                    assert((w + 1) * size == w * size + size) by (nonlinear_arith);
                    assert(spec_clip((w + 1) * size, len as nat) == end);
                    assert(forall|i: int|
                        0 <= i < end ==> account.data@[i] == binary@[i]) by {
                        assert(forall|i: int|
                            start <= i < end ==> account.data@[i]
                                == crate::chunks::spec_chunk_bytes(binary@, size, w)[i - start]);
                        assert(forall|i: int|
                            start <= i < end
                                ==> crate::chunks::spec_chunk_bytes(binary@, size, w)[i - start]
                                == binary@[i]);
                    }
                }
            },
            DeployStep::Finalize => {
                proof {
                    lemma_chunk_count_bounds(len as nat, chunk_size as nat);
                    let written = session.spec_chunks();
                    assert(spec_clip(written * (chunk_size as nat), len as nat) == len as nat);
                }
                account.executable = true;
                session.advance(DeployEvent::Accepted);
                proof {
                    assert(account.data@ =~= binary@);
                }
            },
            DeployStep::Done => {
                break;
            },
            DeployStep::CheckProgram => {
                proof {
                    assert(false);
                }
                break;
            },
            DeployStep::Deploy => {
                proof {
                    assert(false);
                }
                break;
            },
            DeployStep::Upgrade => {
                proof {
                    assert(false);
                }
                break;
            },
            DeployStep::Aborted => {
                proof {
                    assert(false);
                }
                break;
            },
        }
    }
    (session, account)
}

/// The identity the target program account has after an upgradeable
/// deployment: unchanged when it already existed, the fresh identity when
/// the deploy branch created it.
pub open spec fn spec_deployed_program_id(existing_program: Option<u64>, fresh_program_id: u64) -> u64 {
    match existing_program {
        Some(id) => id,
        None => fresh_program_id,
    }
}

/// The promoting step an upgradeable deployment takes: an upgrade when
/// the target program account already exists, a fresh deploy otherwise.
pub open spec fn spec_promote_step(existing_program: Option<u64>) -> DeployStep {
    match existing_program {
        Some(_) => DeployStep::Upgrade,
        None => DeployStep::Deploy,
    }
}

/// Run a complete upgradeable-loader deployment of `binary` against a
/// model ledger.  The pipeline stages every chunk in a buffer account
/// sized for twice the binary, checks whether the target program account
/// exists, and then either creates it pointing at the staged buffer
/// (absent) or upgrades it in place, leaving its identity unchanged
/// (present).  The returned step is the promoting branch that was taken.
pub fn run_upgradeable_deploy(
    binary: &Vec<u8>,
    chunk_size: usize,
    existing_program: Option<u64>,
    fresh_program_id: u64,
) -> (r: (DeploySession, ModelAccount, ModelProgram, DeployStep))
    requires
        chunk_size > 0,
        binary@.len() <= u32::MAX,
        2 * binary@.len() <= usize::MAX,
    ensures
        r.0.phase == DeployPhase::Deployed,
        r.1.exists,
        r.1.owner == ModelOwner::UpgradeableLoader,
        !r.1.executable,
        r.1.data@.len() == 2 * binary@.len(),
        r.1.data@.take(binary@.len() as int) == binary@,
        r.2.exists,
        r.2.linked_to_buffer,
        r.2.id == spec_deployed_program_id(existing_program, fresh_program_id),
        r.3 == spec_promote_step(existing_program),
{
    let len = binary.len();
    let chunks = chunk_payload(binary, chunk_size);
    let mut session = DeploySession::new(LoaderVariant::Upgradeable, len, chunk_size);
    let mut buffer = ModelAccount {
        exists: false,
        owner: ModelOwner::System,
        data: Vec::new(),
        executable: false,
    };
    let mut program = match existing_program {
        Some(id) => ModelProgram { exists: true, id, linked_to_buffer: false },
        None => ModelProgram { exists: false, id: 0, linked_to_buffer: false },
    };
    let initial_program: Ghost<ModelProgram> = Ghost(program);
    let mut promote: DeployStep = DeployStep::Done;
    loop
        invariant
            session.wf(),
            session.variant == LoaderVariant::Upgradeable,
            session.binary_len == len,
            session.chunk_size == chunk_size,
            len == binary@.len(),
            chunk_size > 0,
            chunks@.len() == session.spec_chunks(),
            initial_program@.exists == existing_program is Some,
            existing_program matches Some(id) ==> initial_program@.id == id,
            !initial_program@.linked_to_buffer,
            forall|i: int|
                0 <= i < chunks@.len() ==> #[trigger] chunks@[i].bytes@
                    == crate::chunks::spec_chunk_bytes(binary@, chunk_size as nat, i as nat),
            match session.phase {
                DeployPhase::Created => !buffer.exists && program == initial_program@,
                DeployPhase::Writing { written } => {
                    &&& buffer.exists
                    &&& buffer.owner == ModelOwner::UpgradeableLoader
                    &&& !buffer.executable
                    &&& buffer.data@.len() == 2 * len
                    &&& forall|i: int|
                        0 <= i < spec_clip((written as nat) * (chunk_size as nat), len as nat)
                            ==> buffer.data@[i] == binary@[i]
                    &&& program == initial_program@
                },
                DeployPhase::Finalizing { program_exists } => {
                    &&& buffer.exists
                    &&& buffer.owner == ModelOwner::UpgradeableLoader
                    &&& !buffer.executable
                    &&& buffer.data@.len() == 2 * len
                    &&& forall|i: int| 0 <= i < len ==> buffer.data@[i] == binary@[i]
                    &&& program_exists == existing_program is Some
                    &&& program == initial_program@
                },
                DeployPhase::Deployed => {
                    &&& buffer.exists
                    &&& buffer.owner == ModelOwner::UpgradeableLoader
                    &&& !buffer.executable
                    &&& buffer.data@.len() == 2 * len
                    &&& forall|i: int| 0 <= i < len ==> buffer.data@[i] == binary@[i]
                    &&& program.exists
                    &&& program.linked_to_buffer
                    &&& program.id == spec_deployed_program_id(existing_program, fresh_program_id)
                    &&& promote == spec_promote_step(existing_program)
                },
                DeployPhase::Failed => false,
            },
        ensures
            session.phase == DeployPhase::Deployed,
            buffer.exists,
            buffer.owner == ModelOwner::UpgradeableLoader,
            !buffer.executable,
            buffer.data@.len() == 2 * len,
            forall|i: int| 0 <= i < len ==> buffer.data@[i] == binary@[i],
            program.exists,
            program.linked_to_buffer,
            program.id == spec_deployed_program_id(existing_program, fresh_program_id),
            promote == spec_promote_step(existing_program),
        decreases spec_remaining_steps(session),
    {
        let step = session.next_step();
        match step {
            DeployStep::Allocate => {
                buffer = ModelAccount {
                    exists: true,
                    owner: ModelOwner::UpgradeableLoader,
                    data: zero_vec(session.allocation_len()),
                    executable: false,
                };
                session.advance(DeployEvent::Accepted);
                proof {
                    assert(spec_clip((0 as nat) * (chunk_size as nat), len as nat) == 0);
                }
            },
            DeployStep::WriteChunk { index, offset } => {
                proof {
                    lemma_chunk_in_bounds(len as nat, chunk_size as nat, index as nat);
                }
                write_bytes(&mut buffer.data, offset as usize, &chunks[index].bytes);
                session.advance(DeployEvent::Accepted);
                proof {
                    let size = chunk_size as nat;
                    let w = index as nat;
                    let start = w * size;
                    let end = crate::chunks::spec_chunk_end(len as nat, size, w);
                    assert((w + 1) * size == w * size + size) by (nonlinear_arith);
                    assert(spec_clip((w + 1) * size, len as nat) == end);
                    assert(forall|i: int|
                        0 <= i < end ==> buffer.data@[i] == binary@[i]) by {
                        assert(forall|i: int|
                            start <= i < end ==> buffer.data@[i]
                                == crate::chunks::spec_chunk_bytes(binary@, size, w)[i - start]);
                        assert(forall|i: int|
                            start <= i < end
                                ==> crate::chunks::spec_chunk_bytes(binary@, size, w)[i - start]
                                == binary@[i]);
                    }
                }
            },
            DeployStep::CheckProgram => {
                proof {
                    lemma_chunk_count_bounds(len as nat, chunk_size as nat);
                    let written = session.spec_chunks();
                    assert(spec_clip(written * (chunk_size as nat), len as nat) == len as nat);
                }
                if program.exists {
                    session.advance(DeployEvent::ProgramFound);
                } else {
                    session.advance(DeployEvent::ProgramMissing);
                }
            },
            DeployStep::Deploy => {
                program = ModelProgram {
                    exists: true,
                    id: fresh_program_id,
                    linked_to_buffer: true,
                };
                promote = DeployStep::Deploy;
                session.advance(DeployEvent::Accepted);
            },
            DeployStep::Upgrade => {
                program.linked_to_buffer = true;
                promote = DeployStep::Upgrade;
                session.advance(DeployEvent::Accepted);
            },
            DeployStep::Done => {
                break;
            },
            DeployStep::Finalize => {
                proof {
                    assert(false);
                }
                break;
            },
            DeployStep::Aborted => {
                proof {
                    assert(false);
                }
                break;
            },
        }
    }
    proof {
        assert(buffer.data@.take(len as int) =~= binary@);
    }
    (session, buffer, program, promote)
}

} // verus!
