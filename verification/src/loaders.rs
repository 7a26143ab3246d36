//! Instruction builders and account sizing for the two loaders.
//!
//! The deployment pipeline submits a fixed repertoire of transactions:
//! allocate the storage account, write one chunk, and promote (finalize,
//! deploy or upgrade).  The wrappers here hold the loader SDK's
//! instruction constructors — each a deterministic function of its
//! arguments, so each result carries a name — and the builders on top of
//! them compute the account sizes and rent-exempt balances with verified
//! arithmetic and hand back exactly the named, fully signed transactions
//! (or instruction lists, where the caller assembles the transaction
//! itself).

use vstd::prelude::*;
use crate::assembly::{
    keypair_pubkey, sign_transaction, spec_ix_account_count, spec_keypair_pubkey,
    spec_sign_transaction, spec_total_message_keys,
};
use crate::chunks::Chunk;
use crate::error::TestFrameWorkError;

verus! {

/// Metadata bytes that precede the program bytes in a programdata
/// account of the upgradeable loader.
pub const PROGRAMDATA_METADATA_SIZE: usize = 45;

/// Rent configuration under the default rent: lamports owed per byte
/// (and per byte of the fixed per-account overhead) for the two years of
/// the exemption threshold.
pub const RENT_LAMPORTS_PER_BYTE: u64 = 6960;

/// Bytes of per-account storage overhead the rent calculation charges
/// for.
pub const RENT_ACCOUNT_OVERHEAD: u64 = 128;

pub uninterp spec fn spec_fixed_program_account_tx(
    from: &solana_sdk::signature::Keypair,
    to: &solana_sdk::signature::Keypair,
    recent_blockhash: solana_sdk::hash::Hash,
    lamports: u64,
    space: u64,
) -> solana_sdk::transaction::Transaction;

pub uninterp spec fn spec_fixed_write_ix(
    account: solana_sdk::pubkey::Pubkey,
    offset: u32,
    bytes: Seq<u8>,
) -> solana_sdk::instruction::Instruction;

pub uninterp spec fn spec_fixed_finalize_ix(
    account: solana_sdk::pubkey::Pubkey,
) -> solana_sdk::instruction::Instruction;

pub uninterp spec fn spec_create_buffer_ixs(
    payer: solana_sdk::pubkey::Pubkey,
    buffer: solana_sdk::pubkey::Pubkey,
    authority: solana_sdk::pubkey::Pubkey,
    lamports: u64,
    program_len: usize,
) -> Seq<solana_sdk::instruction::Instruction>;

pub uninterp spec fn spec_buffer_write_ix(
    buffer: solana_sdk::pubkey::Pubkey,
    authority: solana_sdk::pubkey::Pubkey,
    offset: u32,
    bytes: Seq<u8>,
) -> solana_sdk::instruction::Instruction;

pub uninterp spec fn spec_deploy_ixs(
    payer: solana_sdk::pubkey::Pubkey,
    program: solana_sdk::pubkey::Pubkey,
    buffer: solana_sdk::pubkey::Pubkey,
    authority: solana_sdk::pubkey::Pubkey,
    program_lamports: u64,
    max_data_len: usize,
) -> Seq<solana_sdk::instruction::Instruction>;

pub uninterp spec fn spec_program_state_bytes(
    programdata_address: solana_sdk::pubkey::Pubkey,
) -> Seq<u8>;

pub uninterp spec fn spec_programdata_prefix_bytes(
    upgrade_slot: u64,
    upgrade_authority: solana_sdk::pubkey::Pubkey,
) -> Seq<u8>;

pub uninterp spec fn spec_upgrade_ix(
    program: solana_sdk::pubkey::Pubkey,
    buffer: solana_sdk::pubkey::Pubkey,
    authority: solana_sdk::pubkey::Pubkey,
    spill: solana_sdk::pubkey::Pubkey,
) -> solana_sdk::instruction::Instruction;

/// Relies on UpgradeableLoaderState::size_of_programdata: the metadata
/// prefix plus the program bytes, saturating at the address-space limit.
#[verifier::external_body]
pub fn size_of_programdata(program_len: usize) -> (r: usize)
    ensures
        program_len + PROGRAMDATA_METADATA_SIZE <= usize::MAX ==> r == program_len
            + PROGRAMDATA_METADATA_SIZE,
        program_len + PROGRAMDATA_METADATA_SIZE > usize::MAX ==> r == usize::MAX,
{
    solana_sdk::bpf_loader_upgradeable::UpgradeableLoaderState::size_of_programdata(program_len)
}

/// Relies on Rent::default and Rent::minimum_balance: under the default
/// rent configuration (3480 lamports per byte-year, an exemption
/// threshold of two years, 128 bytes of per-account overhead) the
/// rent-exempt minimum is `(128 + data_len) * 6960` lamports; for
/// lengths below 2^40 the floating-point step inside is exact.
#[verifier::external_body]
pub fn default_rent_exempt_minimum(data_len: usize) -> (r: u64)
    requires
        data_len < 0x100_0000_0000,
    ensures
        r == (RENT_ACCOUNT_OVERHEAD + data_len) * RENT_LAMPORTS_PER_BYTE,
{
    solana_sdk::rent::Rent::default().minimum_balance(data_len)
}

/// Relies on system_transaction::create_account and bpf_loader::id: a
/// transaction, signed by both keypairs against `recent_blockhash`, that
/// creates `to` with the given balance and size, owned by the fixed
/// loader.  Both keypairs sign the three-key message it builds, so the
/// signing inside cannot fail, and the construction is deterministic.
#[verifier::external_body]
pub fn fixed_program_account_transaction(
    from: &solana_sdk::signature::Keypair,
    to: &solana_sdk::signature::Keypair,
    recent_blockhash: solana_sdk::hash::Hash,
    lamports: u64,
    space: u64,
) -> (r: solana_sdk::transaction::Transaction)
    ensures
        r == spec_fixed_program_account_tx(from, to, recent_blockhash, lamports, space),
{
    solana_sdk::system_transaction::create_account(
        from,
        to,
        recent_blockhash,
        lamports,
        space,
        &solana_sdk::bpf_loader::id(),
    )
}

/// Relies on loader_instruction::write and bpf_loader::id: the fixed
/// loader's Write instruction, addressed at `account`, carrying the
/// given offset and bytes.  Its account list holds the one writable
/// signer `account` (see the source), so it references one account.
#[verifier::external_body]
pub fn fixed_write_instruction(
    account: &solana_sdk::pubkey::Pubkey,
    offset: u32,
    bytes: Vec<u8>,
) -> (r: solana_sdk::instruction::Instruction)
    ensures
        r == spec_fixed_write_ix(*account, offset, bytes@),
        spec_ix_account_count(r) == 1,
{
    solana_sdk::loader_instruction::write(account, &solana_sdk::bpf_loader::id(), offset, bytes)
}

/// Relies on loader_instruction::finalize and bpf_loader::id: the fixed
/// loader's Finalize instruction, which marks `account` executable.  Its
/// account list holds `account` and the rent sysvar, two accounts.
#[verifier::external_body]
pub fn fixed_finalize_instruction(account: &solana_sdk::pubkey::Pubkey) -> (r:
    solana_sdk::instruction::Instruction)
    ensures
        r == spec_fixed_finalize_ix(*account),
        spec_ix_account_count(r) == 2,
{
    solana_sdk::loader_instruction::finalize(account, &solana_sdk::bpf_loader::id())
}

/// Relies on bpf_loader_upgradeable::create_buffer: the two instructions
/// that create the buffer account and initialize its authority.  The
/// source returns them unconditionally, so the unwrap cannot fail.
#[verifier::external_body]
pub fn create_buffer_instructions(
    payer: &solana_sdk::pubkey::Pubkey,
    buffer: &solana_sdk::pubkey::Pubkey,
    authority: &solana_sdk::pubkey::Pubkey,
    lamports: u64,
    program_len: usize,
) -> (r: Vec<solana_sdk::instruction::Instruction>)
    ensures
        r@ == spec_create_buffer_ixs(*payer, *buffer, *authority, lamports, program_len),
        r@.len() == 2,
{
    solana_sdk::bpf_loader_upgradeable::create_buffer(
        payer,
        buffer,
        authority,
        lamports,
        program_len,
    ).unwrap()
}

/// Relies on bpf_loader_upgradeable::write: the upgradeable loader's
/// Write instruction against the buffer, authorized by `authority`.
/// Its account list holds the buffer and the authority, two accounts.
#[verifier::external_body]
pub fn buffer_write_instruction(
    buffer: &solana_sdk::pubkey::Pubkey,
    authority: &solana_sdk::pubkey::Pubkey,
    offset: u32,
    bytes: Vec<u8>,
) -> (r: solana_sdk::instruction::Instruction)
    ensures
        r == spec_buffer_write_ix(*buffer, *authority, offset, bytes@),
        spec_ix_account_count(r) == 2,
{
    solana_sdk::bpf_loader_upgradeable::write(buffer, authority, offset, bytes)
}

/// Relies on bpf_loader_upgradeable::deploy_with_max_program_len: the
/// two instructions that create the program account and deploy it from
/// the staged buffer.  The source returns them unconditionally, so the
/// unwrap cannot fail.
#[verifier::external_body]
pub fn deploy_instructions(
    payer: &solana_sdk::pubkey::Pubkey,
    program: &solana_sdk::pubkey::Pubkey,
    buffer: &solana_sdk::pubkey::Pubkey,
    authority: &solana_sdk::pubkey::Pubkey,
    program_lamports: u64,
    max_data_len: usize,
) -> (r: Vec<solana_sdk::instruction::Instruction>)
    ensures
        r@ == spec_deploy_ixs(*payer, *program, *buffer, *authority, program_lamports, max_data_len),
        r@.len() == 2,
{
    solana_sdk::bpf_loader_upgradeable::deploy_with_max_program_len(
        payer,
        program,
        buffer,
        authority,
        program_lamports,
        max_data_len,
    ).unwrap()
}

/// Relies on bpf_loader_upgradeable::upgrade: the instruction that
/// replaces an existing program's code with the staged buffer, spilling
/// the buffer's excess lamports to `spill`.  Its account list holds
/// seven accounts (see the source).
#[verifier::external_body]
pub fn upgrade_program_instruction(
    program: &solana_sdk::pubkey::Pubkey,
    buffer: &solana_sdk::pubkey::Pubkey,
    authority: &solana_sdk::pubkey::Pubkey,
    spill: &solana_sdk::pubkey::Pubkey,
) -> (r: solana_sdk::instruction::Instruction)
    ensures
        r == spec_upgrade_ix(*program, *buffer, *authority, *spill),
        spec_ix_account_count(r) == 7,
{
    solana_sdk::bpf_loader_upgradeable::upgrade(program, buffer, authority, spill)
}

/// The transaction that allocates the fixed-loader program account:
/// sized to exactly `binary_len` bytes, owned by the fixed loader, and
/// funded to the rent-exempt minimum for that size.
pub fn fixed_allocation_transaction(
    payer: &solana_sdk::signature::Keypair,
    program_account: &solana_sdk::signature::Keypair,
    recent_blockhash: solana_sdk::hash::Hash,
    binary_len: usize,
) -> (r: solana_sdk::transaction::Transaction)
    requires
        binary_len <= u32::MAX,
    ensures
        r == spec_fixed_program_account_tx(
            payer,
            program_account,
            recent_blockhash,
            ((RENT_ACCOUNT_OVERHEAD + binary_len) * RENT_LAMPORTS_PER_BYTE) as u64,
            binary_len as u64,
        ),
{
    let lamports = default_rent_exempt_minimum(binary_len);
    fixed_program_account_transaction(
        payer,
        program_account,
        recent_blockhash,
        lamports,
        binary_len as u64,
    )
}

/// The signed transaction that writes one chunk into the fixed-loader
/// program account: exactly the one named write instruction, fee-paid by
/// `payer` and signed by the payer and the program account's keypair;
/// the signing failure, impossible here in practice, maps to the
/// library's error.
pub fn fixed_write_transaction(
    payer: &solana_sdk::signature::Keypair,
    program_account: &solana_sdk::signature::Keypair,
    chunk: Chunk,
    recent_blockhash: solana_sdk::hash::Hash,
) -> (r: Result<solana_sdk::transaction::Transaction, TestFrameWorkError>)
    ensures
        r == (match spec_sign_transaction(
            seq![
                spec_fixed_write_ix(
                    spec_keypair_pubkey(program_account),
                    chunk.offset,
                    chunk.bytes@,
                ),
            ],
            spec_keypair_pubkey(payer),
            seq![payer, program_account],
            recent_blockhash,
        ) {
            Ok(t) => Ok::<_, TestFrameWorkError>(t),
            Err(_) => Err(TestFrameWorkError::Error("cannot sign the chunk write transaction")),
        }),
{
    let program_pubkey = keypair_pubkey(program_account);
    let payer_pubkey = keypair_pubkey(payer);
    let offset = chunk.offset;
    let ix = fixed_write_instruction(&program_pubkey, offset, chunk.bytes);
    let ghost ix_snapshot: solana_sdk::instruction::Instruction = ix;
    let mut instructions: Vec<solana_sdk::instruction::Instruction> = Vec::new();
    instructions.push(ix);
    let mut signers: Vec<&solana_sdk::signature::Keypair> = Vec::new();
    signers.push(payer);
    signers.push(program_account);
    proof {
        lemma_single_instruction_keys(instructions@, ix_snapshot);
        assert(signers@ =~= seq![payer, program_account]);
    }
    match sign_transaction(&instructions, &payer_pubkey, &signers, recent_blockhash) {
        Ok(t) => Ok(t),
        Err(_) => Err(TestFrameWorkError::Error("cannot sign the chunk write transaction")),
    }
}

/// The signed transaction that finalizes the fixed-loader program
/// account executable: exactly the one named finalize instruction,
/// fee-paid by `payer` and signed by the payer and the program account's
/// keypair.
pub fn fixed_finalize_transaction(
    payer: &solana_sdk::signature::Keypair,
    program_account: &solana_sdk::signature::Keypair,
    recent_blockhash: solana_sdk::hash::Hash,
) -> (r: Result<solana_sdk::transaction::Transaction, TestFrameWorkError>)
    ensures
        r == (match spec_sign_transaction(
            seq![spec_fixed_finalize_ix(spec_keypair_pubkey(program_account))],
            spec_keypair_pubkey(payer),
            seq![payer, program_account],
            recent_blockhash,
        ) {
            Ok(t) => Ok::<_, TestFrameWorkError>(t),
            Err(_) => Err(TestFrameWorkError::Error("cannot sign the finalize transaction")),
        }),
{
    let program_pubkey = keypair_pubkey(program_account);
    let payer_pubkey = keypair_pubkey(payer);
    let ix = fixed_finalize_instruction(&program_pubkey);
    let ghost ix_snapshot: solana_sdk::instruction::Instruction = ix;
    let mut instructions: Vec<solana_sdk::instruction::Instruction> = Vec::new();
    instructions.push(ix);
    let mut signers: Vec<&solana_sdk::signature::Keypair> = Vec::new();
    signers.push(payer);
    signers.push(program_account);
    proof {
        lemma_single_instruction_keys(instructions@, ix_snapshot);
        assert(signers@ =~= seq![payer, program_account]);
    }
    match sign_transaction(&instructions, &payer_pubkey, &signers, recent_blockhash) {
        Ok(t) => Ok(t),
        Err(_) => Err(TestFrameWorkError::Error("cannot sign the finalize transaction")),
    }
}

/// The instructions that allocate the upgradeable loader's staging
/// buffer: sized for twice the binary (headroom for a later, larger
/// upgrade) and funded to the rent-exempt minimum of a programdata
/// account of that doubled length.
pub fn buffer_allocation_instructions(
    payer: &solana_sdk::pubkey::Pubkey,
    buffer: &solana_sdk::pubkey::Pubkey,
    authority: &solana_sdk::pubkey::Pubkey,
    binary_len: usize,
) -> (r: Vec<solana_sdk::instruction::Instruction>)
    requires
        binary_len <= u32::MAX,
        2 * binary_len + PROGRAMDATA_METADATA_SIZE <= usize::MAX,
    ensures
        r@ == spec_create_buffer_ixs(
            *payer,
            *buffer,
            *authority,
            ((RENT_ACCOUNT_OVERHEAD + 2 * binary_len + PROGRAMDATA_METADATA_SIZE)
                * RENT_LAMPORTS_PER_BYTE) as u64,
            (2 * binary_len) as usize,
        ),
        r@.len() == 2,
{
    let doubled = 2 * binary_len;
    let funded_size = size_of_programdata(doubled);
    let lamports = default_rent_exempt_minimum(funded_size);
    create_buffer_instructions(payer, buffer, authority, lamports, doubled)
}

/// The signed transaction that writes one chunk into the staging
/// buffer: exactly the one named write instruction, fee-paid by `payer`
/// and signed by the payer and the buffer authority.
pub fn buffer_write_transaction(
    payer: &solana_sdk::signature::Keypair,
    buffer: &solana_sdk::pubkey::Pubkey,
    buffer_authority: &solana_sdk::signature::Keypair,
    chunk: Chunk,
    recent_blockhash: solana_sdk::hash::Hash,
) -> (r: Result<solana_sdk::transaction::Transaction, TestFrameWorkError>)
    ensures
        r == (match spec_sign_transaction(
            seq![
                spec_buffer_write_ix(
                    *buffer,
                    spec_keypair_pubkey(buffer_authority),
                    chunk.offset,
                    chunk.bytes@,
                ),
            ],
            spec_keypair_pubkey(payer),
            seq![payer, buffer_authority],
            recent_blockhash,
        ) {
            Ok(t) => Ok::<_, TestFrameWorkError>(t),
            Err(_) => Err(TestFrameWorkError::Error("cannot sign the chunk write transaction")),
        }),
{
    let authority_pubkey = keypair_pubkey(buffer_authority);
    let payer_pubkey = keypair_pubkey(payer);
    let offset = chunk.offset;
    let ix = buffer_write_instruction(buffer, &authority_pubkey, offset, chunk.bytes);
    let ghost ix_snapshot: solana_sdk::instruction::Instruction = ix;
    let mut instructions: Vec<solana_sdk::instruction::Instruction> = Vec::new();
    instructions.push(ix);
    let mut signers: Vec<&solana_sdk::signature::Keypair> = Vec::new();
    signers.push(payer);
    signers.push(buffer_authority);
    proof {
        lemma_single_instruction_keys(instructions@, ix_snapshot);
        assert(signers@ =~= seq![payer, buffer_authority]);
    }
    match sign_transaction(&instructions, &payer_pubkey, &signers, recent_blockhash) {
        Ok(t) => Ok(t),
        Err(_) => Err(TestFrameWorkError::Error("cannot sign the chunk write transaction")),
    }
}

/// The instructions that promote the staged buffer to a fresh program
/// account: the deploy branch, for a target program that does not exist
/// yet, funded like the buffer to the rent-exempt minimum of the doubled
/// programdata length.
pub fn upgradeable_deploy_instructions(
    payer: &solana_sdk::pubkey::Pubkey,
    program: &solana_sdk::pubkey::Pubkey,
    buffer: &solana_sdk::pubkey::Pubkey,
    authority: &solana_sdk::pubkey::Pubkey,
    binary_len: usize,
) -> (r: Vec<solana_sdk::instruction::Instruction>)
    requires
        binary_len <= u32::MAX,
        2 * binary_len + PROGRAMDATA_METADATA_SIZE <= usize::MAX,
    ensures
        r@ == spec_deploy_ixs(
            *payer,
            *program,
            *buffer,
            *authority,
            ((RENT_ACCOUNT_OVERHEAD + 2 * binary_len + PROGRAMDATA_METADATA_SIZE)
                * RENT_LAMPORTS_PER_BYTE) as u64,
            (2 * binary_len) as usize,
        ),
        r@.len() == 2,
{
    let doubled = 2 * binary_len;
    let funded_size = size_of_programdata(doubled);
    let lamports = default_rent_exempt_minimum(funded_size);
    deploy_instructions(payer, program, buffer, authority, lamports, doubled)
}

/// The signed transaction that upgrades an existing program in place
/// from the staged buffer: exactly the one named upgrade instruction,
/// fee-paid by `payer` and signed by the payer and the buffer authority;
/// the program's keypair is not needed, and the buffer's excess lamports
/// spill back to the payer.
pub fn upgrade_program_transaction(
    payer: &solana_sdk::signature::Keypair,
    program: &solana_sdk::pubkey::Pubkey,
    buffer: &solana_sdk::pubkey::Pubkey,
    buffer_authority: &solana_sdk::signature::Keypair,
    recent_blockhash: solana_sdk::hash::Hash,
) -> (r: Result<solana_sdk::transaction::Transaction, TestFrameWorkError>)
    ensures
        r == (match spec_sign_transaction(
            seq![
                spec_upgrade_ix(
                    *program,
                    *buffer,
                    spec_keypair_pubkey(buffer_authority),
                    spec_keypair_pubkey(payer),
                ),
            ],
            spec_keypair_pubkey(payer),
            seq![payer, buffer_authority],
            recent_blockhash,
        ) {
            Ok(t) => Ok::<_, TestFrameWorkError>(t),
            Err(_) => Err(TestFrameWorkError::Error("cannot sign the upgrade transaction")),
        }),
{
    let authority_pubkey = keypair_pubkey(buffer_authority);
    let payer_pubkey = keypair_pubkey(payer);
    let ix = upgrade_program_instruction(program, buffer, &authority_pubkey, &payer_pubkey);
    let ghost ix_snapshot: solana_sdk::instruction::Instruction = ix;
    let mut instructions: Vec<solana_sdk::instruction::Instruction> = Vec::new();
    instructions.push(ix);
    let mut signers: Vec<&solana_sdk::signature::Keypair> = Vec::new();
    signers.push(payer);
    signers.push(buffer_authority);
    proof {
        lemma_single_instruction_keys(instructions@, ix_snapshot);
        assert(signers@ =~= seq![payer, buffer_authority]);
    }
    match sign_transaction(&instructions, &payer_pubkey, &signers, recent_blockhash) {
        Ok(t) => Ok(t),
        Err(_) => Err(TestFrameWorkError::Error("cannot sign the upgrade transaction")),
    }
}

/// Relies on bincode::serialize of UpgradeableLoaderState::Program: the
/// 36-byte account image of a program account that points at
/// `programdata_address` (a 4-byte variant tag followed by the 32-byte
/// address; see size_of_program in the source).  Serializing into a
/// fresh vector cannot fail, so the unwrap cannot panic; the bytes are a
/// function of the address alone.
#[verifier::external_body]
pub fn serialize_program_state(programdata_address: &solana_sdk::pubkey::Pubkey) -> (r: Vec<u8>)
    ensures
        r@ == spec_program_state_bytes(*programdata_address),
        r@.len() == 36,
{
    bincode::serialize(
        &solana_sdk::bpf_loader_upgradeable::UpgradeableLoaderState::Program {
            programdata_address: *programdata_address,
        },
    ).unwrap()
}

/// Relies on bincode::serialize of UpgradeableLoaderState::ProgramData
/// with an upgrade authority present: the 45-byte metadata prefix of a
/// programdata account (a 4-byte variant tag, the 8-byte slot, a 1-byte
/// option tag and the 32-byte authority; see size_of_programdata_metadata
/// in the source).  Serializing into a fresh vector cannot fail; the
/// bytes are a function of the two arguments alone.
#[verifier::external_body]
pub fn serialize_programdata_prefix(
    upgrade_slot: u64,
    upgrade_authority: &solana_sdk::pubkey::Pubkey,
) -> (r: Vec<u8>)
    ensures
        r@ == spec_programdata_prefix_bytes(upgrade_slot, *upgrade_authority),
        r@.len() == 45,
{
    bincode::serialize(
        &solana_sdk::bpf_loader_upgradeable::UpgradeableLoaderState::ProgramData {
            slot: upgrade_slot,
            upgrade_authority_address: Some(*upgrade_authority),
        },
    ).unwrap()
}

/// The two account images that seed an already-built upgradeable
/// program into an environment: the program account's image, pointing at
/// the programdata address and meant to be marked executable, and the
/// programdata account's image, the serialized metadata prefix followed
/// by the program's bytes.
pub fn bpf_program_account_images(
    program_bytes: &Vec<u8>,
    programdata_address: &solana_sdk::pubkey::Pubkey,
    upgrade_authority: &solana_sdk::pubkey::Pubkey,
    upgrade_slot: u64,
) -> (r: (Vec<u8>, Vec<u8>))
    ensures
        r.0@ == spec_program_state_bytes(*programdata_address),
        r.0@.len() == 36,
        r.1@ == spec_programdata_prefix_bytes(upgrade_slot, *upgrade_authority)
            + program_bytes@,
{
    let program_image = serialize_program_state(programdata_address);
    let mut programdata_image = serialize_programdata_prefix(upgrade_slot, upgrade_authority);
    let ghost prefix: Seq<u8> = programdata_image@;
    let mut i: usize = 0;
    let n = program_bytes.len();
    while i < n
        invariant
            i <= n,
            n == program_bytes@.len(),
            programdata_image@ == prefix + program_bytes@.take(i as int),
        decreases n - i,
    {
        programdata_image.push(program_bytes[i]);
        proof {
            assert(programdata_image@ =~= prefix + program_bytes@.take(i as int + 1));
        }
        i += 1;
    }
    proof {
        assert(program_bytes@.take(n as int) =~= program_bytes@);
    }
    (program_image, programdata_image)
}

/// A one-instruction list compiles to the instruction's own account
/// references, its program id and the payer: well below the 8-bit key
/// counts whenever the instruction references at most a handful of
/// accounts.
proof fn lemma_single_instruction_keys(
    instructions: Seq<solana_sdk::instruction::Instruction>,
    ix: solana_sdk::instruction::Instruction,
)
    requires
        instructions =~= seq![ix],
    ensures
        spec_total_message_keys(instructions) == spec_ix_account_count(ix) + 1,
{
    assert(instructions.drop_last() =~= Seq::<solana_sdk::instruction::Instruction>::empty());
    assert(instructions.last() == ix);
    assert(spec_total_message_keys(Seq::<solana_sdk::instruction::Instruction>::empty()) == 0);
}

} // verus!
