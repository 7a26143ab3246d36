//! Transaction assembly and wire-size measurement.
//!
//! This is the trusted boundary of the library: the declarations that let
//! verified code hold the ledger SDK's transaction types, the wrappers
//! around assembling and signing a transaction and measuring its
//! serialized size, and on top of them the chunk-size calculator, which
//! measures a baseline transaction that carries an empty payload and
//! derives from it the number of payload bytes every chunk may carry.
//!
//! Every wrapped call here is a deterministic function of its arguments
//! (ed25519 signing and bincode sizing included), so each result carries
//! a name that the callers' contracts speak of.

use vstd::prelude::*;
use solana_sdk::signer::Signer;
use crate::capacity::{PACKET_DATA_SIZE, chunk_size_from_baseline, spec_payload_capacity};
use crate::error::TestFrameWorkError;

verus! {

#[verifier::external_type_specification]
#[verifier::external_body]
pub struct ExInstruction(solana_sdk::instruction::Instruction);

#[verifier::external_type_specification]
#[verifier::external_body]
pub struct ExTransaction(solana_sdk::transaction::Transaction);

#[verifier::external_type_specification]
#[verifier::external_body]
pub struct ExKeypair(solana_sdk::signature::Keypair);

#[verifier::external_type_specification]
#[verifier::external_body]
pub struct ExPubkey(solana_sdk::pubkey::Pubkey);

#[verifier::external_type_specification]
#[verifier::external_body]
pub struct ExHash(solana_sdk::hash::Hash);

#[verifier::external_type_specification]
#[verifier::external_body]
pub struct ExSignerError(solana_sdk::signer::SignerError);

#[verifier::external_type_specification]
#[verifier::external_body]
pub struct ExBincodeErrorKind(bincode::ErrorKind);

pub uninterp spec fn spec_keypair_pubkey(keypair: &solana_sdk::signature::Keypair) -> solana_sdk::pubkey::Pubkey;

pub uninterp spec fn spec_ix_account_count(instruction: solana_sdk::instruction::Instruction) -> usize;

pub uninterp spec fn spec_sign_transaction(
    instructions: Seq<solana_sdk::instruction::Instruction>,
    payer: solana_sdk::pubkey::Pubkey,
    signers: Seq<&solana_sdk::signature::Keypair>,
    recent_blockhash: solana_sdk::hash::Hash,
) -> Result<solana_sdk::transaction::Transaction, solana_sdk::signer::SignerError>;

pub uninterp spec fn spec_wire_size(transaction: solana_sdk::transaction::Transaction) -> u64;

/// Keys a message compiled from `instructions` can reference, counted
/// conservatively: every account meta of every instruction, one program
/// id per instruction.  Together with the payer this bounds each of the
/// compiled message's per-category key counts.
pub open spec fn spec_total_message_keys(
    instructions: Seq<solana_sdk::instruction::Instruction>,
) -> int
    decreases instructions.len(),
{
    if instructions.len() == 0 {
        0
    } else {
        spec_total_message_keys(instructions.drop_last()) + spec_ix_account_count(
            instructions.last(),
        ) + 1
    }
}

/// The conservative key count never goes down as instructions are added.
pub proof fn lemma_total_keys_prefix(
    instructions: Seq<solana_sdk::instruction::Instruction>,
    k: int,
)
    requires
        0 <= k <= instructions.len(),
    ensures
        spec_total_message_keys(instructions.take(k)) <= spec_total_message_keys(instructions),
    decreases instructions.len() - k,
{
    if k < instructions.len() {
        assert(instructions.take(k + 1).drop_last() =~= instructions.take(k));
        assert(instructions.take(k + 1).last() == instructions[k]);
        lemma_total_keys_prefix(instructions, k + 1);
    } else {
        assert(instructions.take(k) =~= instructions);
    }
}

/// Relies on Signer::pubkey for Keypair: the public half of the pair,
/// which identifies the signing account.  It is a function of the
/// keypair alone and never fails for a local keypair.
#[verifier::external_body]
pub fn keypair_pubkey(keypair: &solana_sdk::signature::Keypair) -> (r:
    solana_sdk::pubkey::Pubkey)
    ensures
        r == spec_keypair_pubkey(keypair),
{
    keypair.pubkey()
}

/// Relies on Hash::default: the all-zero hash, used as the placeholder
/// blockhash when a transaction is assembled only to be measured.
#[verifier::external_body]
pub fn default_hash() -> solana_sdk::hash::Hash {
    solana_sdk::hash::Hash::default()
}

/// Relies on the `accounts` field of Instruction: how many account metas
/// the instruction references, a plain field read.
#[verifier::external_body]
pub fn instruction_account_count(instruction: &solana_sdk::instruction::Instruction) -> (r:
    usize)
    ensures
        r == spec_ix_account_count(*instruction),
{
    instruction.accounts.len()
}

/// Relies on Message::new, Transaction::new_unsigned and
/// Transaction::try_sign: assembles the instructions into a message paid
/// for by `payer` and signs it with every keypair of `signers`, exactly
/// as Transaction::new_signed_with_payer does, but returning the signing
/// error (a signer missing from the message, for one) instead of
/// panicking on it.  All three steps are deterministic (ed25519 signing
/// included), so the whole result is a function of the arguments.
///
/// Message::new panics when a compiled per-category key count overflows
/// its 8-bit header field; every compiled key is the payer, an
/// instruction's program id or one of its account metas, so the
/// precondition keeps all those counts below 256 and the panic cannot be
/// reached (it also keeps every compiled account index within 8 bits).
#[verifier::external_body]
pub fn sign_transaction(
    instructions: &Vec<solana_sdk::instruction::Instruction>,
    payer: &solana_sdk::pubkey::Pubkey,
    signers: &Vec<&solana_sdk::signature::Keypair>,
    recent_blockhash: solana_sdk::hash::Hash,
) -> (r: Result<solana_sdk::transaction::Transaction, solana_sdk::signer::SignerError>)
    requires
        spec_total_message_keys(instructions@) + 1 <= 255,
    ensures
        r == spec_sign_transaction(instructions@, *payer, signers@, recent_blockhash),
{
    let message = solana_sdk::message::Message::new(instructions.as_slice(), Some(payer));
    let mut transaction = solana_sdk::transaction::Transaction::new_unsigned(message);
    transaction.try_sign(signers, recent_blockhash)?;
    Ok(transaction)
}

/// Relies on bincode::serialized_size: the number of bytes the
/// transaction occupies on the wire under bincode's default
/// configuration, which is how transaction packets are encoded; a
/// function of the transaction alone.
#[verifier::external_body]
pub fn transaction_wire_size(
    transaction: &solana_sdk::transaction::Transaction,
) -> (r: Result<u64, bincode::Error>)
    ensures
        r matches Ok(n) ==> n == spec_wire_size(*transaction),
{
    bincode::serialized_size(transaction)
}

/// Assemble the instructions into a transaction paid for by `payer` and
/// signed by every keypair of `signers`, against the given blockhash.
///
/// The instructions' account references are counted first: a list whose
/// compiled message could overflow the packet header's 8-bit key counts
/// is rejected as a configuration error before anything is assembled.
/// Otherwise the result is exactly what signing yields, with a signing
/// failure mapped to the library's error.
pub fn assemble_transaction(
    instructions: &Vec<solana_sdk::instruction::Instruction>,
    payer: &solana_sdk::signature::Keypair,
    signers: &Vec<&solana_sdk::signature::Keypair>,
    recent_blockhash: solana_sdk::hash::Hash,
) -> (r: Result<solana_sdk::transaction::Transaction, TestFrameWorkError>)
    ensures
        spec_total_message_keys(instructions@) + 1 > 255 ==> r matches Err(_),
        spec_total_message_keys(instructions@) + 1 <= 255 ==> r == (match spec_sign_transaction(
            instructions@,
            spec_keypair_pubkey(payer),
            signers@,
            recent_blockhash,
        ) {
            Ok(t) => Ok::<_, TestFrameWorkError>(t),
            Err(_) => Err(TestFrameWorkError::Error("cannot sign the transaction")),
        }),
{
    let mut total: usize = 0;
    let mut i: usize = 0;
    let n = instructions.len();
    while i < n
        invariant
            i <= n,
            n == instructions@.len(),
            total == spec_total_message_keys(instructions@.take(i as int)),
            total + 1 <= 255,
        decreases n - i,
    {
        let count = instruction_account_count(&instructions[i]);
        if total > 253 || count > 253 - total {
            proof {
                assert(instructions@.take(i as int + 1).drop_last() =~= instructions@.take(
                    i as int,
                ));
                assert(instructions@.take(i as int + 1).last() == instructions@[i as int]);
                lemma_total_keys_prefix(instructions@, i as int + 1);
            }
            return Err(
                TestFrameWorkError::Error("the instructions reference too many accounts"),
            );
        }
        proof {
            assert(instructions@.take(i as int + 1).drop_last() =~= instructions@.take(i as int));
            assert(instructions@.take(i as int + 1).last() == instructions@[i as int]);
        }
        total = total + count + 1;
        i += 1;
    }
    proof {
        assert(instructions@.take(n as int) =~= instructions@);
    }
    let payer_pubkey = keypair_pubkey(payer);
    match sign_transaction(instructions, &payer_pubkey, signers, recent_blockhash) {
        Ok(t) => Ok(t),
        Err(_) => Err(TestFrameWorkError::Error("cannot sign the transaction")),
    }
}

/// Measure the maximum chunk payload for a deployment.
///
/// `deploy_ix` builds the write instruction for a given `(offset, bytes)`
/// pair; `signers` are the keypairs that will sign every chunk
/// transaction, the first of them paying the fees.  A baseline
/// instruction with offset zero and no payload bytes is assembled into a
/// fully signed transaction against a placeholder blockhash; its wire
/// size is the fixed overhead, and what remains below the packet ceiling,
/// less one byte of margin for length-prefix drift, is the chunk size.
/// A baseline that leaves no room is a configuration error, as are an
/// instruction referencing too many accounts, a failure to sign and a
/// failure to measure.  On success the result is the payload capacity of
/// the measured baseline: the wire size of the signed transaction that
/// carries the builder's empty-payload instruction alone.
pub fn calculate_chunk_size<F: Fn(u32, Vec<u8>) -> solana_sdk::instruction::Instruction>(
    deploy_ix: F,
    signers: &Vec<&solana_sdk::signature::Keypair>,
) -> (r: Result<usize, TestFrameWorkError>)
    requires
        signers@.len() > 0,
        forall|offset: u32, bytes: Vec<u8>| #[trigger] call_requires(deploy_ix, (offset, bytes)),
    ensures
        r matches Ok(s) ==> 0 < s < PACKET_DATA_SIZE,
        r matches Ok(s) ==> exists|
            empty_payload: Vec<u8>,
            baseline: solana_sdk::instruction::Instruction,
            placeholder: solana_sdk::hash::Hash,
            measured: solana_sdk::transaction::Transaction,
        |
            #![trigger call_ensures(deploy_ix, (0u32, empty_payload), baseline),
                spec_sign_transaction(
                    seq![baseline],
                    spec_keypair_pubkey(signers@[0]),
                    signers@,
                    placeholder,
                ),
                spec_wire_size(measured)]
            {
                &&& call_ensures(deploy_ix, (0u32, empty_payload), baseline)
                &&& empty_payload@.len() == 0
                &&& spec_sign_transaction(
                    seq![baseline],
                    spec_keypair_pubkey(signers@[0]),
                    signers@,
                    placeholder,
                ) == Ok::<_, solana_sdk::signer::SignerError>(measured)
                &&& s == spec_payload_capacity(spec_wire_size(measured) as nat)
            },
{
    let empty_payload: Vec<u8> = Vec::new();
    let ghost payload_snapshot: Vec<u8> = empty_payload;
    let baseline_ix = deploy_ix(0, empty_payload);
    let account_count = instruction_account_count(&baseline_ix);
    if account_count > 253 {
        return Err(
            TestFrameWorkError::Error("the baseline instruction references too many accounts"),
        );
    }
    let payer = keypair_pubkey(signers[0]);
    let ghost baseline_snapshot: solana_sdk::instruction::Instruction = baseline_ix;
    let mut instructions: Vec<solana_sdk::instruction::Instruction> = Vec::new();
    instructions.push(baseline_ix);
    proof {
        assert(instructions@ =~= seq![baseline_snapshot]);
        assert(instructions@.drop_last() =~= Seq::<
            solana_sdk::instruction::Instruction,
        >::empty());
        assert(spec_total_message_keys(
            Seq::<solana_sdk::instruction::Instruction>::empty(),
        ) == 0);
        assert(spec_total_message_keys(instructions@) == spec_ix_account_count(baseline_snapshot)
            + 1);
    }
    let placeholder_hash = default_hash();
    let ghost hash_snapshot: solana_sdk::hash::Hash = placeholder_hash;
    let transaction = match sign_transaction(&instructions, &payer, signers, placeholder_hash) {
        Ok(t) => t,
        Err(_) => {
            return Err(
                TestFrameWorkError::Error("cannot sign the baseline transaction for measurement"),
            );
        },
    };
    let measured = match transaction_wire_size(&transaction) {
        Ok(n) => n,
        Err(_) => {
            return Err(
                TestFrameWorkError::Error("cannot measure the baseline transaction's wire size"),
            );
        },
    };
    if measured >= PACKET_DATA_SIZE as u64 {
        return Err(
            TestFrameWorkError::Error("transaction overhead leaves no room for chunk payload bytes"),
        );
    }
    let baseline_size = measured as usize;
    let r = chunk_size_from_baseline(baseline_size);
    proof {
        if r is Ok {
            assert(call_ensures(deploy_ix, (0u32, payload_snapshot), baseline_snapshot));
            assert(spec_sign_transaction(
                seq![baseline_snapshot],
                spec_keypair_pubkey(signers@[0]),
                signers@,
                hash_snapshot,
            ) == Ok::<_, solana_sdk::signer::SignerError>(transaction));
            assert(r->Ok_0 == spec_payload_capacity(spec_wire_size(transaction) as nat));
        }
    }
    r
}

} // verus!
