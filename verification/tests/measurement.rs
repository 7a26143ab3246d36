use solana_sdk::signature::Keypair;
use solana_sdk::signer::Signer;
use solana_test_framework::assembly::{
    assemble_transaction, calculate_chunk_size, default_hash, instruction_account_count,
    keypair_pubkey, transaction_wire_size,
};
use solana_test_framework::capacity::PACKET_DATA_SIZE;
use solana_test_framework::chunks::Chunk;
use solana_test_framework::loaders::{
    buffer_write_instruction, create_buffer_instructions, deploy_instructions,
    default_rent_exempt_minimum, fixed_finalize_instruction, fixed_write_instruction,
    fixed_write_transaction, size_of_programdata, upgrade_program_instruction,
};

#[test]
fn measured_chunk_fills_the_packet_exactly() {
    let payer = Keypair::new();
    let program_account = Keypair::new();
    let program_pubkey = program_account.pubkey();
    let deploy_ix =
        |offset: u32, bytes: Vec<u8>| fixed_write_instruction(&program_pubkey, offset, bytes);
    let signers = vec![&payer, &program_account];
    let chunk_size = calculate_chunk_size(&deploy_ix, &signers).unwrap();
    assert!(chunk_size > 0);
    assert!(chunk_size < PACKET_DATA_SIZE);

    // a transaction carrying a full chunk stays at or under the ceiling
    let full_chunk = Chunk { offset: 0, bytes: vec![0xabu8; chunk_size] };
    let tx = fixed_write_transaction(&payer, &program_account, full_chunk, default_hash())
        .unwrap();
    let size = transaction_wire_size(&tx).unwrap() as usize;
    assert!(size <= PACKET_DATA_SIZE);

    // one more payload byte would exceed it
    let oversized = Chunk { offset: 0, bytes: vec![0xabu8; chunk_size + 1] };
    let tx = fixed_write_transaction(&payer, &program_account, oversized, default_hash())
        .unwrap();
    let size = transaction_wire_size(&tx).unwrap() as usize;
    assert!(size > PACKET_DATA_SIZE);
}

#[test]
fn instruction_overhead_does_not_depend_on_the_offset() {
    let payer = Keypair::new();
    let program_account = Keypair::new();
    let program_pubkey = program_account.pubkey();
    let signers = vec![&payer, &program_account];

    let near_zero = fixed_write_instruction(&program_pubkey, 0, Vec::new());
    let near_max = fixed_write_instruction(&program_pubkey, u32::MAX - 1, Vec::new());
    let tx_zero =
        assemble_transaction(&vec![near_zero], &payer, &signers, default_hash()).unwrap();
    let tx_max =
        assemble_transaction(&vec![near_max], &payer, &signers, default_hash()).unwrap();
    assert_eq!(
        transaction_wire_size(&tx_zero).unwrap(),
        transaction_wire_size(&tx_max).unwrap()
    );
}

#[test]
fn upgradeable_write_measures_like_the_fixed_write() {
    let payer = Keypair::new();
    let buffer = Keypair::new();
    let authority = Keypair::new();
    let buffer_pubkey = buffer.pubkey();
    let authority_pubkey = authority.pubkey();
    let deploy_ix = |offset: u32, bytes: Vec<u8>| {
        buffer_write_instruction(&buffer_pubkey, &authority_pubkey, offset, bytes)
    };
    let signers = vec![&payer, &authority];
    let chunk_size = calculate_chunk_size(&deploy_ix, &signers).unwrap();
    assert!(chunk_size > 0);
    assert!(chunk_size < PACKET_DATA_SIZE);
}

#[test]
fn instruction_account_counts_match_the_loader_layout() {
    let account = Keypair::new().pubkey();
    let other = Keypair::new().pubkey();
    let third = Keypair::new().pubkey();
    let fourth = Keypair::new().pubkey();
    assert_eq!(
        instruction_account_count(&fixed_write_instruction(&account, 0, vec![1, 2])),
        1
    );
    assert_eq!(instruction_account_count(&fixed_finalize_instruction(&account)), 2);
    assert_eq!(
        instruction_account_count(&buffer_write_instruction(&account, &other, 0, vec![1])),
        2
    );
    assert_eq!(
        instruction_account_count(&upgrade_program_instruction(&account, &other, &third, &fourth)),
        7
    );
}

#[test]
fn oversubscribed_key_count_is_rejected_before_assembly() {
    let payer = Keypair::new();
    let account = Keypair::new().pubkey();
    // 130 two-account instructions count to far more than 255 keys
    let mut instructions = Vec::new();
    for _ in 0..130 {
        instructions.push(fixed_finalize_instruction(&account));
    }
    let signers = vec![&payer];
    assert!(assemble_transaction(&instructions, &payer, &signers, default_hash()).is_err());
}

#[test]
fn programdata_sizes_carry_their_metadata() {
    assert_eq!(size_of_programdata(0), 45);
    assert_eq!(size_of_programdata(5000), 5045);
}

#[test]
fn default_rent_minimum_matches_the_formula() {
    assert_eq!(default_rent_exempt_minimum(0), 128 * 6960);
    assert_eq!(default_rent_exempt_minimum(10), (128 + 10) * 6960);
    assert_eq!(default_rent_exempt_minimum(5045), (128 + 5045) * 6960);
}

#[test]
fn buffer_and_deploy_build_two_instructions_each() {
    let payer = Keypair::new().pubkey();
    let program = Keypair::new().pubkey();
    let buffer = Keypair::new().pubkey();
    let authority = Keypair::new().pubkey();
    let create = create_buffer_instructions(&payer, &buffer, &authority, 1_000_000, 600);
    assert_eq!(create.len(), 2);
    let deploy = deploy_instructions(&payer, &program, &buffer, &authority, 1_000_000, 600);
    assert_eq!(deploy.len(), 2);
}

#[test]
fn program_account_images_frame_the_binary() {
    let programdata = Keypair::new().pubkey();
    let authority = Keypair::new().pubkey();
    let binary: Vec<u8> = (0..=255u8).cycle().take(600).collect();
    let (program_image, programdata_image) =
        solana_test_framework::loaders::bpf_program_account_images(
            &binary,
            &programdata,
            &authority,
            7,
        );
    assert_eq!(program_image.len(), 36);
    assert_eq!(programdata_image.len(), 45 + 600);
    // the binary follows the 45-byte metadata prefix unchanged
    assert_eq!(&programdata_image[45..], &binary[..]);
    // the prefix does not depend on the binary
    let other: Vec<u8> = vec![9u8; 10];
    let (_, other_image) = solana_test_framework::loaders::bpf_program_account_images(
        &other,
        &programdata,
        &authority,
        7,
    );
    assert_eq!(&programdata_image[..45], &other_image[..45]);
}

#[test]
fn payer_pubkey_accessor_matches_the_signer() {
    let payer = Keypair::new();
    assert_eq!(keypair_pubkey(&payer), payer.pubkey());
}
