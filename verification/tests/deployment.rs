use solana_test_framework::deploy::{
    DeployEvent, DeployPhase, DeploySession, DeployStep, LoaderVariant,
};
use solana_test_framework::ledger::{
    run_fixed_deploy, run_upgradeable_deploy, ModelOwner,
};

#[test]
fn fixed_deploy_leaves_executable_account_of_binary_len() {
    let binary: Vec<u8> = (0..=255u8).cycle().take(5000).collect();
    let (session, account) = run_fixed_deploy(&binary, 900);
    assert_eq!(session.phase, DeployPhase::Deployed);
    assert!(account.exists);
    assert_eq!(account.owner, ModelOwner::FixedLoader);
    assert!(account.executable);
    assert_eq!(account.data.len(), 5000);
    assert_eq!(account.data, binary);
}

#[test]
fn upgradeable_deploy_creates_missing_program() {
    let binary: Vec<u8> = vec![3u8; 2500];
    let (session, buffer, program, branch) = run_upgradeable_deploy(&binary, 900, None, 42);
    assert_eq!(session.phase, DeployPhase::Deployed);
    assert!(buffer.exists);
    assert_eq!(buffer.owner, ModelOwner::UpgradeableLoader);
    assert!(!buffer.executable);
    assert_eq!(buffer.data.len(), 5000);
    assert_eq!(&buffer.data[..2500], &binary[..]);
    assert!(program.exists);
    assert!(program.linked_to_buffer);
    assert_eq!(program.id, 42);
    assert_eq!(branch, DeployStep::Deploy);
}

#[test]
fn upgradeable_deploy_upgrades_existing_program_in_place() {
    let binary: Vec<u8> = vec![4u8; 2500];
    let (session, _buffer, program, branch) = run_upgradeable_deploy(&binary, 900, Some(7), 42);
    assert_eq!(session.phase, DeployPhase::Deployed);
    assert!(program.exists);
    assert!(program.linked_to_buffer);
    // the program's identity is unchanged: the fresh keypair is unused
    assert_eq!(program.id, 7);
    assert_eq!(branch, DeployStep::Upgrade);
}

#[test]
fn session_orders_the_phases() {
    let mut session = DeploySession::new(LoaderVariant::Fixed, 200, 96);
    assert_eq!(session.phase, DeployPhase::Created);
    assert_eq!(session.next_step(), DeployStep::Allocate);
    session.advance(DeployEvent::Accepted);

    // ceil(200 / 96) = 3 chunks, written strictly in order
    for i in 0..3usize {
        match session.next_step() {
            DeployStep::WriteChunk { index, offset } => {
                assert_eq!(index, i);
                assert_eq!(offset as usize, i * 96);
            }
            other => panic!("expected a chunk write, got {:?}", other),
        }
        session.advance(DeployEvent::Accepted);
    }

    assert_eq!(session.next_step(), DeployStep::Finalize);
    session.advance(DeployEvent::Accepted);
    assert_eq!(session.next_step(), DeployStep::Done);
}

#[test]
fn rejection_aborts_the_pipeline() {
    let mut session = DeploySession::new(LoaderVariant::Fixed, 200, 96);
    session.advance(DeployEvent::Accepted);
    session.advance(DeployEvent::Rejected);
    assert_eq!(session.phase, DeployPhase::Failed);
    assert_eq!(session.next_step(), DeployStep::Aborted);
    // terminal: further events change nothing
    session.advance(DeployEvent::Accepted);
    assert_eq!(session.phase, DeployPhase::Failed);
}

#[test]
fn upgradeable_session_checks_before_promoting() {
    let mut session = DeploySession::new(LoaderVariant::Upgradeable, 100, 96);
    session.advance(DeployEvent::Accepted);
    session.advance(DeployEvent::Accepted); // chunk 0
    session.advance(DeployEvent::Accepted); // chunk 1
    assert_eq!(session.next_step(), DeployStep::CheckProgram);
    session.advance(DeployEvent::ProgramFound);
    assert_eq!(session.next_step(), DeployStep::Upgrade);
    session.advance(DeployEvent::Accepted);
    assert_eq!(session.phase, DeployPhase::Deployed);
}

#[test]
fn failed_existence_check_is_not_treated_as_missing() {
    let mut session = DeploySession::new(LoaderVariant::Upgradeable, 50, 96);
    session.advance(DeployEvent::Accepted);
    session.advance(DeployEvent::Accepted); // the single chunk
    assert_eq!(session.next_step(), DeployStep::CheckProgram);
    session.advance(DeployEvent::CheckFailed);
    assert_eq!(session.phase, DeployPhase::Failed);
}

#[test]
fn allocation_sizes_per_variant() {
    let fixed = DeploySession::new(LoaderVariant::Fixed, 300, 96);
    assert_eq!(fixed.allocation_len(), 300);
    let upgradeable = DeploySession::new(LoaderVariant::Upgradeable, 300, 96);
    assert_eq!(upgradeable.allocation_len(), 600);
}
