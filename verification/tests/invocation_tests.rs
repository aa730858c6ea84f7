use music_nft::account::{AccountRef, Capability};
use music_nft::handlers::{
    create_music_nft, initialize_platform, CreateMusicNFT, InitializePlatform,
};
use music_nft::identity::Identity;
use music_nft::instruction::{DecodeError, Instruction, NftArgs};
use music_nft::invocation::{process_instruction, Call, Invocation};
use music_nft::outcome::{Failure, Outcome, Stage};
use music_nft::program::Program;
use music_nft::schema::Schema;
use music_nft::validator::ValidationError;
use music_nft::wire::TextError;

const INITIALIZE: [u8; 8] = [119, 201, 101, 45, 75, 122, 89, 3];

fn signer() -> AccountRef {
    AccountRef::new(Identity::new([1; 32]), true, true)
}

fn non_signer() -> AccountRef {
    AccountRef::new(Identity::new([1; 32]), false, true)
}

fn system_service() -> AccountRef {
    AccountRef::new(Identity::system_service(), false, false)
}

fn create(name: &str, artist: &str, rarity: &str) -> Vec<u8> {
    Instruction::CreateMusicNft {
        args: NftArgs {
            name: name.to_string(),
            artist: artist.to_string(),
            rarity: rarity.to_string(),
        },
    }
    .encode()
    .unwrap()
}

fn capability_violation(slot: usize, capability: Capability) -> Outcome {
    Outcome::Rejected {
        failure: Failure::Validate(ValidationError::CapabilityViolation { slot, capability }),
    }
}

fn count_error(supplied: usize) -> Outcome {
    Outcome::Rejected {
        failure: Failure::Validate(ValidationError::AccountCountError { required: 2, supplied }),
    }
}

#[test]
fn create_music_nft_commits_with_all_three_values() {
    let data = create("Aurora", "N. Vale", "rare");
    let outcome = process_instruction(&[signer(), system_service()], &data);
    assert!(outcome.is_committed());
    let line = outcome.diagnostic().unwrap();
    assert!(line.contains("Aurora"));
    assert!(line.contains("N. Vale"));
    assert!(line.contains("rare"));
    assert_eq!(line, "🎵 Создан NFT: Aurora от N. Vale, редкость: rare");
    assert_eq!(outcome.failure(), None);
}

#[test]
fn create_music_nft_with_non_signer_payer_is_rejected() {
    let data = create("Aurora", "N. Vale", "rare");
    let outcome = process_instruction(&[non_signer(), system_service()], &data);
    assert_eq!(outcome, capability_violation(0, Capability::Signer));
    assert!(!outcome.is_committed());
    assert_eq!(outcome.diagnostic(), None);
}

#[test]
fn initialize_platform_commits() {
    let outcome = process_instruction(&[signer(), system_service()], &INITIALIZE);
    assert_eq!(
        outcome,
        Outcome::Committed { diagnostic: "🎵 Music NFT Platform инициализирована!".to_string() }
    );
}

#[test]
fn initialize_platform_twice_commits_twice() {
    let accounts = [signer(), system_service()];
    let first = process_instruction(&accounts, &INITIALIZE);
    let second = process_instruction(&accounts, &INITIALIZE);
    assert!(first.is_committed());
    assert!(second.is_committed());
    assert_eq!(first, second);
    let others = [AccountRef::new(Identity::new([7; 32]), true, true), system_service()];
    let third = process_instruction(&others, &INITIALIZE);
    assert_eq!(third, first);
}

#[test]
fn a_rejection_does_not_affect_the_next_invocation() {
    let data = create("a", "b", "c");
    let rejected = process_instruction(&[non_signer(), system_service()], &data);
    assert!(!rejected.is_committed());
    let committed = process_instruction(&[signer(), system_service()], &data);
    assert!(committed.is_committed());
}

#[test]
fn initialize_platform_requires_a_writable_authority() {
    let read_only = AccountRef::new(Identity::new([1; 32]), true, false);
    let outcome = process_instruction(&[read_only, system_service()], &INITIALIZE);
    assert_eq!(outcome, capability_violation(0, Capability::Writable));
    let data = create("a", "b", "c");
    let outcome = process_instruction(&[read_only, system_service()], &data);
    assert!(outcome.is_committed());
}

#[test]
fn non_signer_is_a_capability_violation_for_both_instructions() {
    let accounts = [non_signer(), system_service()];
    assert_eq!(
        process_instruction(&accounts, &INITIALIZE),
        capability_violation(0, Capability::Signer)
    );
    assert_eq!(
        process_instruction(&accounts, &create("", "", "")),
        capability_violation(0, Capability::Signer)
    );
}

#[test]
fn wrong_system_service_is_a_capability_violation() {
    let accounts = [signer(), AccountRef::new(Identity::new([2; 32]), false, false)];
    assert_eq!(
        process_instruction(&accounts, &INITIALIZE),
        capability_violation(1, Capability::SystemService)
    );
    assert_eq!(
        process_instruction(&accounts, &create("a", "b", "c")),
        capability_violation(1, Capability::SystemService)
    );
}

#[test]
fn too_few_accounts_is_a_count_error_whatever_the_arguments() {
    for data in [create("Aurora", "N. Vale", "rare"), create("", "", ""), INITIALIZE.to_vec()] {
        assert_eq!(process_instruction(&[], &data), count_error(0));
        assert_eq!(process_instruction(&[signer()], &data), count_error(1));
        assert_eq!(process_instruction(&[non_signer()], &data), count_error(1));
    }
}

#[test]
fn malformed_bytes_are_rejected_before_accounts_are_looked_at() {
    let mut truncated = create("Aurora", "N. Vale", "rare");
    truncated.pop();
    let expected = Outcome::Rejected {
        failure: Failure::Decode(DecodeError::Argument { index: 2, error: TextError::MissingBody }),
    };
    assert_eq!(process_instruction(&[signer(), system_service()], &truncated), expected);
    assert_eq!(process_instruction(&[], &truncated), expected);
    assert_eq!(process_instruction(&[non_signer()], &truncated), expected);
}

#[test]
fn unknown_opcode_is_rejected() {
    let expected = Outcome::Rejected { failure: Failure::Decode(DecodeError::UnknownOpcode) };
    assert_eq!(process_instruction(&[signer(), system_service()], &[]), expected);
    assert_eq!(process_instruction(&[signer(), system_service()], &[1; 8]), expected);
}

#[test]
fn surplus_accounts_do_not_change_the_outcome() {
    let data = create("Aurora", "N. Vale", "rare");
    let exact = process_instruction(&[signer(), system_service()], &data);
    let more = process_instruction(
        &[signer(), system_service(), non_signer(), non_signer()],
        &data,
    );
    assert_eq!(exact, more);
    assert!(more.is_committed());
}

#[test]
fn failures_name_their_stage() {
    assert_eq!(Failure::Decode(DecodeError::UnknownOpcode).stage(), Stage::Decoding);
    assert_eq!(
        Failure::Validate(ValidationError::AccountCountError { required: 2, supplied: 0 }).stage(),
        Stage::Validating
    );
    assert_eq!(
        Failure::Execute(music_nft::handlers::HandlerError::Custom { code: 1 }).stage(),
        Stage::Executing
    );
}

#[test]
fn an_invocation_passes_through_its_stages_in_order() {
    let accounts = [signer(), system_service()];
    let data = create("Aurora", "N. Vale", "rare");
    let args = NftArgs {
        name: "Aurora".to_string(),
        artist: "N. Vale".to_string(),
        rarity: "rare".to_string(),
    };

    let state = Invocation::Received;
    assert!(!state.is_final());
    let state = state.advance(&accounts, &data);
    assert_eq!(state, Invocation::Decoding);
    let state = state.advance(&accounts, &data);
    assert_eq!(
        state,
        Invocation::Validating { instruction: Instruction::CreateMusicNft { args: args.clone() } }
    );
    let state = state.advance(&accounts, &data);
    assert_eq!(
        state,
        Invocation::Executing {
            call: Call::CreateMusicNft(CreateMusicNFT::try_accounts(&accounts).unwrap(), args),
        }
    );
    assert!(!state.is_final());
    let state = state.advance(&accounts, &data);
    assert!(state.is_final());
    assert_eq!(
        state,
        Invocation::Committed {
            diagnostic: "🎵 Создан NFT: Aurora от N. Vale, редкость: rare".to_string(),
        }
    );
    let state = state.advance(&accounts, &data);
    assert!(matches!(state, Invocation::Committed { .. }));
}

#[test]
fn an_invocation_can_be_rejected_at_each_stage_before_the_handler() {
    let decoding = Invocation::Decoding.advance(&[], &[]);
    assert_eq!(
        decoding,
        Invocation::Rejected { failure: Failure::Decode(DecodeError::UnknownOpcode) }
    );
    let validating = Invocation::Validating { instruction: Instruction::InitializePlatform }
        .advance(&[non_signer(), system_service()], &INITIALIZE);
    assert_eq!(
        validating,
        Invocation::Rejected {
            failure: Failure::Validate(ValidationError::CapabilityViolation {
                slot: 0,
                capability: Capability::Signer,
            }),
        }
    );
    let still = validating.advance(&[signer(), system_service()], &INITIALIZE);
    assert!(matches!(still, Invocation::Rejected { .. }));
}

#[test]
fn only_a_final_state_has_an_outcome() {
    assert_eq!(Invocation::Received.into_outcome(), None);
    assert_eq!(Invocation::Decoding.into_outcome(), None);
    assert_eq!(
        Invocation::Validating { instruction: Instruction::InitializePlatform }.into_outcome(),
        None
    );
    assert_eq!(
        Invocation::Committed { diagnostic: "x".to_string() }.into_outcome(),
        Some(Outcome::Committed { diagnostic: "x".to_string() })
    );
    let failure = Failure::Decode(DecodeError::UnknownOpcode);
    assert_eq!(
        Invocation::Rejected { failure }.into_outcome(),
        Some(Outcome::Rejected { failure })
    );
}

#[test]
fn handlers_return_their_diagnostic_line() {
    let named = InitializePlatform::try_accounts(&[signer(), system_service()]).unwrap();
    assert_eq!(
        initialize_platform(&named),
        Ok("🎵 Music NFT Platform инициализирована!".to_string())
    );
    let named = CreateMusicNFT::try_accounts(&[signer(), system_service()]).unwrap();
    assert_eq!(
        create_music_nft(&named, "Эхо".to_string(), "".to_string(), "common".to_string()),
        Ok("🎵 Создан NFT: Эхо от , редкость: common".to_string())
    );
}

#[test]
fn system_service_is_the_runtime_system_program() {
    let ours = Identity::system_service();
    assert_eq!(ours.bytes, [0u8; 32]);
    assert_eq!(ours.bytes, anchor_lang::system_program::ID.to_bytes());
    assert!(ours.is_system_service());
    assert!(!Identity::new([1; 32]).is_system_service());
}

#[test]
fn program_knows_its_identity() {
    let identity = Identity::new([0xab; 32]);
    let program = Program::new(identity);
    assert_eq!(program.identity(), identity);
    assert!(program.is_addressed_by(&Identity::new([0xab; 32])));
    assert!(!program.is_addressed_by(&Identity::new([0xac; 32])));
}

#[test]
fn a_violation_in_slot_zero_of_create_music_nft_names_the_payer() {
    let data = create("Aurora", "N. Vale", "rare");
    let outcome = process_instruction(&[non_signer(), system_service()], &data);
    let slot = match outcome.failure() {
        Some(Failure::Validate(ValidationError::CapabilityViolation { slot, .. })) => slot,
        other => panic!("unexpected failure {:?}", other),
    };
    let instruction = Instruction::decode(&data).unwrap();
    assert_eq!(instruction.slot_name(slot), Some("payer"));
}

#[test]
fn slots_have_the_names_of_the_schema() {
    let initialize = Instruction::InitializePlatform;
    assert_eq!(initialize.slot_name(0), Some("authority"));
    assert_eq!(initialize.slot_name(1), Some("system_program"));
    assert_eq!(initialize.slot_name(2), None);
    let create = Instruction::decode(&create("a", "b", "c")).unwrap();
    assert_eq!(create.slot_name(0), Some("payer"));
    assert_eq!(create.slot_name(1), Some("system_program"));
    assert_eq!(create.slot_name(usize::MAX), None);
}

#[test]
fn instructions_know_their_schema() {
    assert_eq!(Instruction::InitializePlatform.schema(), Schema::initialize_platform());
    let create = Instruction::decode(&create("a", "b", "c")).unwrap();
    assert_eq!(create.schema(), Schema::create_music_nft());
    assert_eq!(create.schema().len(), 2);
}
