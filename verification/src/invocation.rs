//! One invocation, from the bytes the runtime hands over to the outcome.
//!
//! An invocation passes through its stages in a fixed order:
//! received, decoding, validating, executing, and then committed or
//! rejected. Decoding, validating and executing can each reject it;
//! only executing can commit it. The outcome is a function of the accounts
//! and the instruction bytes alone.

use vstd::prelude::*;
use crate::account::AccountRef;
use crate::handlers::{
    create_music_nft, create_music_nft_diagnostic, initialize_platform,
    initialize_platform_diagnostic, CreateMusicNFT, HandlerError, InitializePlatform,
};
use crate::instruction::{decode_instruction, Instruction, InstructionView, NftArgs, NftArgsView};
use crate::outcome::{Failure, Outcome, OutcomeView};
use crate::schema::{create_music_nft_schema, initialize_platform_schema, Schema, SchemaView};
use crate::validator::validation;

verus! {

/// An instruction together with its validated accounts: what a handler is
/// called with.
#[derive(Debug, PartialEq, Eq)]
pub enum Call {
    /// "Initialize platform" with its accounts.
    InitializePlatform(InitializePlatform),
    /// "Create music NFT" with its accounts and arguments.
    CreateMusicNft(CreateMusicNFT, NftArgs),
}

/// A call as a mathematical value: the accounts that the handler is given,
/// in the order of their slots, and the arguments.
pub enum CallView {
    InitializePlatform(Seq<AccountRef>),
    CreateMusicNft(Seq<AccountRef>, NftArgsView),
}

impl View for Call {
    type V = CallView;

    open spec fn view(&self) -> CallView {
        match self {
            Call::InitializePlatform(accounts) => CallView::InitializePlatform(accounts@),
            Call::CreateMusicNft(accounts, args) => CallView::CreateMusicNft(accounts@, args@),
        }
    }
}

/// The state of an invocation.
#[derive(Debug, PartialEq, Eq)]
pub enum Invocation {
    /// The runtime has handed the invocation over; nothing was done yet.
    Received,
    /// The instruction bytes are about to be decoded.
    Decoding,
    /// The instruction is known; its accounts are about to be checked.
    Validating { instruction: Instruction },
    /// The accounts passed; the handler is about to run.
    Executing { call: Call },
    /// The handler succeeded. Final.
    Committed { diagnostic: String },
    /// A stage failed. Final.
    Rejected { failure: Failure },
}

/// The state of an invocation as a mathematical value.
pub enum InvocationView {
    Received,
    Decoding,
    Validating { instruction: InstructionView },
    Executing { call: CallView },
    Committed { diagnostic: Seq<char> },
    Rejected { failure: Failure },
}

impl View for Invocation {
    type V = InvocationView;

    open spec fn view(&self) -> InvocationView {
        match self {
            Invocation::Received => InvocationView::Received,
            Invocation::Decoding => InvocationView::Decoding,
            Invocation::Validating { instruction } => InvocationView::Validating {
                instruction: instruction@,
            },
            Invocation::Executing { call } => InvocationView::Executing { call: call@ },
            Invocation::Committed { diagnostic } => InvocationView::Committed {
                diagnostic: diagnostic@,
            },
            Invocation::Rejected { failure } => InvocationView::Rejected { failure: *failure },
        }
    }
}

/// The account schema of `instruction`.
pub open spec fn schema_of(instruction: InstructionView) -> SchemaView {
    match instruction {
        InstructionView::InitializePlatform => initialize_platform_schema(),
        InstructionView::CreateMusicNft { .. } => create_music_nft_schema(),
    }
}

/// The name that the schema of `instruction` gives to the account in
/// position `slot`.
pub open spec fn slot_name(instruction: InstructionView, slot: int) -> Option<Seq<char>> {
    if slot == 0 {
        match instruction {
            InstructionView::InitializePlatform => Some("authority"@),
            InstructionView::CreateMusicNft { .. } => Some("payer"@),
        }
    } else if slot == 1 {
        Some("system_program"@)
    } else {
        None
    }
}

/// `instruction` with the accounts that its schema takes: the first two of
/// `accounts`.
pub open spec fn bind(instruction: InstructionView, accounts: Seq<AccountRef>) -> CallView {
    match instruction {
        InstructionView::InitializePlatform => CallView::InitializePlatform(
            accounts.subrange(0, 2),
        ),
        InstructionView::CreateMusicNft { args } => CallView::CreateMusicNft(
            accounts.subrange(0, 2),
            args,
        ),
    }
}

/// What the handler of `call` returns: its diagnostic line. No handler
/// raises a failure at present.
pub open spec fn handle(call: CallView) -> Result<Seq<char>, HandlerError> {
    match call {
        CallView::InitializePlatform(_) => Ok(initialize_platform_diagnostic()),
        CallView::CreateMusicNft(_, args) => Ok(
            create_music_nft_diagnostic(args.name, args.artist, args.rarity),
        ),
    }
}

/// Whether `state` is final.
pub open spec fn is_final(state: InvocationView) -> bool {
    state is Committed || state is Rejected
}

/// The number of steps that `state` is away from a final state at most.
pub open spec fn steps_left(state: InvocationView) -> nat {
    match state {
        InvocationView::Received => 4,
        InvocationView::Decoding => 3,
        InvocationView::Validating { .. } => 2,
        InvocationView::Executing { .. } => 1,
        InvocationView::Committed { .. } => 0,
        InvocationView::Rejected { .. } => 0,
    }
}

/// The state that follows `state`. A final state is followed by itself.
pub open spec fn step(state: InvocationView, accounts: Seq<AccountRef>, data: Seq<u8>) ->
    InvocationView {
    match state {
        InvocationView::Received => InvocationView::Decoding,
        InvocationView::Decoding => match decode_instruction(data) {
            Ok(instruction) => InvocationView::Validating { instruction },
            Err(error) => InvocationView::Rejected { failure: Failure::Decode(error) },
        },
        InvocationView::Validating { instruction } => match validation(
            schema_of(instruction),
            accounts,
        ) {
            Ok(_) => InvocationView::Executing { call: bind(instruction, accounts) },
            Err(error) => InvocationView::Rejected { failure: Failure::Validate(error) },
        },
        InvocationView::Executing { call } => match handle(call) {
            Ok(diagnostic) => InvocationView::Committed { diagnostic },
            Err(error) => InvocationView::Rejected { failure: Failure::Execute(error) },
        },
        InvocationView::Committed { .. } => state,
        InvocationView::Rejected { .. } => state,
    }
}

/// The final state that `state` reaches.
pub open spec fn run(state: InvocationView, accounts: Seq<AccountRef>, data: Seq<u8>) ->
    InvocationView
    decreases steps_left(state),
{
    if is_final(state) {
        state
    } else {
        run(step(state, accounts, data), accounts, data)
    }
}

/// The outcome that a final `state` stands for.
pub open spec fn outcome_of(state: InvocationView) -> OutcomeView
    recommends
        is_final(state),
{
    match state {
        InvocationView::Committed { diagnostic } => OutcomeView::Committed { diagnostic },
        InvocationView::Rejected { failure } => OutcomeView::Rejected { failure },
        _ => arbitrary(),
    }
}

/// The outcome of an invocation: decode the bytes, validate the accounts
/// against the instruction's schema, run the handler; the first stage that
/// fails rejects the invocation.
pub open spec fn processed(accounts: Seq<AccountRef>, data: Seq<u8>) -> OutcomeView {
    match decode_instruction(data) {
        Err(error) => OutcomeView::Rejected { failure: Failure::Decode(error) },
        Ok(instruction) => match validation(schema_of(instruction), accounts) {
            Err(error) => OutcomeView::Rejected { failure: Failure::Validate(error) },
            Ok(_) => match handle(bind(instruction, accounts)) {
                Err(error) => OutcomeView::Rejected { failure: Failure::Execute(error) },
                Ok(diagnostic) => OutcomeView::Committed { diagnostic },
            },
        },
    }
}

/// Every step brings an invocation that is not final closer to a final
/// state, and a final state stays as it is.
pub proof fn lemma_step_progress(state: InvocationView, accounts: Seq<AccountRef>, data: Seq<u8>)
    ensures
        !is_final(state) ==> steps_left(step(state, accounts, data)) < steps_left(state),
        is_final(state) ==> step(state, accounts, data) == state,
{
}

/// An invocation is rejected only while decoding, validating or executing,
/// with a failure of that stage; it is committed only while executing.
pub proof fn lemma_step_into_final(state: InvocationView, accounts: Seq<AccountRef>, data: Seq<u8>)
    requires
        !is_final(state),
    ensures
        match step(state, accounts, data) {
            InvocationView::Rejected { failure } => match failure {
                Failure::Decode(_) => state is Decoding,
                Failure::Validate(_) => state is Validating,
                Failure::Execute(_) => state is Executing,
            },
            InvocationView::Committed { .. } => state is Executing,
            _ => true,
        },
{
}

/// Running an invocation from the start ends in the final state that stands
/// for `processed`.
pub proof fn lemma_run_from_received(accounts: Seq<AccountRef>, data: Seq<u8>)
    ensures
        is_final(run(InvocationView::Received, accounts, data)),
        outcome_of(run(InvocationView::Received, accounts, data)) == processed(accounts, data),
{
    let s0 = InvocationView::Received;
    let s1 = step(s0, accounts, data);
    let s2 = step(s1, accounts, data);
    let s3 = step(s2, accounts, data);
    let s4 = step(s3, accounts, data);
    assert(run(s0, accounts, data) == run(s1, accounts, data));
    assert(run(s1, accounts, data) == run(s2, accounts, data));
    if !is_final(s2) {
        assert(run(s2, accounts, data) == run(s3, accounts, data));
        if !is_final(s3) {
            assert(run(s3, accounts, data) == run(s4, accounts, data));
            assert(is_final(s4));
        }
    }
}

impl Instruction {
    /// The account schema of the instruction.
    pub fn schema(&self) -> (schema: Schema)
        ensures
            schema@ == schema_of(self@),
            schema@.wf(),
    {
        match self {
            Instruction::InitializePlatform => Schema::initialize_platform(),
            Instruction::CreateMusicNft { .. } => Schema::create_music_nft(),
        }
    }

    /// The name of the account in position `slot`, by which a failure that
    /// gives a slot can be reported; `None` where the schema has no such
    /// slot.
    pub fn slot_name(&self, slot: usize) -> (name: Option<&'static str>)
        ensures
            match slot_name(self@, slot as int) {
                Some(expected) => name matches Some(given) && given@ == expected,
                None => name is None,
            },
    {
        if slot == 0 {
            match self {
                Instruction::InitializePlatform => Some("authority"),
                Instruction::CreateMusicNft { .. } => Some("payer"),
            }
        } else if slot == 1 {
            Some("system_program")
        } else {
            None
        }
    }
}

impl Invocation {
    /// Whether the invocation has ended.
    pub fn is_final(&self) -> (ended: bool)
        ensures
            ended == is_final(self@),
    {
        match self {
            Invocation::Committed { .. } => true,
            Invocation::Rejected { .. } => true,
            _ => false,
        }
    }

    /// Takes the invocation one stage further.
    pub fn advance(self, accounts: &[AccountRef], data: &[u8]) -> (next: Invocation)
        ensures
            next@ == step(self@, accounts@, data@),
    {
        match self {
            Invocation::Received => Invocation::Decoding,
            Invocation::Decoding => match Instruction::decode(data) {
                Ok(instruction) => Invocation::Validating { instruction },
                Err(error) => Invocation::Rejected { failure: Failure::Decode(error) },
            },
            Invocation::Validating { instruction } => match instruction {
                Instruction::InitializePlatform => match InitializePlatform::try_accounts(
                    accounts,
                ) {
                    Ok(named) => Invocation::Executing { call: Call::InitializePlatform(named) },
                    Err(error) => Invocation::Rejected { failure: Failure::Validate(error) },
                },
                Instruction::CreateMusicNft { args } => match CreateMusicNFT::try_accounts(
                    accounts,
                ) {
                    Ok(named) => Invocation::Executing {
                        call: Call::CreateMusicNft(named, args),
                    },
                    Err(error) => Invocation::Rejected { failure: Failure::Validate(error) },
                },
            },
            Invocation::Executing { call } => {
                let handled = match call {
                    Call::InitializePlatform(named) => initialize_platform(&named),
                    Call::CreateMusicNft(named, args) => create_music_nft(
                        &named,
                        args.name,
                        args.artist,
                        args.rarity,
                    ),
                };
                match handled {
                    Ok(diagnostic) => Invocation::Committed { diagnostic },
                    Err(error) => Invocation::Rejected { failure: Failure::Execute(error) },
                }
            },
            Invocation::Committed { diagnostic } => Invocation::Committed { diagnostic },
            Invocation::Rejected { failure } => Invocation::Rejected { failure },
        }
    }

    /// The outcome of an invocation that has ended; `None` while it has
    /// not.
    pub fn into_outcome(self) -> (outcome: Option<Outcome>)
        ensures
            outcome is Some <==> is_final(self@),
            outcome matches Some(ended) ==> ended@ == outcome_of(self@),
    {
        match self {
            Invocation::Committed { diagnostic } => Some(Outcome::Committed { diagnostic }),
            Invocation::Rejected { failure } => Some(Outcome::Rejected { failure }),
            _ => None,
        }
    }
}

/// Runs one invocation to its end.
///
/// The instruction bytes are decoded, the accounts are validated against
/// the schema of the instruction that the bytes spell, and the handler
/// runs. The first stage that fails rejects the invocation, and then no
/// later stage runs: in particular a rejected invocation has produced no
/// diagnostic line.
pub fn process_instruction(accounts: &[AccountRef], data: &[u8]) -> (outcome: Outcome)
    ensures
        outcome@ == processed(accounts@, data@),
{
    let mut state = Invocation::Received;
    while !state.is_final()
        invariant
            run(state@, accounts@, data@) == run(InvocationView::Received, accounts@, data@),
        decreases steps_left(state@),
    {
        proof {
            lemma_step_progress(state@, accounts@, data@);
        }
        state = state.advance(accounts, data);
    }
    proof {
        lemma_run_from_received(accounts@, data@);
    }
    state.into_outcome().unwrap()
}

} // verus!
