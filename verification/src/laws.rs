//! What holds of every invocation, proved over the definitions that the
//! contracts of the library use.

use vstd::prelude::*;
use crate::account::{AccountRef, Capability};
use crate::handlers::{initialize_platform_diagnostic, HandlerError};
use crate::instruction::{decode_instruction, DecodeError, InstructionView};
use crate::invocation::{bind, handle, processed, schema_of, step, InvocationView};
use crate::outcome::{Failure, OutcomeView};
use crate::validator::{
    all_met, fails_first_at, lemma_first_unmet_at, lemma_surplus_ignored, lemma_validation_ok,
    validation, ValidationError,
};

verus! {

/// Whether `accounts` are enough for `instruction` and have every
/// capability that its schema asks for.
pub open spec fn accounts_fit(instruction: InstructionView, accounts: Seq<AccountRef>) -> bool {
    &&& accounts.len() >= schema_of(instruction).slots
    &&& all_met(schema_of(instruction).requirements, accounts)
}

/// Accounts that fit the schema are never turned down: where the bytes
/// spell an instruction and the accounts fit its schema, the invocation is
/// committed, with the diagnostic line of the handler.
pub proof fn lemma_fitting_accounts_commit(
    accounts: Seq<AccountRef>,
    data: Seq<u8>,
    instruction: InstructionView,
)
    requires
        decode_instruction(data) == Ok::<InstructionView, DecodeError>(instruction),
        accounts_fit(instruction, accounts),
    ensures
        validation(schema_of(instruction), accounts) is Ok,
        processed(accounts, data) is Committed,
        handle(bind(instruction, accounts)) == Ok::<Seq<char>, HandlerError>(
            processed(accounts, data)->diagnostic,
        ),
{
    lemma_validation_ok(schema_of(instruction), accounts);
}

/// A signer who did not sign stops the invocation before the handler.
/// Both instructions ask first that the account in slot 0 signed; where the
/// bytes spell an instruction, enough accounts are supplied and the first
/// did not sign, the invocation is rejected while validating, with a
/// capability violation that names slot 0, and it never reaches the
/// handler: there is no diagnostic line.
pub proof fn lemma_missing_signature_rejects(
    accounts: Seq<AccountRef>,
    data: Seq<u8>,
    instruction: InstructionView,
)
    requires
        decode_instruction(data) == Ok::<InstructionView, DecodeError>(instruction),
        accounts.len() >= schema_of(instruction).slots,
        !accounts[0].is_signer,
    ensures
        processed(accounts, data) == (OutcomeView::Rejected {
            failure: Failure::Validate(
                ValidationError::CapabilityViolation { slot: 0, capability: Capability::Signer },
            ),
        }),
        step(InvocationView::Validating { instruction }, accounts, data) is Rejected,
{
    let requirements = schema_of(instruction).requirements;
    assert(requirements[0].slot == 0 && requirements[0].capability == Capability::Signer);
    assert(fails_first_at(requirements, accounts, 0));
    lemma_first_unmet_at(requirements, accounts, 0);
}

/// Too few accounts are a count error, whatever else is wrong with them
/// and whatever the arguments say: where the bytes spell an instruction and
/// fewer accounts are supplied than its schema takes, the invocation is
/// rejected with `AccountCountError`, and no account was looked at.
pub proof fn lemma_missing_accounts_reject(
    accounts: Seq<AccountRef>,
    data: Seq<u8>,
    instruction: InstructionView,
)
    requires
        decode_instruction(data) == Ok::<InstructionView, DecodeError>(instruction),
        accounts.len() < schema_of(instruction).slots,
    ensures
        processed(accounts, data) == (OutcomeView::Rejected {
            failure: Failure::Validate(
                ValidationError::AccountCountError {
                    required: schema_of(instruction).slots as usize,
                    supplied: accounts.len() as usize,
                },
            ),
        }),
{
}

/// Nothing is kept between invocations: two invocations of "initialize
/// platform", each with accounts that fit, are both committed, each with
/// the same diagnostic line as if the other had not happened.
pub proof fn lemma_initialize_platform_twice(
    first_accounts: Seq<AccountRef>,
    first_data: Seq<u8>,
    second_accounts: Seq<AccountRef>,
    second_data: Seq<u8>,
)
    requires
        decode_instruction(first_data) == Ok::<InstructionView, DecodeError>(
            InstructionView::InitializePlatform,
        ),
        decode_instruction(second_data) == Ok::<InstructionView, DecodeError>(
            InstructionView::InitializePlatform,
        ),
        accounts_fit(InstructionView::InitializePlatform, first_accounts),
        accounts_fit(InstructionView::InitializePlatform, second_accounts),
    ensures
        processed(first_accounts, first_data) == (OutcomeView::Committed {
            diagnostic: initialize_platform_diagnostic(),
        }),
        processed(second_accounts, second_data) == (OutcomeView::Committed {
            diagnostic: initialize_platform_diagnostic(),
        }),
{
    lemma_fitting_accounts_commit(first_accounts, first_data, InstructionView::InitializePlatform);
    lemma_fitting_accounts_commit(
        second_accounts,
        second_data,
        InstructionView::InitializePlatform,
    );
}

/// Accounts beyond those that the schema takes change nothing: where the
/// accounts are enough for the instruction that the bytes spell, the
/// outcome with further accounts behind them is the same.
pub proof fn lemma_surplus_accounts_ignored(
    accounts: Seq<AccountRef>,
    surplus: Seq<AccountRef>,
    data: Seq<u8>,
)
    requires
        decode_instruction(data) matches Ok(instruction) ==> accounts.len() >= schema_of(
            instruction,
        ).slots,
    ensures
        processed(accounts + surplus, data) == processed(accounts, data),
{
    if decode_instruction(data) is Ok {
        let instruction = decode_instruction(data)->Ok_0;
        lemma_surplus_ignored(schema_of(instruction), accounts, surplus);
        assert((accounts + surplus).subrange(0, 2) =~= accounts.subrange(0, 2));
    }
}

} // verus!
