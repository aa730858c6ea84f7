//! The account validator: checks the supplied accounts against a schema
//! before any handler runs.
//!
//! The checks are made afresh on every invocation and in the order in which
//! the schema lists them; the first one that fails decides the error.
//! Accounts beyond those that the schema takes are ignored.

use vstd::prelude::*;
use crate::account::{meets, AccountRef, Capability};
use crate::schema::{Requirement, Schema, SchemaView};

verus! {

/// Why a set of accounts was turned down.
#[derive(Clone, Copy, Debug, PartialEq, Eq, Structural)]
pub enum ValidationError {
    /// Fewer accounts were supplied than the schema takes. No account was
    /// looked at.
    AccountCountError { required: usize, supplied: usize },
    /// The account in `slot` lacks `capability`.
    CapabilityViolation { slot: usize, capability: Capability },
}

/// Whether the check at position `i` of `requirements` holds of `accounts`.
pub open spec fn met_at(requirements: Seq<Requirement>, accounts: Seq<AccountRef>, i: int) -> bool {
    meets(accounts[requirements[i].slot as int], requirements[i].capability)
}

/// Whether every check of `requirements` holds of `accounts`.
pub open spec fn all_met(requirements: Seq<Requirement>, accounts: Seq<AccountRef>) -> bool {
    forall|i: int| 0 <= i < requirements.len() ==> met_at(requirements, accounts, i)
}

/// Whether the check at position `i` fails and every check before it holds.
pub open spec fn fails_first_at(
    requirements: Seq<Requirement>,
    accounts: Seq<AccountRef>,
    i: int,
) -> bool {
    &&& 0 <= i < requirements.len()
    &&& !met_at(requirements, accounts, i)
    &&& forall|k: int| 0 <= k < i ==> met_at(requirements, accounts, k)
}

/// The first check, in the order of `requirements`, that does not hold of
/// `accounts`; `None` where all of them hold.
pub open spec fn first_unmet(requirements: Seq<Requirement>, accounts: Seq<AccountRef>) -> Option<
    Requirement,
>
    decreases requirements.len(),
{
    if requirements.len() == 0 {
        None
    } else if !met_at(requirements, accounts, 0) {
        Some(requirements[0])
    } else {
        first_unmet(requirements.drop_first(), accounts)
    }
}

/// What validating `accounts` against `schema` yields.
pub open spec fn validation(schema: SchemaView, accounts: Seq<AccountRef>) -> Result<
    (),
    ValidationError,
> {
    if accounts.len() < schema.slots {
        Err(
            ValidationError::AccountCountError {
                required: schema.slots as usize,
                supplied: accounts.len() as usize,
            },
        )
    } else {
        match first_unmet(schema.requirements, accounts) {
            Some(unmet) => Err(
                ValidationError::CapabilityViolation {
                    slot: unmet.slot,
                    capability: unmet.capability,
                },
            ),
            None => Ok(()),
        }
    }
}

/// If every check holds, none is the first to fail.
pub proof fn lemma_all_met(requirements: Seq<Requirement>, accounts: Seq<AccountRef>)
    requires
        all_met(requirements, accounts),
    ensures
        first_unmet(requirements, accounts) is None,
    decreases requirements.len(),
{
    if requirements.len() > 0 {
        assert(met_at(requirements, accounts, 0));
        let rest = requirements.drop_first();
        assert forall|k: int| 0 <= k < rest.len() implies met_at(rest, accounts, k) by {
            assert(met_at(requirements, accounts, k + 1));
        }
        lemma_all_met(rest, accounts);
    }
}

/// The check that fails with every check before it holding is the one
/// that is reported.
pub proof fn lemma_first_unmet_at(
    requirements: Seq<Requirement>,
    accounts: Seq<AccountRef>,
    i: int,
)
    requires
        fails_first_at(requirements, accounts, i),
    ensures
        first_unmet(requirements, accounts) == Some(requirements[i]),
    decreases i,
{
    if i > 0 {
        assert(met_at(requirements, accounts, 0));
        let rest = requirements.drop_first();
        assert forall|k: int| 0 <= k < i - 1 implies met_at(rest, accounts, k) by {
            assert(met_at(requirements, accounts, k + 1));
        }
        assert(!met_at(rest, accounts, i - 1));
        lemma_first_unmet_at(rest, accounts, i - 1);
    }
}

/// If some check fails, one of them is the first to fail, and it is the
/// one that is reported.
pub proof fn lemma_some_unmet(requirements: Seq<Requirement>, accounts: Seq<AccountRef>)
    requires
        !all_met(requirements, accounts),
    ensures
        exists|i: int| #[trigger]
            fails_first_at(requirements, accounts, i) && first_unmet(requirements, accounts)
                == Some(requirements[i]),
    decreases requirements.len(),
{
    if !met_at(requirements, accounts, 0) {
        assert(fails_first_at(requirements, accounts, 0));
    } else {
        let rest = requirements.drop_first();
        let k = choose|k: int| 0 <= k < requirements.len() && !met_at(requirements, accounts, k);
        assert(!met_at(rest, accounts, k - 1));
        lemma_some_unmet(rest, accounts);
        let j = choose|j: int| #[trigger]
            fails_first_at(rest, accounts, j) && first_unmet(rest, accounts) == Some(rest[j]);
        assert(!met_at(requirements, accounts, j + 1));
        assert forall|k: int| 0 <= k < j + 1 implies met_at(requirements, accounts, k) by {
            if k > 0 {
                assert(met_at(rest, accounts, k - 1));
            }
        }
        assert(fails_first_at(requirements, accounts, j + 1));
    }
}

/// Validation succeeds exactly when enough accounts are supplied and every
/// check of the schema holds of them.
pub proof fn lemma_validation_ok(schema: SchemaView, accounts: Seq<AccountRef>)
    ensures
        validation(schema, accounts) is Ok <==> accounts.len() >= schema.slots && all_met(
            schema.requirements,
            accounts,
        ),
{
    if all_met(schema.requirements, accounts) {
        lemma_all_met(schema.requirements, accounts);
    } else {
        lemma_some_unmet(schema.requirements, accounts);
    }
}

/// With fewer accounts than the schema takes, the answer is
/// `AccountCountError`, whatever the accounts are.
pub proof fn lemma_too_few_accounts(schema: SchemaView, accounts: Seq<AccountRef>)
    requires
        accounts.len() < schema.slots,
    ensures
        validation(schema, accounts) == Err::<(), ValidationError>(
            ValidationError::AccountCountError {
                required: schema.slots as usize,
                supplied: accounts.len() as usize,
            },
        ),
{
}

/// With enough accounts, one of which lacks what a check asks of it, the
/// answer is a `CapabilityViolation`: that of the first check that fails,
/// which is the given one or an earlier one.
pub proof fn lemma_unmet_is_violation(schema: SchemaView, accounts: Seq<AccountRef>, k: int)
    requires
        accounts.len() >= schema.slots,
        0 <= k < schema.requirements.len(),
        !met_at(schema.requirements, accounts, k),
    ensures
        exists|i: int| #[trigger]
            fails_first_at(schema.requirements, accounts, i) && i <= k && validation(
                schema,
                accounts,
            ) == Err::<(), ValidationError>(
                ValidationError::CapabilityViolation {
                    slot: schema.requirements[i].slot,
                    capability: schema.requirements[i].capability,
                },
            ),
{
    let requirements = schema.requirements;
    lemma_some_unmet(requirements, accounts);
    let i = choose|i: int| #[trigger]
        fails_first_at(requirements, accounts, i) && first_unmet(requirements, accounts) == Some(
            requirements[i],
        );
    assert(i <= k);
}

/// Two account lists on which every check comes out the same have the same
/// first failing check.
pub proof fn lemma_same_checks(
    requirements: Seq<Requirement>,
    left: Seq<AccountRef>,
    right: Seq<AccountRef>,
)
    requires
        forall|k: int|
            0 <= k < requirements.len() ==> met_at(requirements, left, k) == met_at(
                requirements,
                right,
                k,
            ),
    ensures
        first_unmet(requirements, left) == first_unmet(requirements, right),
    decreases requirements.len(),
{
    if requirements.len() > 0 {
        assert(met_at(requirements, left, 0) == met_at(requirements, right, 0));
        let rest = requirements.drop_first();
        assert forall|k: int| 0 <= k < rest.len() implies met_at(rest, left, k) == met_at(
            rest,
            right,
            k,
        ) by {
            assert(met_at(requirements, left, k + 1) == met_at(requirements, right, k + 1));
        }
        lemma_same_checks(rest, left, right);
    }
}

/// Accounts supplied beyond those that the schema takes are ignored: with
/// enough accounts, further ones behind them do not change the answer.
pub proof fn lemma_surplus_ignored(
    schema: SchemaView,
    accounts: Seq<AccountRef>,
    surplus: Seq<AccountRef>,
)
    requires
        schema.wf(),
        accounts.len() >= schema.slots,
    ensures
        validation(schema, accounts + surplus) == validation(schema, accounts),
{
    let requirements = schema.requirements;
    let longer = accounts + surplus;
    assert forall|k: int| 0 <= k < requirements.len() implies met_at(requirements, longer, k)
        == met_at(requirements, accounts, k) by {
        assert(requirements[k].slot < schema.slots);
        assert(longer[requirements[k].slot as int] == accounts[requirements[k].slot as int]);
    }
    lemma_same_checks(requirements, longer, accounts);
}

/// Checks `accounts` against `schema`.
///
/// Where fewer accounts are supplied than the schema takes, the answer is
/// `AccountCountError` and no check is made. Otherwise the checks are made
/// in the schema's order and the first that fails is reported with its
/// slot.
pub fn validate_accounts(schema: &Schema, accounts: &[AccountRef]) -> (result: Result<
    (),
    ValidationError,
>)
    ensures
        result == validation(schema@, accounts@),
{
    let slots = schema.slots();
    if accounts.len() < slots {
        return Err(
            ValidationError::AccountCountError { required: slots, supplied: accounts.len() },
        );
    }
    let ghost requirements = schema@.requirements;
    let count = schema.len();
    let mut i: usize = 0;
    while i < count
        invariant
            i <= count,
            count == requirements.len(),
            requirements == schema@.requirements,
            slots == schema@.slots,
            accounts@.len() >= slots,
            forall|k: int| 0 <= k < i ==> met_at(requirements, accounts@, k),
        decreases count - i,
    {
        match schema.requirement(i) {
            Some(requirement) => {
                let account = &accounts[requirement.slot];
                if !account.has(requirement.capability) {
                    proof {
                        lemma_first_unmet_at(requirements, accounts@, i as int);
                    }
                    return Err(
                        ValidationError::CapabilityViolation {
                            slot: requirement.slot,
                            capability: requirement.capability,
                        },
                    );
                }
            },
            None => {},
        }
        i += 1;
    }
    proof {
        lemma_all_met(requirements, accounts@);
    }
    Ok(())
}

} // verus!
