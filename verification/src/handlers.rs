//! The validated accounts of each instruction, and the handlers that run on
//! them.
//!
//! A value of `InitializePlatform` or `CreateMusicNFT` can only be had from
//! `try_accounts`, which runs the instruction's schema; so a handler, which
//! takes such a value, never runs on accounts that failed a check.
//!
//! Neither handler changes any account or keeps anything for a later
//! invocation. Each produces one diagnostic line, which the caller hands to
//! the runtime's log; the line is for observers and no caller may depend on
//! it.

use vstd::prelude::*;
use vstd::string::*;
use crate::account::{meets, AccountRef, Capability};
use crate::schema::{create_music_nft_schema, initialize_platform_schema, Schema};
use crate::validator::{
    lemma_validation_ok, met_at, validate_accounts, validation, ValidationError,
};

verus! {

/// The accounts of "initialize platform", validated.
#[derive(Clone, Copy, Debug, PartialEq, Eq)]
pub struct InitializePlatform {
    authority: AccountRef,
    system_program: AccountRef,
}

/// The accounts of "create music NFT", validated.
#[derive(Clone, Copy, Debug, PartialEq, Eq)]
pub struct CreateMusicNFT {
    payer: AccountRef,
    system_program: AccountRef,
}

/// A failure raised by a handler. Neither handler raises one at present;
/// the type is what a later handler reports a business failure with.
#[derive(Clone, Copy, Debug, PartialEq, Eq, Structural)]
pub enum HandlerError {
    /// The handler gave up with a code of its own.
    Custom { code: u32 },
}

impl View for InitializePlatform {
    type V = Seq<AccountRef>;

    /// The accounts in the order of their slots: authority, system service.
    closed spec fn view(&self) -> Seq<AccountRef> {
        seq![self.authority, self.system_program]
    }
}

impl View for CreateMusicNFT {
    type V = Seq<AccountRef>;

    /// The accounts in the order of their slots: payer, system service.
    closed spec fn view(&self) -> Seq<AccountRef> {
        seq![self.payer, self.system_program]
    }
}

impl InitializePlatform {
    #[verifier::type_invariant]
    spec fn checked(self) -> bool {
        &&& meets(self.authority, Capability::Signer)
        &&& meets(self.authority, Capability::Writable)
        &&& meets(self.system_program, Capability::SystemService)
    }

    /// Validates `accounts` against the schema of "initialize platform" and
    /// keeps the two that the schema takes: authority, then system service.
    pub fn try_accounts(accounts: &[AccountRef]) -> (result: Result<
        InitializePlatform,
        ValidationError,
    >)
        ensures
            match validation(initialize_platform_schema(), accounts@) {
                Ok(_) => result matches Ok(named) && named@ == accounts@.subrange(0, 2),
                Err(error) => result == Err::<InitializePlatform, ValidationError>(error),
            },
    {
        let schema = Schema::initialize_platform();
        match validate_accounts(&schema, accounts) {
            Ok(_) => {
                proof {
                    lemma_validation_ok(schema@, accounts@);
                    assert(met_at(schema@.requirements, accounts@, 0));
                    assert(met_at(schema@.requirements, accounts@, 1));
                    assert(met_at(schema@.requirements, accounts@, 2));
                }
                let named = InitializePlatform {
                    authority: accounts[0],
                    system_program: accounts[1],
                };
                assert(named@ =~= accounts@.subrange(0, 2));
                Ok(named)
            },
            Err(error) => Err(error),
        }
    }

    /// The platform authority. It signed the transaction and is writable.
    pub fn authority(&self) -> (account: AccountRef)
        ensures
            account == self@[0],
            account.is_signer,
            account.is_writable,
    {
        proof {
            use_type_invariant(self);
        }
        self.authority
    }

    /// The runtime's system service.
    pub fn system_program(&self) -> (account: AccountRef)
        ensures
            account == self@[1],
            meets(account, Capability::SystemService),
    {
        proof {
            use_type_invariant(self);
        }
        self.system_program
    }
}

impl CreateMusicNFT {
    #[verifier::type_invariant]
    spec fn checked(self) -> bool {
        &&& meets(self.payer, Capability::Signer)
        &&& meets(self.system_program, Capability::SystemService)
    }

    /// Validates `accounts` against the schema of "create music NFT" and
    /// keeps the two that the schema takes: payer, then system service.
    pub fn try_accounts(accounts: &[AccountRef]) -> (result: Result<
        CreateMusicNFT,
        ValidationError,
    >)
        ensures
            match validation(create_music_nft_schema(), accounts@) {
                Ok(_) => result matches Ok(named) && named@ == accounts@.subrange(0, 2),
                Err(error) => result == Err::<CreateMusicNFT, ValidationError>(error),
            },
    {
        let schema = Schema::create_music_nft();
        match validate_accounts(&schema, accounts) {
            Ok(_) => {
                proof {
                    lemma_validation_ok(schema@, accounts@);
                    assert(met_at(schema@.requirements, accounts@, 0));
                    assert(met_at(schema@.requirements, accounts@, 1));
                }
                let named = CreateMusicNFT { payer: accounts[0], system_program: accounts[1] };
                assert(named@ =~= accounts@.subrange(0, 2));
                Ok(named)
            },
            Err(error) => Err(error),
        }
    }

    /// The payer. It signed the transaction.
    pub fn payer(&self) -> (account: AccountRef)
        ensures
            account == self@[0],
            account.is_signer,
    {
        proof {
            use_type_invariant(self);
        }
        self.payer
    }

    /// The runtime's system service.
    pub fn system_program(&self) -> (account: AccountRef)
        ensures
            account == self@[1],
            meets(account, Capability::SystemService),
    {
        proof {
            use_type_invariant(self);
        }
        self.system_program
    }
}

/// The diagnostic line of "initialize platform".
pub open spec fn initialize_platform_diagnostic() -> Seq<char> {
    "🎵 Music NFT Platform инициализирована!"@
}

/// The diagnostic line of "create music NFT": the three arguments, verbatim,
/// between fixed words.
pub open spec fn create_music_nft_diagnostic(
    name: Seq<char>,
    artist: Seq<char>,
    rarity: Seq<char>,
) -> Seq<char> {
    "🎵 Создан NFT: "@ + name + " от "@ + artist + ", редкость: "@ + rarity
}

/// Handler of "initialize platform". It always succeeds, and returns the
/// diagnostic line.
pub fn initialize_platform(_ctx: &InitializePlatform) -> (result: Result<String, HandlerError>)
    ensures
        result matches Ok(line) && line@ == initialize_platform_diagnostic(),
{
    Ok(String::from_str("🎵 Music NFT Platform инициализирована!"))
}

/// Handler of "create music NFT". It always succeeds, and returns the
/// diagnostic line, which holds the three arguments as they were given.
pub fn create_music_nft(
    _ctx: &CreateMusicNFT,
    name: String,
    artist: String,
    rarity: String,
) -> (result: Result<String, HandlerError>)
    ensures
        result matches Ok(line) && line@ == create_music_nft_diagnostic(name@, artist@, rarity@),
{
    let mut line = String::from_str("🎵 Создан NFT: ");
    line.append(name.as_str());
    line.append(" от ");
    line.append(artist.as_str());
    line.append(", редкость: ");
    line.append(rarity.as_str());
    Ok(line)
}

} // verus!
