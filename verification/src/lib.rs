//! Instruction dispatch and account validation for a music NFT platform
//! program running inside an account-based ledger runtime.
//!
//! An invocation is a pure function of the instruction bytes and the account
//! references that the caller supplied: the bytes are decoded into an
//! instruction, the accounts are checked against that instruction's schema,
//! and only then the handler runs. Nothing is kept between invocations.

pub mod account;
pub mod handlers;
pub mod identity;
pub mod instruction;
pub mod invocation;
pub mod laws;
pub mod outcome;
pub mod program;
pub mod schema;
pub mod validator;
pub mod wire;

pub use account::{AccountRef, Capability};
pub use handlers::{
    create_music_nft, initialize_platform, CreateMusicNFT, HandlerError, InitializePlatform,
};
pub use identity::Identity;
pub use instruction::{DecodeError, Instruction, NftArgs};
pub use invocation::{process_instruction, Call, Invocation};
pub use outcome::{Failure, Outcome, Stage};
pub use program::Program;
pub use schema::{Requirement, Schema};
pub use validator::{validate_accounts, ValidationError};
pub use wire::TextError;
