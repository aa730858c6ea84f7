//! Account references as the caller supplies them, and the capabilities an
//! instruction can demand of them.

use vstd::prelude::*;
use crate::identity::{system_service_key, Identity};

verus! {

/// One account reference of an invocation: who the account is, and what the
/// transaction lets the program do with it. The program never owns an
/// account; the same account may be supplied in several positions.
#[derive(Clone, Copy, Debug, PartialEq, Eq)]
pub struct AccountRef {
    /// The account's identity.
    pub key: Identity,
    /// Whether the account authorised the current transaction.
    pub is_signer: bool,
    /// Whether the transaction lets the account be modified.
    pub is_writable: bool,
}

/// What an instruction can require of a supplied account.
#[derive(Clone, Copy, Debug, PartialEq, Eq, Structural)]
pub enum Capability {
    /// The account signed the transaction.
    Signer,
    /// The account may be written to.
    Writable,
    /// The account is the runtime's system service.
    SystemService,
}

/// Whether `account` has `capability`.
pub open spec fn meets(account: AccountRef, capability: Capability) -> bool {
    match capability {
        Capability::Signer => account.is_signer,
        Capability::Writable => account.is_writable,
        Capability::SystemService => account.key@ == system_service_key(),
    }
}

impl AccountRef {
    /// A reference to the account `key` with the given permissions.
    pub fn new(key: Identity, is_signer: bool, is_writable: bool) -> (account: AccountRef)
        ensures
            account == (AccountRef { key, is_signer, is_writable }),
    {
        AccountRef { key, is_signer, is_writable }
    }

    /// Checks one capability of this account.
    pub fn has(&self, capability: Capability) -> (ok: bool)
        ensures
            ok == meets(*self, capability),
    {
        match capability {
            Capability::Signer => self.is_signer,
            Capability::Writable => self.is_writable,
            Capability::SystemService => self.key.is_system_service(),
        }
    }
}

} // verus!
