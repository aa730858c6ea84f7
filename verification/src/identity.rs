//! Account identities: the 32-byte keys by which the ledger names accounts.

use vstd::prelude::*;

verus! {

/// The identity of an account or of a program: 32 opaque bytes.
#[derive(Clone, Copy, Debug, PartialEq, Eq, Hash)]
pub struct Identity {
    pub bytes: [u8; 32],
}

impl View for Identity {
    type V = Seq<u8>;

    open spec fn view(&self) -> Seq<u8> {
        self.bytes@
    }
}

/// The identity of the runtime's built-in system service: 32 zero bytes.
pub open spec fn system_service_key() -> Seq<u8> {
    Seq::new(32, |i: int| 0u8)
}

/// Reads `anchor_lang::system_program::ID`, the address that the runtime
/// gives its system program, with the address's `to_bytes`. The constant is
/// declared from the base-58 string of thirty-two `1` digits, which stands
/// for thirty-two zero bytes; that is what the contract claims.
#[verifier::external_body]
fn runtime_system_program_id() -> (bytes: [u8; 32])
    ensures
        bytes@ == system_service_key(),
{
    anchor_lang::system_program::ID.to_bytes()
}

impl Identity {
    /// Wraps 32 raw bytes.
    pub fn new(bytes: [u8; 32]) -> (id: Identity)
        ensures
            id.bytes == bytes,
            id@ == bytes@,
    {
        Identity { bytes }
    }

    /// Whether two identities hold the same bytes.
    pub fn same_as(&self, other: &Identity) -> (same: bool)
        ensures
            same == (self@ == other@),
    {
        let mut i: usize = 0;
        while i < 32
            invariant
                i <= 32,
                forall|k: int| 0 <= k < i ==> self.bytes@[k] == other.bytes@[k],
            decreases 32 - i,
        {
            if self.bytes[i] != other.bytes[i] {
                return false;
            }
            i += 1;
        }
        assert(self.bytes@ =~= other.bytes@);
        true
    }

    /// The identity of the runtime's built-in system service.
    pub fn system_service() -> (id: Identity)
        ensures
            id@ == system_service_key(),
    {
        Identity::new(runtime_system_program_id())
    }

    /// Whether this is the identity of the runtime's system service.
    pub fn is_system_service(&self) -> (is: bool)
        ensures
            is == (self@ == system_service_key()),
    {
        let service = Identity::system_service();
        self.same_as(&service)
    }
}

} // verus!
