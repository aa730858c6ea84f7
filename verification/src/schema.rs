//! Account schemas: what each instruction requires of the accounts it is
//! given, as an ordered list of checks over numbered slots.

use vstd::prelude::*;
use crate::account::Capability;

verus! {

/// One entry of a schema: the account in position `slot` must have
/// `capability`.
#[derive(Clone, Copy, Debug, PartialEq, Eq, Structural)]
pub struct Requirement {
    pub slot: usize,
    pub capability: Capability,
}

/// The account schema of one instruction: how many accounts it takes, and the
/// checks made on them, in the order in which they are made. Every check
/// names one of the schema's slots.
#[derive(Debug, PartialEq, Eq)]
pub struct Schema {
    slots: usize,
    requirements: Vec<Requirement>,
}

/// A schema as a mathematical value.
pub struct SchemaView {
    /// Number of accounts the instruction takes.
    pub slots: nat,
    /// The checks, in evaluation order.
    pub requirements: Seq<Requirement>,
}

/// Whether every entry of `requirements` names a slot below `slots`.
pub open spec fn slots_in_range(requirements: Seq<Requirement>, slots: nat) -> bool {
    forall|i: int| 0 <= i < requirements.len() ==> (#[trigger] requirements[i]).slot < slots
}

impl SchemaView {
    /// Every check names a slot that the schema has.
    pub open spec fn wf(self) -> bool {
        slots_in_range(self.requirements, self.slots)
    }
}

/// Schema of "initialize platform": the authority in slot 0 signs and is
/// writable, slot 1 holds the system service.
pub open spec fn initialize_platform_schema() -> SchemaView {
    SchemaView {
        slots: 2,
        requirements: seq![
            Requirement { slot: 0, capability: Capability::Signer },
            Requirement { slot: 0, capability: Capability::Writable },
            Requirement { slot: 1, capability: Capability::SystemService },
        ],
    }
}

/// Schema of "create music NFT": the payer in slot 0 signs, slot 1 holds the
/// system service.
pub open spec fn create_music_nft_schema() -> SchemaView {
    SchemaView {
        slots: 2,
        requirements: seq![
            Requirement { slot: 0, capability: Capability::Signer },
            Requirement { slot: 1, capability: Capability::SystemService },
        ],
    }
}

impl View for Schema {
    type V = SchemaView;

    closed spec fn view(&self) -> SchemaView {
        SchemaView { slots: self.slots as nat, requirements: self.requirements@ }
    }
}

impl Schema {
    #[verifier::type_invariant]
    spec fn well_formed(self) -> bool {
        slots_in_range(self.requirements@, self.slots as nat)
    }

    /// A schema of `slots` accounts with the given checks, or `None` where a
    /// check names a slot that the schema does not have.
    pub fn new(slots: usize, requirements: Vec<Requirement>) -> (schema: Option<Schema>)
        ensures
            schema is Some <==> slots_in_range(requirements@, slots as nat),
            schema matches Some(s) ==> s@ == (SchemaView {
                slots: slots as nat,
                requirements: requirements@,
            }) && s@.wf(),
    {
        let mut i: usize = 0;
        while i < requirements.len()
            invariant
                i <= requirements.len(),
                forall|k: int| 0 <= k < i ==> (#[trigger] requirements@[k]).slot < slots,
            decreases requirements.len() - i,
        {
            if requirements[i].slot >= slots {
                return None;
            }
            i += 1;
        }
        Some(Schema { slots, requirements })
    }

    /// The schema of "initialize platform".
    pub fn initialize_platform() -> (schema: Schema)
        ensures
            schema@ == initialize_platform_schema(),
            schema@.wf(),
    {
        let mut requirements: Vec<Requirement> = Vec::new();
        requirements.push(Requirement { slot: 0, capability: Capability::Signer });
        requirements.push(Requirement { slot: 0, capability: Capability::Writable });
        requirements.push(Requirement { slot: 1, capability: Capability::SystemService });
        assert(requirements@ =~= initialize_platform_schema().requirements);
        Schema { slots: 2, requirements }
    }

    /// The schema of "create music NFT".
    pub fn create_music_nft() -> (schema: Schema)
        ensures
            schema@ == create_music_nft_schema(),
            schema@.wf(),
    {
        let mut requirements: Vec<Requirement> = Vec::new();
        requirements.push(Requirement { slot: 0, capability: Capability::Signer });
        requirements.push(Requirement { slot: 1, capability: Capability::SystemService });
        assert(requirements@ =~= create_music_nft_schema().requirements);
        Schema { slots: 2, requirements }
    }

    /// Number of accounts the instruction takes.
    pub fn slots(&self) -> (slots: usize)
        ensures
            slots == self@.slots,
    {
        self.slots
    }

    /// Number of checks in the schema.
    pub fn len(&self) -> (len: usize)
        ensures
            len == self@.requirements.len(),
    {
        self.requirements.len()
    }

    /// The check at position `index` of the evaluation order.
    pub fn requirement(&self, index: usize) -> (requirement: Option<Requirement>)
        ensures
            index < self@.requirements.len() ==> requirement == Some(
                self@.requirements[index as int],
            ) && self@.requirements[index as int].slot < self@.slots,
            index >= self@.requirements.len() ==> requirement is None,
    {
        proof {
            use_type_invariant(self);
        }
        if index < self.requirements.len() {
            Some(self.requirements[index])
        } else {
            None
        }
    }
}

} // verus!
