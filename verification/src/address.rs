//! Keyless addresses and the capability to sign for them.
//!
//! A program address is computed from a program's identity and a list of byte
//! strings, the seeds. No private key belongs to it. Only the program it was
//! derived for can sign as that address, and only by presenting the seeds
//! together with the bump, the byte that the derivation added to them.

use vstd::prelude::*;
use crate::identity::Identity;
use solana_program::pubkey::Pubkey;

verus! {

/// The address and the bump that the derivation yields for the seeds under the
/// program's identity, or `None` where it yields no address.
pub uninterp spec fn program_address(seeds: Seq<Seq<u8>>, program: Seq<u8>) -> Option<(Seq<u8>, u8)>;

/// The byte strings that a list of seeds holds.
pub open spec fn seeds_view(seeds: Seq<Vec<u8>>) -> Seq<Seq<u8>> {
    Seq::new(seeds.len(), |i: int| seeds[i]@)
}

/// Calls `Pubkey::try_find_program_address` of solana_program. Nothing is
/// proved of it: the contract names what it returns `program_address` of the
/// seeds' bytes and the program's bytes, on the ground that the search hashes
/// these and nothing else.
#[verifier::external_body]
fn find_program_address(seeds: &Vec<Vec<u8>>, program: &Identity) -> (found: Option<(Identity, u8)>)
    ensures
        match found {
            Some((address, bump)) => program_address(seeds_view(seeds@), program@) == Some(
                (address@, bump),
            ),
            None => program_address(seeds_view(seeds@), program@) is None,
        },
{
    let parts: Vec<&[u8]> = seeds.iter().map(|seed| seed.as_slice()).collect();
    Pubkey::try_find_program_address(&parts, &Pubkey::new_from_array(program.bytes)).map(
        |(address, bump)| (Identity { bytes: address.to_bytes() }, bump),
    )
}

/// How an address is derived: the program it belongs to and the seeds.
#[derive(Debug, PartialEq, Eq)]
pub struct Recipe {
    pub program: Identity,
    pub seeds: Vec<Vec<u8>>,
}

/// The mathematical value of a recipe.
pub struct RecipeView {
    pub program: Seq<u8>,
    pub seeds: Seq<Seq<u8>>,
}

impl View for Recipe {
    type V = RecipeView;

    open spec fn view(&self) -> RecipeView {
        RecipeView { program: self.program@, seeds: seeds_view(self.seeds@) }
    }
}

/// The address and bump that a recipe yields.
pub open spec fn derived(recipe: RecipeView) -> Option<(Seq<u8>, u8)> {
    program_address(recipe.seeds, recipe.program)
}

/// The seeds that sign for a recipe's address: the recipe's own, then the bump.
pub open spec fn signer_seeds(recipe: RecipeView, bump: u8) -> Seq<Seq<u8>> {
    recipe.seeds.push(seq![bump])
}

/// The capability to sign as a derived address: the address, and the seeds
/// that reproduce it for the program.
#[derive(Debug, PartialEq, Eq)]
pub struct SigningCapability {
    pub program: Identity,
    pub address: Identity,
    pub bump: u8,
    pub signer_seeds: Vec<Vec<u8>>,
}

/// The mathematical value of a signing capability.
pub struct CapabilityView {
    pub program: Seq<u8>,
    pub address: Seq<u8>,
    pub bump: u8,
    pub signer_seeds: Seq<Seq<u8>>,
}

impl View for SigningCapability {
    type V = CapabilityView;

    open spec fn view(&self) -> CapabilityView {
        CapabilityView {
            program: self.program@,
            address: self.address@,
            bump: self.bump,
            signer_seeds: seeds_view(self.signer_seeds@),
        }
    }
}

/// The capability that a recipe gives, where it yields an address.
pub open spec fn capability_of(recipe: RecipeView) -> Option<CapabilityView> {
    match derived(recipe) {
        Some((address, bump)) => Some(
            CapabilityView {
                program: recipe.program,
                address,
                bump,
                signer_seeds: signer_seeds(recipe, bump),
            },
        ),
        None => None,
    }
}

impl Recipe {
    /// Derives the recipe's address and bump. Changes nothing.
    pub fn derive(&self) -> (found: Option<(Identity, u8)>)
        ensures
            match found {
                Some((address, bump)) => derived(self@) == Some((address@, bump)),
                None => derived(self@) is None,
            },
    {
        find_program_address(&self.seeds, &self.program)
    }

    /// The capability to sign as the recipe's address, given the address and
    /// the bump that the derivation yielded.
    pub fn with_bump(self, address: Identity, bump: u8) -> (capability: SigningCapability)
        ensures
            capability@ == (CapabilityView {
                program: self@.program,
                address: address@,
                bump,
                signer_seeds: signer_seeds(self@, bump),
            }),
    {
        let ghost recipe = self@;
        let program = self.program;
        let mut seeds = self.seeds;
        let mut last: Vec<u8> = Vec::new();
        last.push(bump);
        assert(last@ =~= seq![bump]);
        seeds.push(last);
        assert(seeds_view(seeds@) =~= signer_seeds(recipe, bump));
        SigningCapability { program, address, bump, signer_seeds: seeds }
    }

    /// Derives the recipe's address and turns the recipe into the capability
    /// to sign as that address.
    pub fn into_capability(self) -> (capability: Option<SigningCapability>)
        ensures
            match capability {
                Some(c) => capability_of(self@) == Some(c@),
                None => capability_of(self@) is None,
            },
    {
        match self.derive() {
            Some((address, bump)) => Some(self.with_bump(address, bump)),
            None => None,
        }
    }
}

/// The tag that opens the seeds of a controlling address: the bytes of `stake`.
pub open spec fn stake_tag() -> Seq<u8> {
    seq![0x73u8, 0x74u8, 0x61u8, 0x6bu8, 0x65u8]
}

/// The recipe of the controlling address for a handoff: under the program's
/// identity, the tag, the new validator's identity and the identity that is to
/// receive the staker authority.
pub open spec fn controlling_recipe(
    program: Seq<u8>,
    validator: Seq<u8>,
    target: Seq<u8>,
) -> RecipeView {
    RecipeView { program, seeds: seq![stake_tag(), validator, target] }
}

/// The controlling address of a handoff, where the derivation yields one.
pub open spec fn controlling_address(
    program: Seq<u8>,
    validator: Seq<u8>,
    target: Seq<u8>,
) -> Option<Seq<u8>> {
    match derived(controlling_recipe(program, validator, target)) {
        Some((address, _)) => Some(address),
        None => None,
    }
}

impl Recipe {
    /// Builds the recipe of a handoff's controlling address.
    pub fn controlling(
        program: &Identity,
        validator: &Identity,
        target: &Identity,
    ) -> (recipe: Recipe)
        ensures
            recipe@ == controlling_recipe(program@, validator@, target@),
    {
        let mut tag: Vec<u8> = Vec::new();
        tag.push(0x73u8);
        tag.push(0x74u8);
        tag.push(0x61u8);
        tag.push(0x6bu8);
        tag.push(0x65u8);
        assert(tag@ =~= stake_tag());
        let mut seeds: Vec<Vec<u8>> = Vec::new();
        seeds.push(tag);
        seeds.push(validator.to_vec());
        seeds.push(target.to_vec());
        let recipe = Recipe { program: *program, seeds };
        assert(recipe@.seeds =~= controlling_recipe(program@, validator@, target@).seeds);
        recipe
    }
}

} // verus!
