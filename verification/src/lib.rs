//! Deferred handoff of the staker authority over a staking position.
//!
//! A holder hands the staker authority of a position to a keyless address that
//! only this program can sign for. When the program is invoked later, it asks
//! the staking subsystem to delegate the position to the new validator, and
//! then to give the staker authority to the recipient the holder named.

pub mod address;
pub mod handoff;
pub mod identity;
pub mod instruction;
pub mod position;
pub mod staking;

use vstd::prelude::*;

pub use crate::address::{Recipe, SigningCapability};
pub use crate::handoff::{Handoff, Stage, Step, SubRequest};
pub use crate::identity::Identity;
pub use crate::instruction::{DecodeError, StakeMeInstruction};
pub use crate::staking::{AccountRole, StakingCall};
use crate::address::{capability_of, controlling_recipe};
use crate::handoff::{handoff_of, keys, HandoffView, ACCOUNT_COUNT, VALIDATOR};
use crate::instruction::{decoded, RequestView};

verus! {

/// Why an invocation was turned down before any sub-request.
#[derive(Clone, Copy, Debug, PartialEq, Eq)]
pub enum HandoffError {
    /// The payload is not a request.
    InvalidInstructionData,
    /// The account context does not hold exactly seven accounts.
    NotEnoughAccountKeys,
    /// The derivation yields no controlling address for the request.
    NoControllingAddress,
}

/// What an invocation leads to. The payload is decoded first, then the
/// account context is counted, then the controlling address is derived from
/// the program's identity, the validator at the second place of the context
/// and the recipient that the request names.
pub open spec fn invocation(
    program: Seq<u8>,
    accounts: Seq<Seq<u8>>,
    payload: Seq<u8>,
) -> Result<HandoffView, HandoffError> {
    match decoded(payload) {
        Err(_) => Err(HandoffError::InvalidInstructionData),
        Ok(RequestView::Stake { target }) => if accounts.len() != 7 {
            Err(HandoffError::NotEnoughAccountKeys)
        } else {
            match capability_of(controlling_recipe(program, accounts[1], target)) {
                None => Err(HandoffError::NoControllingAddress),
                Some(capability) => Ok(handoff_of(accounts, target, capability)),
            }
        },
    }
}

/// Handles one invocation of the program up to the first sub-request: decodes
/// the payload, checks the account context and derives the controlling
/// address. Returns the handoff to run, or the reason why there is none.
pub fn process_instruction(
    program_id: &Identity,
    accounts: &[Identity],
    instruction_data: &[u8],
) -> (outcome: Result<Handoff, HandoffError>)
    ensures
        match outcome {
            Ok(handoff) => invocation(program_id@, keys(accounts@), instruction_data@) == Ok::<
                HandoffView,
                HandoffError,
            >(handoff@),
            Err(error) => invocation(program_id@, keys(accounts@), instruction_data@) == Err::<
                HandoffView,
                HandoffError,
            >(error),
        },
{
    match StakeMeInstruction::try_from_slice(instruction_data) {
        Err(_) => Err(HandoffError::InvalidInstructionData),
        Ok(StakeMeInstruction::Stake { target_stake_authority }) => {
            if accounts.len() != ACCOUNT_COUNT {
                return Err(HandoffError::NotEnoughAccountKeys);
            }
            let recipe = Recipe::controlling(
                program_id,
                &accounts[VALIDATOR],
                &target_stake_authority,
            );
            match recipe.into_capability() {
                None => Err(HandoffError::NoControllingAddress),
                Some(capability) => Ok(
                    Handoff::prepare(accounts, &target_stake_authority, capability),
                ),
            }
        },
    }
}

} // verus!
