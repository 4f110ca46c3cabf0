//! Calls to the staking subsystem.
//!
//! The subsystem is addressed by its program identity and takes, with each
//! call, a list of accounts with the role each plays and the call's encoded
//! arguments. This module builds the two calls a handoff makes.

use vstd::prelude::*;
use crate::identity::Identity;
use solana_program::pubkey::Pubkey;
use solana_program::stake::instruction::{authorize, delegate_stake};
use solana_program::stake::state::StakeAuthorize;

verus! {

/// An account named in a call, and what the call may do with it.
#[derive(Clone, Copy, Debug, PartialEq, Eq)]
pub struct AccountRole {
    pub key: Identity,
    pub is_signer: bool,
    pub is_writable: bool,
}

/// The mathematical value of an account role.
pub struct RoleView {
    pub key: Seq<u8>,
    pub is_signer: bool,
    pub is_writable: bool,
}

impl View for AccountRole {
    type V = RoleView;

    open spec fn view(&self) -> RoleView {
        RoleView { key: self.key@, is_signer: self.is_signer, is_writable: self.is_writable }
    }
}

/// A call to the staking subsystem.
#[derive(Debug, PartialEq, Eq)]
pub struct StakingCall {
    pub program: Identity,
    pub roles: Vec<AccountRole>,
    pub data: Vec<u8>,
}

/// The mathematical value of a call.
pub struct CallView {
    pub program: Seq<u8>,
    pub roles: Seq<RoleView>,
    pub data: Seq<u8>,
}

impl View for StakingCall {
    type V = CallView;

    open spec fn view(&self) -> CallView {
        CallView {
            program: self.program@,
            roles: Seq::new(self.roles@.len(), |i: int| self.roles@[i]@),
            data: self.data@,
        }
    }
}

/// Identity of the staking subsystem's program.
pub open spec fn stake_program() -> Seq<u8> {
    seq![
        6u8, 161u8, 216u8, 23u8, 145u8, 55u8, 84u8, 42u8, 152u8, 52u8, 55u8, 189u8, 254u8, 42u8,
        122u8, 178u8, 85u8, 127u8, 83u8, 92u8, 138u8, 120u8, 114u8, 43u8, 104u8, 164u8, 157u8,
        192u8, 0u8, 0u8, 0u8, 0u8,
    ]
}

/// Address of the clock oracle.
pub open spec fn clock_oracle() -> Seq<u8> {
    seq![
        6u8, 167u8, 213u8, 23u8, 24u8, 199u8, 116u8, 201u8, 40u8, 86u8, 99u8, 152u8, 105u8, 29u8,
        94u8, 182u8, 139u8, 94u8, 184u8, 163u8, 155u8, 75u8, 109u8, 92u8, 115u8, 85u8, 91u8, 33u8,
        0u8, 0u8, 0u8, 0u8,
    ]
}

/// Address of the stake-history oracle.
pub open spec fn stake_history_oracle() -> Seq<u8> {
    seq![
        6u8, 167u8, 213u8, 23u8, 25u8, 53u8, 132u8, 208u8, 254u8, 237u8, 155u8, 179u8, 67u8, 29u8,
        19u8, 32u8, 107u8, 229u8, 68u8, 40u8, 27u8, 87u8, 184u8, 86u8, 108u8, 197u8, 55u8, 95u8,
        244u8, 0u8, 0u8, 0u8,
    ]
}

/// Address of the stake configuration.
pub open spec fn stake_config() -> Seq<u8> {
    seq![
        6u8, 161u8, 216u8, 23u8, 165u8, 2u8, 5u8, 11u8, 104u8, 7u8, 145u8, 230u8, 206u8, 109u8,
        184u8, 142u8, 30u8, 91u8, 113u8, 80u8, 246u8, 31u8, 198u8, 121u8, 10u8, 78u8, 180u8, 209u8,
        0u8, 0u8, 0u8, 0u8,
    ]
}

/// An account that a call only reads.
pub open spec fn read_only(key: Seq<u8>) -> RoleView {
    RoleView { key, is_signer: false, is_writable: false }
}

/// An account that a call may change.
pub open spec fn writable(key: Seq<u8>) -> RoleView {
    RoleView { key, is_signer: false, is_writable: true }
}

/// An account whose signature a call needs.
pub open spec fn signer(key: Seq<u8>) -> RoleView {
    RoleView { key, is_signer: true, is_writable: false }
}

/// The call that delegates a position to a validator on the word of the
/// position's staker authority.
pub open spec fn delegate_call(
    position: Seq<u8>,
    authority: Seq<u8>,
    validator: Seq<u8>,
) -> CallView {
    CallView {
        program: stake_program(),
        roles: seq![
            writable(position),
            read_only(validator),
            read_only(clock_oracle()),
            read_only(stake_history_oracle()),
            read_only(stake_config()),
            signer(authority),
        ],
        data: seq![2u8, 0u8, 0u8, 0u8],
    }
}

/// The call that makes `recipient` the staker authority of a position on the
/// word of the current staker authority.
pub open spec fn reassign_call(
    position: Seq<u8>,
    authority: Seq<u8>,
    recipient: Seq<u8>,
) -> CallView {
    CallView {
        program: stake_program(),
        roles: seq![writable(position), read_only(clock_oracle()), signer(authority)],
        data: seq![1u8, 0u8, 0u8, 0u8] + recipient + seq![0u8, 0u8, 0u8, 0u8],
    }
}

/// Calls `stake::instruction::delegate_stake` of solana_program and copies the
/// instruction it builds field by field. Nothing is proved of it: the contract
/// states the program, the six accounts with their flags and the four bytes of
/// data that the function's source gives.
#[verifier::external_body]
pub(crate) fn build_delegate(
    position: &Identity,
    authority: &Identity,
    validator: &Identity,
) -> (call: StakingCall)
    ensures
        call@ == delegate_call(position@, authority@, validator@),
{
    let built = delegate_stake(
        &Pubkey::new_from_array(position.bytes),
        &Pubkey::new_from_array(authority.bytes),
        &Pubkey::new_from_array(validator.bytes),
    );
    let roles = built.accounts.iter().map(|meta| AccountRole {
        key: Identity { bytes: meta.pubkey.to_bytes() },
        is_signer: meta.is_signer,
        is_writable: meta.is_writable,
    }).collect();
    StakingCall { program: Identity { bytes: built.program_id.to_bytes() }, roles, data: built.data }
}

/// Calls `stake::instruction::authorize` of solana_program for the staker
/// authority, without a custodian, and copies the instruction it builds field
/// by field. Nothing is proved of it: the contract states the program, the
/// three accounts with their flags and the data that the function's source
/// gives, which is the variant's index, the recipient's bytes and the index of
/// the kind of authority, the indices as four bytes each, lowest first.
#[verifier::external_body]
pub(crate) fn build_reassign(
    position: &Identity,
    authority: &Identity,
    recipient: &Identity,
) -> (call: StakingCall)
    ensures
        call@ == reassign_call(position@, authority@, recipient@),
{
    let built = authorize(
        &Pubkey::new_from_array(position.bytes),
        &Pubkey::new_from_array(authority.bytes),
        &Pubkey::new_from_array(recipient.bytes),
        StakeAuthorize::Staker,
        None,
    );
    let roles = built.accounts.iter().map(|meta| AccountRole {
        key: Identity { bytes: meta.pubkey.to_bytes() },
        is_signer: meta.is_signer,
        is_writable: meta.is_writable,
    }).collect();
    StakingCall { program: Identity { bytes: built.program_id.to_bytes() }, roles, data: built.data }
}

} // verus!
