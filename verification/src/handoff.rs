//! The handoff: what is asked of the staking subsystem, in which order, and
//! what each answer leads to.
//!
//! The library reaches the staking subsystem only through its caller. It says
//! which sub-request is due, the caller issues it with the signing capability
//! and brings back the answer, and the library says what comes next.

use vstd::prelude::*;
use crate::address::{CapabilityView, SigningCapability};
use crate::identity::Identity;
use crate::staking::{build_delegate, build_reassign, delegate_call, reassign_call, CallView, StakingCall};

verus! {

/// Number of entries in the account context.
pub const ACCOUNT_COUNT: usize = 7;

/// Place of the staking position in the account context.
pub const POSITION: usize = 0;

/// Place of the new validator's voting identity.
pub const VALIDATOR: usize = 1;

/// Place of the clock oracle.
pub const CLOCK: usize = 2;

/// Place of the stake-history oracle.
pub const STAKE_HISTORY: usize = 3;

/// Place of the stake configuration.
pub const STAKE_CONFIG: usize = 4;

/// Place of the position's current staker authority.
pub const AUTHORITY: usize = 5;

/// Place of the staking subsystem's program.
pub const STAKE_PROGRAM: usize = 6;

/// A call to the staking subsystem together with the places, in the account
/// context, of the accounts that are handed over with it.
#[derive(Debug, PartialEq, Eq)]
pub struct SubRequest {
    pub call: StakingCall,
    pub accounts: Vec<usize>,
}

/// The mathematical value of a sub-request.
pub struct SubRequestView {
    pub call: CallView,
    pub accounts: Seq<usize>,
}

impl View for SubRequest {
    type V = SubRequestView;

    open spec fn view(&self) -> SubRequestView {
        SubRequestView { call: self.call@, accounts: self.accounts@ }
    }
}

/// A handoff that is ready to run: the capability to sign as the controlling
/// address and the two sub-requests that are issued under it.
#[derive(Debug, PartialEq, Eq)]
pub struct Handoff {
    pub capability: SigningCapability,
    pub delegate: SubRequest,
    pub reassign: SubRequest,
}

/// The mathematical value of a handoff.
pub struct HandoffView {
    pub capability: CapabilityView,
    pub delegate: SubRequestView,
    pub reassign: SubRequestView,
}

impl View for Handoff {
    type V = HandoffView;

    open spec fn view(&self) -> HandoffView {
        HandoffView {
            capability: self.capability@,
            delegate: self.delegate@,
            reassign: self.reassign@,
        }
    }
}

/// The keys of an account context.
pub open spec fn keys(accounts: Seq<Identity>) -> Seq<Seq<u8>> {
    Seq::new(accounts.len(), |i: int| accounts[i]@)
}

/// The first sub-request: delegate the position to the new validator, on the
/// word of the current staker authority. The position, the validator, the
/// three oracles and the authority go with it.
pub open spec fn delegate_request(accounts: Seq<Seq<u8>>) -> SubRequestView {
    SubRequestView {
        call: delegate_call(accounts[0], accounts[5], accounts[1]),
        accounts: seq![0usize, 1usize, 2usize, 3usize, 4usize, 5usize],
    }
}

/// The second sub-request: hand the staker authority from the current
/// authority to `target`. The position, the clock and the authority go with it.
pub open spec fn reassign_request(accounts: Seq<Seq<u8>>, target: Seq<u8>) -> SubRequestView {
    SubRequestView {
        call: reassign_call(accounts[0], accounts[5], target),
        accounts: seq![0usize, 2usize, 5usize],
    }
}

/// The handoff for an account context of seven keys, a recipient and a
/// signing capability.
pub open spec fn handoff_of(
    accounts: Seq<Seq<u8>>,
    target: Seq<u8>,
    capability: CapabilityView,
) -> HandoffView {
    HandoffView {
        capability,
        delegate: delegate_request(accounts),
        reassign: reassign_request(accounts, target),
    }
}

impl Handoff {
    /// Prepares the two sub-requests of a handoff from a full account context.
    pub fn prepare(
        accounts: &[Identity],
        target: &Identity,
        capability: SigningCapability,
    ) -> (handoff: Handoff)
        requires
            accounts@.len() == 7,
        ensures
            handoff@ == handoff_of(keys(accounts@), target@, capability@),
    {
        let position = &accounts[POSITION];
        let validator = &accounts[VALIDATOR];
        let authority = &accounts[AUTHORITY];
        let mut with_delegate: Vec<usize> = Vec::new();
        with_delegate.push(POSITION);
        with_delegate.push(VALIDATOR);
        with_delegate.push(CLOCK);
        with_delegate.push(STAKE_HISTORY);
        with_delegate.push(STAKE_CONFIG);
        with_delegate.push(AUTHORITY);
        let mut with_reassign: Vec<usize> = Vec::new();
        with_reassign.push(POSITION);
        with_reassign.push(CLOCK);
        with_reassign.push(AUTHORITY);
        let delegate = SubRequest {
            call: build_delegate(position, authority, validator),
            accounts: with_delegate,
        };
        let reassign = SubRequest {
            call: build_reassign(position, authority, target),
            accounts: with_reassign,
        };
        assert(delegate@.accounts =~= delegate_request(keys(accounts@)).accounts);
        assert(reassign@.accounts =~= reassign_request(keys(accounts@), target@).accounts);
        Handoff { capability, delegate, reassign }
    }

    /// The sub-request that is due at a stage.
    pub fn sub_request(&self, stage: Stage) -> (request: &SubRequest)
        ensures
            *request == match stage {
                Stage::Delegating => self.delegate,
                Stage::Reassigning => self.reassign,
            },
    {
        match stage {
            Stage::Delegating => &self.delegate,
            Stage::Reassigning => &self.reassign,
        }
    }

    /// Runs the handoff through `issue`, which hands a sub-request and the
    /// signing capability to the staking subsystem and brings back the answer.
    /// The delegation is issued first. The reassignment is issued only after
    /// the delegation succeeded, under the same capability. The result is that
    /// of the two answers taken together: the first failure, or success.
    pub fn run<E, F: Fn(&SubRequest, &SigningCapability) -> Result<(), E>>(
        &self,
        issue: F,
    ) -> (result: Result<(), E>)
        requires
            issue.requires((&self.delegate, &self.capability)),
            issue.requires((&self.reassign, &self.capability)),
        ensures
            exists|delegated: Result<(), E>, reassigned: Result<(), E>|
                {
                    &&& result == #[trigger] concluded(delegated, reassigned)
                    &&& issue.ensures((&self.delegate, &self.capability), delegated)
                    &&& delegated is Ok ==> issue.ensures(
                        (&self.reassign, &self.capability),
                        reassigned,
                    )
                },
    {
        let delegated = issue(self.sub_request(Stage::first()), &self.capability);
        let ghost first = delegated;
        match Stage::first().after(delegated) {
            Step::Done(result) => {
                assert(result == concluded(first, first));
                result
            },
            Step::Issue(stage) => {
                let reassigned = issue(self.sub_request(stage), &self.capability);
                let ghost second = reassigned;
                match stage.after(reassigned) {
                    Step::Done(result) => {
                        assert(result == concluded(first, second));
                        result
                    },
                    Step::Issue(_) => {
                        proof {
                            assert(false);
                        }
                        Ok(())
                    },
                }
            },
        }
    }
}

/// Which sub-request is awaiting its answer.
#[derive(Clone, Copy, Debug, PartialEq, Eq)]
pub enum Stage {
    /// The position is being delegated to the new validator.
    Delegating,
    /// The staker authority is being handed to the recipient.
    Reassigning,
}

/// What follows an answer of the staking subsystem.
#[derive(Debug, PartialEq, Eq)]
pub enum Step<E> {
    /// Issue the sub-request of this stage next.
    Issue(Stage),
    /// The handoff has ended, with success or with the subsystem's error.
    Done(Result<(), E>),
}

/// The step that follows the answer to the sub-request of a stage. A failure
/// ends the handoff with the error as it came. Success of the delegation leads
/// to the reassignment, and success of the reassignment ends the handoff.
pub open spec fn step_after<E>(stage: Stage, answer: Result<(), E>) -> Step<E> {
    match answer {
        Err(e) => Step::Done(Err(e)),
        Ok(unit) => match stage {
            Stage::Delegating => Step::Issue(Stage::Reassigning),
            Stage::Reassigning => Step::Done(Ok(unit)),
        },
    }
}

impl Stage {
    /// The stage a handoff starts at.
    pub fn first() -> (stage: Stage)
        ensures
            stage == Stage::Delegating,
    {
        Stage::Delegating
    }

    /// Takes the answer to the sub-request of this stage and says what follows.
    pub fn after<E>(self, answer: Result<(), E>) -> (step: Step<E>)
        ensures
            step == step_after(self, answer),
    {
        match answer {
            Err(e) => Step::Done(Err(e)),
            Ok(unit) => match self {
                Stage::Delegating => Step::Issue(Stage::Reassigning),
                Stage::Reassigning => Step::Done(Ok(unit)),
            },
        }
    }
}

/// The result of a handoff whose first sub-request is answered with
/// `delegated` and whose second, if it is issued, with `reassigned`.
pub open spec fn concluded<E>(
    delegated: Result<(), E>,
    reassigned: Result<(), E>,
) -> Result<(), E> {
    match step_after(Stage::Delegating, delegated) {
        Step::Done(result) => result,
        Step::Issue(stage) => match step_after(stage, reassigned) {
            Step::Done(result) => result,
            Step::Issue(_) => arbitrary(),
        },
    }
}

/// A handoff ends after at most two sub-requests, delegation first. It
/// succeeds exactly when both succeed. The reassignment is issued only after
/// the delegation succeeded, and the first failure is the handoff's result.
pub proof fn lemma_both_or_nothing<E>(delegated: Result<(), E>, reassigned: Result<(), E>)
    ensures
        concluded(delegated, reassigned) is Ok <==> delegated is Ok && reassigned is Ok,
        delegated is Err ==> step_after(Stage::Delegating, delegated) == Step::Done(delegated),
        delegated is Ok ==> step_after(Stage::Delegating, delegated) == Step::<E>::Issue(
            Stage::Reassigning,
        ),
        delegated is Err ==> concluded(delegated, reassigned) == delegated,
        delegated is Ok ==> concluded(delegated, reassigned) == reassigned,
        step_after(Stage::Reassigning, reassigned) == Step::Done(reassigned),
{
}

} // verus!
