//! What a handoff does to a staking position.
//!
//! The position belongs to the staking subsystem. This module states the
//! subsystem's interface as the handoff relies on it, and proves from it what
//! an invocation leaves behind. The statements hold of a subsystem that keeps
//! to this interface and accepts every call that the interface admits.

use vstd::prelude::*;
use crate::address::{capability_of, controlling_address, controlling_recipe};
use crate::handoff::{concluded, handoff_of, HandoffView, SubRequestView};
use crate::instruction::{decoded, DecodeError, RequestView};
use crate::staking::{clock_oracle, delegate_call, reassign_call, stake_config, stake_history_oracle};
use crate::{invocation, HandoffError};

verus! {

/// A staking position: its address, its staker authority and the validator it
/// is delegated to, if any.
pub struct Position {
    pub address: Seq<u8>,
    pub staker: Seq<u8>,
    pub validator: Option<Seq<u8>>,
}

/// Whether every account that a sub-request's call names is handed over with
/// it, out of the account context.
pub open spec fn supplied(request: SubRequestView, accounts: Seq<Seq<u8>>) -> bool {
    forall|r: int|
        0 <= r < request.call.roles.len() ==> exists|a: int|
            {
                &&& 0 <= a < request.accounts.len()
                &&& 0 <= request.accounts[a] < accounts.len()
                &&& #[trigger] accounts[request.accounts[a] as int] == (
                #[trigger] request.call.roles[r]).key
            }
}

/// The subsystem's answer to a sub-request that carries the signature of
/// `signed_by`: the position after the call, or `None` where the call is
/// refused. A delegation and a reassignment are accepted only for this
/// position, with their accounts supplied, and on the signature of the
/// position's staker authority. Anything else is refused.
pub open spec fn answer(
    position: Position,
    request: SubRequestView,
    accounts: Seq<Seq<u8>>,
    signed_by: Seq<u8>,
) -> Option<Position> {
    let validator = request.call.roles[1].key;
    let recipient = request.call.data.subrange(4, 36);
    if !supplied(request, accounts) || signed_by != position.staker {
        None
    } else if request.call == delegate_call(position.address, position.staker, validator) {
        Some(Position { validator: Some(validator), ..position })
    } else if request.call == reassign_call(position.address, position.staker, recipient) {
        Some(Position { staker: recipient, ..position })
    } else {
        None
    }
}

/// The subsystem's answer as the caller reports it to the handoff.
pub open spec fn reported(answer: Option<Position>) -> Result<(), ()> {
    match answer {
        Some(_) => Ok(()),
        None => Err(()),
    }
}

/// The position after a handoff has run against it, and whether the handoff
/// succeeded. Each sub-request is signed as the capability's address. When a
/// sub-request is refused the host drops every change, so the position is as
/// it was before.
pub open spec fn run_on(
    handoff: HandoffView,
    accounts: Seq<Seq<u8>>,
    position: Position,
) -> (bool, Position) {
    let signed_by = handoff.capability.address;
    match answer(position, handoff.delegate, accounts, signed_by) {
        None => (false, position),
        Some(delegated) => match answer(delegated, handoff.reassign, accounts, signed_by) {
            None => (false, position),
            Some(reassigned) => (true, reassigned),
        },
    }
}

/// The position after an invocation, and whether the invocation succeeded.
pub open spec fn invoke_on(
    program: Seq<u8>,
    accounts: Seq<Seq<u8>>,
    payload: Seq<u8>,
    position: Position,
) -> (bool, Position) {
    match invocation(program, accounts, payload) {
        Err(_) => (false, position),
        Ok(handoff) => run_on(handoff, accounts, position),
    }
}

/// Whether an account context of seven keys is the one for a position: the
/// position comes first, the three oracles stand at their places, and the
/// authority at the sixth place is the position's staker authority.
pub open spec fn context_for(accounts: Seq<Seq<u8>>, position: Position) -> bool {
    &&& accounts.len() == 7
    &&& accounts[0] == position.address
    &&& accounts[2] == clock_oracle()
    &&& accounts[3] == stake_history_oracle()
    &&& accounts[4] == stake_config()
    &&& accounts[5] == position.staker
}

/// A run succeeds exactly when the handoff's steps, fed with the subsystem's
/// answers, end in success.
pub proof fn lemma_run_follows_the_steps(
    handoff: HandoffView,
    accounts: Seq<Seq<u8>>,
    position: Position,
)
    ensures
        ({
            let signed_by = handoff.capability.address;
            let first = answer(position, handoff.delegate, accounts, signed_by);
            let second = match first {
                Some(delegated) => answer(delegated, handoff.reassign, accounts, signed_by),
                None => None,
            };
            run_on(handoff, accounts, position).0 <==> concluded(reported(first), reported(second)) is Ok
        }),
{
}

proof fn lemma_requests_supplied(accounts: Seq<Seq<u8>>, target: Seq<u8>, handoff: HandoffView)
    requires
        accounts.len() == 7,
        accounts[2] == clock_oracle(),
        accounts[3] == stake_history_oracle(),
        accounts[4] == stake_config(),
        handoff.delegate == handoff_of(accounts, target, handoff.capability).delegate,
        handoff.reassign == handoff_of(accounts, target, handoff.capability).reassign,
    ensures
        supplied(handoff.delegate, accounts),
        supplied(handoff.reassign, accounts),
{
    let d = handoff.delegate;
    assert forall|r: int| 0 <= r < d.call.roles.len() implies exists|a: int|
        0 <= a < d.accounts.len() && 0 <= d.accounts[a] < accounts.len()
            && #[trigger] accounts[d.accounts[a] as int] == (#[trigger] d.call.roles[r]).key by {
        let a = r;
        assert(0 <= a < d.accounts.len() && 0 <= d.accounts[a] < accounts.len()
            && accounts[d.accounts[a] as int] == d.call.roles[r].key);
    }
    let g = handoff.reassign;
    assert forall|r: int| 0 <= r < g.call.roles.len() implies exists|a: int|
        0 <= a < g.accounts.len() && 0 <= g.accounts[a] < accounts.len()
            && #[trigger] accounts[g.accounts[a] as int] == (#[trigger] g.call.roles[r]).key by {
        let a = r;
        assert(0 <= a < g.accounts.len() && 0 <= g.accounts[a] < accounts.len()
            && accounts[g.accounts[a] as int] == g.call.roles[r].key);
    }
}

/// Success. Where the payload is a request for `target`, the account context
/// is the one for the position, and the position's staker authority is the
/// controlling address derived from the validator at the second place and
/// `target`, the invocation succeeds and leaves the position delegated to that
/// validator, with `target` as its staker authority.
pub proof fn lemma_handoff_succeeds(
    program: Seq<u8>,
    accounts: Seq<Seq<u8>>,
    payload: Seq<u8>,
    target: Seq<u8>,
    position: Position,
)
    requires
        decoded(payload) == Ok::<RequestView, DecodeError>(RequestView::Stake { target }),
        context_for(accounts, position),
        controlling_address(program, accounts[1], target) == Some(accounts[5]),
    ensures
        invoke_on(program, accounts, payload, position) == (
            true,
            Position { address: position.address, staker: target, validator: Some(accounts[1]) },
        ),
{
    let capability = capability_of(controlling_recipe(program, accounts[1], target))->Some_0;
    let handoff = handoff_of(accounts, target, capability);
    assert(invocation(program, accounts, payload) == Ok::<HandoffView, HandoffError>(handoff));
    lemma_requests_supplied(accounts, target, handoff);
    let delegated = Position { validator: Some(accounts[1]), ..position };
    assert(handoff.delegate.call.roles[1].key == accounts[1]);
    assert(answer(position, handoff.delegate, accounts, capability.address) == Some(delegated));
    assert(target.len() == 32);
    assert(handoff.reassign.call.data.subrange(4, 36) =~= target);
    assert(handoff.reassign.call.data.len() == 40);
    assert(handoff.reassign.call != delegate_call(
        delegated.address,
        delegated.staker,
        handoff.reassign.call.roles[1].key,
    ));
    assert(answer(delegated, handoff.reassign, accounts, capability.address) == Some(
        Position { staker: target, ..delegated },
    ));
}

/// A payload that is no request fails the invocation and leaves the position
/// as it was.
pub proof fn lemma_bad_payload_changes_nothing(
    program: Seq<u8>,
    accounts: Seq<Seq<u8>>,
    payload: Seq<u8>,
    position: Position,
)
    requires
        decoded(payload) is Err,
    ensures
        invocation(program, accounts, payload) == Err::<HandoffView, HandoffError>(
            HandoffError::InvalidInstructionData,
        ),
        invoke_on(program, accounts, payload, position) == (false, position),
{
}

/// An account context of any length but seven fails the invocation of a
/// request and leaves the position as it was.
pub proof fn lemma_wrong_arity_changes_nothing(
    program: Seq<u8>,
    accounts: Seq<Seq<u8>>,
    payload: Seq<u8>,
    position: Position,
)
    requires
        decoded(payload) is Ok,
        accounts.len() != 7,
    ensures
        invocation(program, accounts, payload) == Err::<HandoffView, HandoffError>(
            HandoffError::NotEnoughAccountKeys,
        ),
        invoke_on(program, accounts, payload, position) == (false, position),
{
}

/// Where the authority at the sixth place is not the controlling address, the
/// delegation is refused, whatever the position holds: it names an authority
/// whose signature it does not carry. The invocation fails and leaves the
/// position as it was.
pub proof fn lemma_foreign_authority_is_refused(
    program: Seq<u8>,
    accounts: Seq<Seq<u8>>,
    payload: Seq<u8>,
    target: Seq<u8>,
    position: Position,
)
    requires
        decoded(payload) == Ok::<RequestView, DecodeError>(RequestView::Stake { target }),
        accounts.len() == 7,
        controlling_address(program, accounts[1], target) != Some(accounts[5]),
    ensures
        invoke_on(program, accounts, payload, position) == (false, position),
        invocation(program, accounts, payload) matches Ok(handoff) ==> answer(
            position,
            handoff.delegate,
            accounts,
            handoff.capability.address,
        ) is None,
{
    if invocation(program, accounts, payload) is Ok {
        let handoff = invocation(program, accounts, payload)->Ok_0;
        assert(handoff.delegate.call.roles[5].key == accounts[5]);
        assert(handoff.delegate.call.data.len() == 4);
        assert(handoff.delegate.call != reassign_call(
            position.address,
            position.staker,
            handoff.delegate.call.data.subrange(4, 36),
        ));
    }
}

/// No invocation moves the staker authority anywhere but to the recipient
/// that the request names, and none leaves the position delegated anywhere but
/// to the validator at the second place of the account context.
pub proof fn lemma_authority_goes_to_the_recipient_only(
    program: Seq<u8>,
    accounts: Seq<Seq<u8>>,
    payload: Seq<u8>,
    position: Position,
)
    ensures
        ({
            let (succeeded, after) = invoke_on(program, accounts, payload, position);
            &&& after.address == position.address
            &&& !succeeded ==> after == position
            &&& succeeded ==> (decoded(payload) matches Ok(RequestView::Stake { target })
                && after.staker == target && after.validator == Some(accounts[1]))
        }),
{
    if invoke_on(program, accounts, payload, position).0 {
        let target = decoded(payload)->Ok_0->target;
        let handoff = invocation(program, accounts, payload)->Ok_0;
        let signed_by = handoff.capability.address;
        let delegated = answer(position, handoff.delegate, accounts, signed_by)->Some_0;
        assert(handoff.delegate.call.data.len() == 4);
        assert(handoff.delegate.call != reassign_call(
            position.address,
            position.staker,
            handoff.delegate.call.data.subrange(4, 36),
        ));
        assert(handoff.delegate.call.roles[1].key == accounts[1]);
        assert(delegated == Position { validator: Some(accounts[1]), ..position });
        assert(handoff.reassign.call.roles.len() == 3);
        assert(handoff.reassign.call != delegate_call(
            delegated.address,
            delegated.staker,
            handoff.reassign.call.roles[1].key,
        ));
        assert(target.len() == 32);
        assert(handoff.reassign.call.data.subrange(4, 36) =~= target);
    }
}

/// A second invocation with the same arguments, right after one that
/// succeeded, fails and changes nothing, unless the recipient is the
/// controlling address itself: the staker authority is then the recipient, no
/// longer the authority at the sixth place.
pub proof fn lemma_second_invocation_fails(
    program: Seq<u8>,
    accounts: Seq<Seq<u8>>,
    payload: Seq<u8>,
    target: Seq<u8>,
    position: Position,
)
    requires
        decoded(payload) == Ok::<RequestView, DecodeError>(RequestView::Stake { target }),
        context_for(accounts, position),
        controlling_address(program, accounts[1], target) == Some(accounts[5]),
        target != accounts[5],
    ensures
        ({
            let (first, after) = invoke_on(program, accounts, payload, position);
            &&& first
            &&& invoke_on(program, accounts, payload, after) == (false, after)
        }),
{
    lemma_handoff_succeeds(program, accounts, payload, target, position);
}

} // verus!
