//! The request this program accepts, and its wire format.
//!
//! A payload is one tag byte that names the request kind, followed by the
//! kind's fields. The only kind so far has tag 0 and one field, the 32 bytes
//! of the identity that is to receive the staker authority.

use vstd::prelude::*;
use crate::identity::Identity;

verus! {

/// Tag byte of the `Stake` request.
pub const STAKE_TAG: u8 = 0;

/// Length of an encoded `Stake` request: the tag and one identity.
pub const STAKE_PAYLOAD_LEN: usize = 33;

/// A request to this program. New kinds may be added as further variants.
#[derive(Clone, Copy, Debug, PartialEq, Eq)]
pub enum StakeMeInstruction {
    /// Delegate the position to the new validator and hand the staker
    /// authority to `target_stake_authority`.
    Stake { target_stake_authority: Identity },
}

/// The mathematical value of a request.
pub enum RequestView {
    Stake { target: Seq<u8> },
}

/// Why a payload is not a request.
#[derive(Clone, Copy, Debug, PartialEq, Eq)]
pub enum DecodeError {
    /// The payload ends before the request does.
    Truncated,
    /// The tag byte names no known request kind.
    UnknownTag,
    /// Bytes follow the end of the request.
    TrailingBytes,
}

impl View for StakeMeInstruction {
    type V = RequestView;

    open spec fn view(&self) -> RequestView {
        match *self {
            StakeMeInstruction::Stake { target_stake_authority } => RequestView::Stake {
                target: target_stake_authority@,
            },
        }
    }
}

/// The bytes that encode a request.
pub open spec fn encoded(request: RequestView) -> Seq<u8> {
    match request {
        RequestView::Stake { target } => seq![0u8] + target,
    }
}

/// What a payload decodes to: the request, or the reason why it is none.
pub open spec fn decoded(payload: Seq<u8>) -> Result<RequestView, DecodeError> {
    if payload.len() == 0 {
        Err(DecodeError::Truncated)
    } else if payload[0] != 0 {
        Err(DecodeError::UnknownTag)
    } else if payload.len() < 33 {
        Err(DecodeError::Truncated)
    } else if payload.len() > 33 {
        Err(DecodeError::TrailingBytes)
    } else {
        Ok(RequestView::Stake { target: payload.subrange(1, 33) })
    }
}

impl StakeMeInstruction {
    /// The identity that the request names as recipient of the staker authority.
    pub open spec fn target(self) -> Seq<u8> {
        match self {
            StakeMeInstruction::Stake { target_stake_authority } => target_stake_authority@,
        }
    }

    /// Decodes a payload. The whole payload must be one request.
    pub fn try_from_slice(data: &[u8]) -> (request: Result<StakeMeInstruction, DecodeError>)
        ensures
            match request {
                Ok(r) => decoded(data@) == Ok::<RequestView, DecodeError>(r@),
                Err(e) => decoded(data@) == Err::<RequestView, DecodeError>(e),
            },
    {
        if data.len() == 0 {
            return Err(DecodeError::Truncated);
        }
        if data[0] != STAKE_TAG {
            return Err(DecodeError::UnknownTag);
        }
        if data.len() < STAKE_PAYLOAD_LEN {
            return Err(DecodeError::Truncated);
        }
        if data.len() > STAKE_PAYLOAD_LEN {
            return Err(DecodeError::TrailingBytes);
        }
        let mut bytes: [u8; 32] = [0u8; 32];
        let mut i: usize = 0;
        while i < 32
            invariant
                i <= 32,
                data@.len() == 33,
                forall|k: int| 0 <= k < i ==> bytes@[k] == data@[k + 1],
            decreases 32 - i,
        {
            bytes[i] = data[i + 1];
            i += 1;
        }
        let target = Identity { bytes };
        assert(target@ =~= data@.subrange(1, 33));
        Ok(StakeMeInstruction::Stake { target_stake_authority: target })
    }

    /// Encodes the request.
    pub fn to_vec(&self) -> (payload: Vec<u8>)
        ensures
            payload@ == encoded(self@),
    {
        match self {
            StakeMeInstruction::Stake { target_stake_authority } => {
                let mut payload: Vec<u8> = Vec::with_capacity(STAKE_PAYLOAD_LEN);
                payload.push(STAKE_TAG);
                let mut i: usize = 0;
                while i < 32
                    invariant
                        i <= 32,
                        payload@.len() == i + 1,
                        payload@[0] == 0,
                        forall|k: int|
                            0 <= k < i ==> payload@[k + 1] == target_stake_authority.bytes@[k],
                    decreases 32 - i,
                {
                    payload.push(target_stake_authority.bytes[i]);
                    i += 1;
                }
                assert(payload@ =~= encoded(self@));
                payload
            },
        }
    }
}

/// Decoding undoes encoding: the encoding of a request with a 32-byte target
/// decodes to that request.
pub proof fn lemma_decode_encode(request: RequestView)
    requires
        request matches RequestView::Stake { target } && target.len() == 32,
    ensures
        decoded(encoded(request)) == Ok::<RequestView, DecodeError>(request),
{
    let RequestView::Stake { target } = request;
    assert(encoded(request).subrange(1, 33) =~= target);
}

/// A payload is the encoding of what it decodes to, and of nothing else: two
/// payloads that decode to the same request are the same payload.
pub proof fn lemma_encode_decode(payload: Seq<u8>)
    requires
        decoded(payload) is Ok,
    ensures
        encoded(decoded(payload)->Ok_0) == payload,
{
    assert(encoded(decoded(payload)->Ok_0) =~= payload);
}

} // verus!
