use restake_me::handoff::{Handoff, Stage, Step, SubRequest};
use std::cell::RefCell;
use restake_me::identity::Identity;
use restake_me::instruction::StakeMeInstruction;
use restake_me::{process_instruction, HandoffError};
use solana_program::pubkey::Pubkey;
use solana_program::stake::instruction::{authorize, delegate_stake};
use solana_program::stake::state::StakeAuthorize;

// A stand-in for the staking subsystem: one position, which takes a
// delegation or a change of staker only on the signature of its staker.
#[derive(Clone, Debug, PartialEq, Eq)]
struct Position {
    address: Pubkey,
    staker: Pubkey,
    validator: Option<Pubkey>,
}

const REFUSED: u32 = 3;

fn key(identity: &Identity) -> Pubkey {
    Pubkey::new_from_array(identity.bytes)
}

fn identity(key: &Pubkey) -> Identity {
    Identity { bytes: key.to_bytes() }
}

fn answer(
    position: &mut Position,
    request: &SubRequest,
    accounts: &[Identity],
    signer_seeds: &[Vec<u8>],
    program: &Pubkey,
) -> Result<(), u32> {
    let seeds: Vec<&[u8]> = signer_seeds.iter().map(|seed| seed.as_slice()).collect();
    let signed_by = Pubkey::create_program_address(&seeds, program).map_err(|_| REFUSED)?;
    for role in &request.call.roles {
        if !request.accounts.iter().any(|&place| accounts[place] == role.key) {
            return Err(REFUSED);
        }
        if role.is_signer && key(&role.key) != signed_by {
            return Err(REFUSED);
        }
    }
    if key(&request.call.program) != solana_program::stake::program::id() {
        return Err(REFUSED);
    }
    let roles = &request.call.roles;
    if roles.len() == 6 {
        let validator = key(&roles[1].key);
        let expected = delegate_stake(&position.address, &position.staker, &validator);
        if request.call.data != expected.data || key(&roles[0].key) != position.address {
            return Err(REFUSED);
        }
        if key(&roles[5].key) != position.staker {
            return Err(REFUSED);
        }
        position.validator = Some(validator);
        Ok(())
    } else if roles.len() == 3 && request.call.data.len() == 40 {
        let recipient = Pubkey::new_from_array(request.call.data[4..36].try_into().unwrap());
        let expected =
            authorize(&position.address, &position.staker, &recipient, StakeAuthorize::Staker, None);
        if request.call.data != expected.data || key(&roles[0].key) != position.address {
            return Err(REFUSED);
        }
        if key(&roles[2].key) != position.staker {
            return Err(REFUSED);
        }
        position.staker = recipient;
        Ok(())
    } else {
        Err(REFUSED)
    }
}

// Runs a handoff against the stand-in. A failure leaves the position as it
// was, as the host's commit does.
fn run(handoff: &Handoff, accounts: &[Identity], position: &mut Position) -> Result<(), u32> {
    let before = position.clone();
    let program = key(&handoff.capability.program);
    let held = RefCell::new(position.clone());
    let result = handoff.run(|request, capability| {
        answer(&mut held.borrow_mut(), request, accounts, &capability.signer_seeds, &program)
    });
    *position = if result.is_ok() { held.into_inner() } else { before };
    result
}

// The same, with the caller taking each step.
fn run_by_steps(handoff: &Handoff, accounts: &[Identity], position: &mut Position) -> Result<(), u32> {
    let before = position.clone();
    let program = key(&handoff.capability.program);
    let mut stage = Stage::first();
    loop {
        let request = handoff.sub_request(stage);
        let reply = answer(position, request, accounts, &handoff.capability.signer_seeds, &program);
        match stage.after(reply) {
            Step::Issue(next) => stage = next,
            Step::Done(result) => {
                if result.is_err() {
                    *position = before;
                }
                return result;
            }
        }
    }
}

fn invoke(
    program: &Pubkey,
    accounts: &[Identity],
    payload: &[u8],
    position: &mut Position,
) -> Result<(), Option<HandoffError>> {
    let handoff = process_instruction(&identity(program), accounts, payload).map_err(Some)?;
    run(&handoff, accounts, position).map_err(|_| None)
}

fn named(fill: u8) -> Pubkey {
    let mut bytes = [fill; 32];
    bytes[3] = 250;
    Pubkey::new_from_array(bytes)
}

fn context(position: &Pubkey, validator: &Pubkey, authority: &Pubkey) -> Vec<Identity> {
    #[allow(deprecated)]
    let config = solana_program::stake::config::id();
    vec![
        identity(position),
        identity(validator),
        identity(&solana_program::sysvar::clock::id()),
        identity(&solana_program::sysvar::stake_history::id()),
        identity(&config),
        identity(authority),
        identity(&solana_program::stake::program::id()),
    ]
}

fn payload(target: &Pubkey) -> Vec<u8> {
    StakeMeInstruction::Stake { target_stake_authority: identity(target) }.to_vec()
}

#[test]
fn test_restake_flow() {
    let program_id = named(1);
    let user = named(2);
    let stake_account = named(3);
    let vote_account_a = named(4);
    let vote_account_b = named(5);

    // The position is delegated to the first validator by its holder.
    let mut position =
        Position { address: stake_account, staker: user, validator: Some(vote_account_a) };
    assert_eq!(position.validator, Some(vote_account_a));

    // The holder deactivates it and hands the staker authority to the
    // controlling address.
    let (pda, _bump_seed) = Pubkey::find_program_address(
        &[b"stake", vote_account_b.as_ref(), user.as_ref()],
        &program_id,
    );
    position.validator = None;
    position.staker = pda;

    let accounts = context(&stake_account, &vote_account_b, &pda);
    let data = borsh::to_vec(&(0u8, user.to_bytes())).unwrap();
    assert_eq!(invoke(&program_id, &accounts, &data, &mut position), Ok(()));

    assert_eq!(position.validator, Some(vote_account_b));
    assert_eq!(position.staker, user);
}

#[test]
fn handoff_succeeds_under_the_controlling_address() {
    let (program, target, validator, stake) = (named(11), named(12), named(13), named(14));
    let (pda, _) =
        Pubkey::find_program_address(&[b"stake", validator.as_ref(), target.as_ref()], &program);
    let mut position = Position { address: stake, staker: pda, validator: None };
    let accounts = context(&stake, &validator, &pda);
    assert_eq!(invoke(&program, &accounts, &payload(&target), &mut position), Ok(()));
    assert_eq!(position, Position { address: stake, staker: target, validator: Some(validator) });
}

#[test]
fn wrong_arity_leaves_the_position() {
    let (program, target, validator, stake) = (named(11), named(12), named(13), named(14));
    let (pda, _) =
        Pubkey::find_program_address(&[b"stake", validator.as_ref(), target.as_ref()], &program);
    let before = Position { address: stake, staker: pda, validator: None };
    let mut short = context(&stake, &validator, &pda);
    short.pop();
    let mut long = context(&stake, &validator, &pda);
    long.push(identity(&named(99)));
    for accounts in [short, long] {
        let mut position = before.clone();
        assert_eq!(
            invoke(&program, &accounts, &payload(&target), &mut position),
            Err(Some(HandoffError::NotEnoughAccountKeys))
        );
        assert_eq!(position, before);
    }
}

#[test]
fn bad_payload_leaves_the_position() {
    let (program, target, validator, stake) = (named(11), named(12), named(13), named(14));
    let (pda, _) =
        Pubkey::find_program_address(&[b"stake", validator.as_ref(), target.as_ref()], &program);
    let before = Position { address: stake, staker: pda, validator: None };
    let accounts = context(&stake, &validator, &pda);
    let mut data = payload(&target);
    data.truncate(20);
    let mut position = before.clone();
    assert_eq!(
        invoke(&program, &accounts, &data, &mut position),
        Err(Some(HandoffError::InvalidInstructionData))
    );
    assert_eq!(position, before);
}

#[test]
fn foreign_authority_is_refused() {
    let (program, target, validator, stake) = (named(11), named(12), named(13), named(14));
    let stranger = named(15);
    let before = Position { address: stake, staker: stranger, validator: None };
    let accounts = context(&stake, &validator, &stranger);
    let mut position = before.clone();
    assert_eq!(invoke(&program, &accounts, &payload(&target), &mut position), Err(None));
    assert_eq!(position, before);
}

#[test]
fn address_derived_for_another_validator_is_refused() {
    let (program, target, validator, stake) = (named(11), named(12), named(13), named(14));
    let (other, _) =
        Pubkey::find_program_address(&[b"stake", named(16).as_ref(), target.as_ref()], &program);
    let before = Position { address: stake, staker: other, validator: None };
    let accounts = context(&stake, &validator, &other);
    let mut position = before.clone();
    assert_eq!(invoke(&program, &accounts, &payload(&target), &mut position), Err(None));
    assert_eq!(position, before);
}

#[test]
fn second_invocation_fails() {
    let (program, target, validator, stake) = (named(11), named(12), named(13), named(14));
    let (pda, _) =
        Pubkey::find_program_address(&[b"stake", validator.as_ref(), target.as_ref()], &program);
    let mut position = Position { address: stake, staker: pda, validator: None };
    let accounts = context(&stake, &validator, &pda);
    assert_eq!(invoke(&program, &accounts, &payload(&target), &mut position), Ok(()));
    let after = position.clone();
    assert_eq!(invoke(&program, &accounts, &payload(&target), &mut position), Err(None));
    assert_eq!(position, after);
    assert_eq!(position.staker, target);
}

#[test]
fn steps_and_run_agree() {
    let (program, target, validator, stake) = (named(11), named(12), named(13), named(14));
    let (pda, _) =
        Pubkey::find_program_address(&[b"stake", validator.as_ref(), target.as_ref()], &program);
    for staker in [pda, named(15)] {
        let accounts = context(&stake, &validator, &pda);
        let handoff =
            process_instruction(&identity(&program), &accounts, &payload(&target)).unwrap();
        let mut one = Position { address: stake, staker, validator: None };
        let mut other = one.clone();
        assert_eq!(
            run(&handoff, &accounts, &mut one),
            run_by_steps(&handoff, &accounts, &mut other)
        );
        assert_eq!(one, other);
    }
}

#[test]
fn run_issues_delegation_then_reassignment() {
    let accounts: Vec<Identity> = (0..7).map(|i| Identity { bytes: [i as u8; 32] }).collect();
    let handoff =
        process_instruction(&identity(&named(1)), &accounts, &payload(&named(2))).unwrap();
    let seen = RefCell::new(Vec::new());
    let result: Result<(), u32> = handoff.run(|request, capability| {
        assert_eq!(capability, &handoff.capability);
        seen.borrow_mut().push(request.call.data.clone());
        Ok(())
    });
    assert_eq!(result, Ok(()));
    assert_eq!(
        seen.into_inner(),
        vec![handoff.delegate.call.data.clone(), handoff.reassign.call.data.clone()]
    );
}

#[test]
fn run_stops_at_a_failed_delegation() {
    let accounts: Vec<Identity> = (0..7).map(|i| Identity { bytes: [i as u8; 32] }).collect();
    let handoff =
        process_instruction(&identity(&named(1)), &accounts, &payload(&named(2))).unwrap();
    let count = RefCell::new(0u32);
    let result = handoff.run(|_, _| {
        *count.borrow_mut() += 1;
        Err::<(), u32>(17)
    });
    assert_eq!(result, Err(17));
    assert_eq!(count.into_inner(), 1);
}

#[test]
fn run_reports_a_failed_reassignment() {
    let accounts: Vec<Identity> = (0..7).map(|i| Identity { bytes: [i as u8; 32] }).collect();
    let handoff =
        process_instruction(&identity(&named(1)), &accounts, &payload(&named(2))).unwrap();
    let count = RefCell::new(0u32);
    let result = handoff.run(|request, _| {
        *count.borrow_mut() += 1;
        if request == &handoff.reassign { Err::<(), u32>(23) } else { Ok(()) }
    });
    assert_eq!(result, Err(23));
    assert_eq!(count.into_inner(), 2);
}

#[test]
fn failed_reassignment_undoes_the_delegation() {
    let (program, target, validator, stake) = (named(11), named(12), named(13), named(14));
    let (pda, _) =
        Pubkey::find_program_address(&[b"stake", validator.as_ref(), target.as_ref()], &program);
    let before = Position { address: stake, staker: pda, validator: None };
    let accounts = context(&stake, &validator, &pda);
    let mut handoff = process_instruction(&identity(&program), &accounts, &payload(&target)).unwrap();
    handoff.reassign.call.data[0] = 9;
    let mut position = before.clone();
    assert_eq!(run(&handoff, &accounts, &mut position), Err(REFUSED));
    assert_eq!(position, before);
}

#[test]
fn missing_oracle_is_refused() {
    let (program, target, validator, stake) = (named(11), named(12), named(13), named(14));
    let (pda, _) =
        Pubkey::find_program_address(&[b"stake", validator.as_ref(), target.as_ref()], &program);
    let before = Position { address: stake, staker: pda, validator: None };
    let mut accounts = context(&stake, &validator, &pda);
    accounts[2] = identity(&named(77));
    let mut position = before.clone();
    assert_eq!(invoke(&program, &accounts, &payload(&target), &mut position), Err(None));
    assert_eq!(position, before);
}
