use mato_onchain_sdk::cpi::{Plan, TokenInstruction};
use mato_onchain_sdk::error::{HandlerError, SdkError};
use mato_onchain_sdk::execution::{commit, Ending};
use mato_onchain_sdk::pubkey::Pubkey;

fn key(b: u8) -> Pubkey {
    Pubkey::new_from_array([b; 32])
}

fn transfer(amount: u64) -> TokenInstruction {
    TokenInstruction::Transfer { from: key(1), to: key(2), authority: key(3), amount, signer: None }
}

fn three_calls() -> Plan {
    Plan::accepted(vec![transfer(1), transfer(2), transfer(3)])
}

/// Runs the plan, each call giving the outcome listed for it; returns the
/// calls made and the ending.
fn drive(plan: &Plan, given: &[Result<(), &'static str>]) -> (Vec<TokenInstruction>, Ending) {
    let mut outcomes: Vec<Result<(), &'static str>> = Vec::new();
    let mut made = Vec::new();
    while let Some(call) = plan.next_call(&outcomes) {
        made.push(call);
        outcomes.push(given[outcomes.len()]);
    }
    (made, plan.settle(&outcomes))
}

#[test]
fn all_calls_succeed() {
    let plan = three_calls();
    let (made, ending) = drive(&plan, &[Ok(()), Ok(()), Ok(())]);
    assert_eq!(made, vec![transfer(1), transfer(2), transfer(3)]);
    assert_eq!(ending, Ending::Succeeded);
}

#[test]
fn first_call_fails_stops_everything() {
    let plan = three_calls();
    let (made, ending) = drive(&plan, &[Err("no funds"), Ok(()), Ok(())]);
    assert_eq!(made, vec![transfer(1)]);
    assert_eq!(ending, Ending::CallFailed(0));
}

#[test]
fn second_call_fails_stops_the_third() {
    let plan = three_calls();
    let (made, ending) = drive(&plan, &[Ok(()), Err("frozen"), Ok(())]);
    assert_eq!(made, vec![transfer(1), transfer(2)]);
    assert_eq!(ending, Ending::CallFailed(1));
}

#[test]
fn refused_plan_makes_no_call() {
    let plan = Plan::refused(HandlerError::Sdk(SdkError::NotEnoughFunds));
    let (made, ending) = drive(&plan, &[]);
    assert!(made.is_empty());
    assert_eq!(ending, Ending::Refused(HandlerError::Sdk(SdkError::NotEnoughFunds)));
}

#[test]
fn calls_then_refusal() {
    let plan = Plan { calls: vec![transfer(9)], result: Err(HandlerError::Sdk(SdkError::ObjectIdTooLong)) };
    let (made, ending) = drive(&plan, &[Ok(())]);
    assert_eq!(made, vec![transfer(9)]);
    assert_eq!(ending, Ending::Refused(HandlerError::Sdk(SdkError::ObjectIdTooLong)));
    let (_, ending) = drive(&plan, &[Err("mint exists")]);
    assert_eq!(ending, Ending::CallFailed(0));
}

#[test]
fn commit_keeps_new_record_only_on_success() {
    assert_eq!(commit(1u64, 2u64, Ending::Succeeded), 2);
    assert_eq!(commit(1u64, 2u64, Ending::CallFailed(0)), 1);
    assert_eq!(commit(1u64, 2u64, Ending::Refused(HandlerError::Deprecated)), 1);
}
