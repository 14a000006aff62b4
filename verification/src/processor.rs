//! The instruction processor: one function for each operation, and the
//! dispatcher that routes a payload to it.

use crate::account::AccountInfo;
use crate::error::ProgramError;
use crate::instruction::MarketInstructions;
use crate::processor::buy_sell::{process_buy_sell, spec_process_buy_sell, OperationType};
use crate::processor::initialize_store::{process_initialize_store, spec_process_initialize_store};
use crate::processor::update_price::{process_update_price, spec_process_update_price};
use crate::pubkey::Pubkey;
use crate::request::{plan_view, Plan, PlanView};
use vstd::prelude::*;

pub mod buy_sell;
pub mod initialize_store;
pub mod update_price;

verus! {

/// What an instruction comes to: a payload that is none of the four
/// operations fails as unreadable, and else the operation decides. A trade
/// keeps no record, and a change of prices asks nothing of a ledger.
pub open spec fn spec_process_instruction(
    accounts: Seq<AccountInfo>,
    instruction_data: Seq<u8>,
) -> Result<PlanView, ProgramError> {
    match MarketInstructions::spec_try_from_slice(instruction_data) {
        None => Err(ProgramError::BorshIoError),
        Some(MarketInstructions::InitializeStore(args)) => spec_process_initialize_store(
            accounts,
            args,
        ),
        Some(MarketInstructions::UpdatePrice(args)) => match spec_process_update_price(
            accounts,
            args,
        ) {
            Ok(store) => Ok(PlanView { invocations: seq![], store: Some(store) }),
            Err(error) => Err(error),
        },
        Some(MarketInstructions::Buy(args)) => match spec_process_buy_sell(
            accounts,
            args,
            OperationType::Buy,
        ) {
            Ok(invocations) => Ok(PlanView { invocations, store: None }),
            Err(error) => Err(error),
        },
        Some(MarketInstructions::Sell(args)) => match spec_process_buy_sell(
            accounts,
            args,
            OperationType::Sell,
        ) {
            Ok(invocations) => Ok(PlanView { invocations, store: None }),
            Err(error) => Err(error),
        },
    }
}

/// Reads the payload and hands the accounts to the operation it names. What
/// comes back is all that the host is to apply, in its order.
pub fn process_instruction(
    _program_id: &Pubkey,
    accounts: &[AccountInfo],
    instruction_data: &[u8],
) -> (outcome: Result<Plan, ProgramError>)
    ensures
        plan_view(outcome) == spec_process_instruction(accounts@, instruction_data@),
{
    let instruction = match MarketInstructions::try_from_slice(instruction_data) {
        Some(read) => read,
        None => return Err(ProgramError::BorshIoError),
    };
    match instruction {
        MarketInstructions::InitializeStore(args) => process_initialize_store(accounts, args),
        MarketInstructions::UpdatePrice(args) => match process_update_price(accounts, args) {
            Ok(store) => Ok(Plan { invocations: Vec::new(), store: Some(store) }),
            Err(error) => Err(error),
        },
        MarketInstructions::Buy(args) => match process_buy_sell(
            accounts,
            args,
            OperationType::Buy,
        ) {
            Ok(invocations) => Ok(Plan { invocations, store: None }),
            Err(error) => Err(error),
        },
        MarketInstructions::Sell(args) => match process_buy_sell(
            accounts,
            args,
            OperationType::Sell,
        ) {
            Ok(invocations) => Ok(Plan { invocations, store: None }),
            Err(error) => Err(error),
        },
    }
}

} // verus!
