//! Account model and instruction checks of an employee payroll program:
//! employees, their work sessions and payroll batches.
use vstd::prelude::*;

pub mod account;
pub mod codec;
pub mod creation;
pub mod discriminator;
pub mod entrypoint;
pub mod error;
pub mod instruction;
pub mod instructions;
pub mod key;
pub mod pda;
pub mod state;

use crate::account::status_of;
use crate::creation::AccountCreation;
use crate::error::PayrollError;
use crate::instructions::check_in::CheckIn;
use crate::instructions::check_out::CheckOut;
use crate::instructions::create_payroll_batch::CreatePayrollBatch;
use crate::instructions::initialize_employer::InitializeEmployer;
use crate::instructions::mark_session_paid::MarkSessionPaid;
use crate::instructions::process_payroll::ProcessPayroll;
use crate::instructions::register_employee::RegisterEmployee;
use crate::instructions::update_employee::UpdateEmployee;
use crate::key::Pubkey;

verus! {

/// Initializes the employer. Succeeds exactly when the accounts pass their checks, and then
/// gives the account to create.
pub fn initialize_employer(
    program_id: &Pubkey,
    accounts: &InitializeEmployer,
) -> (r: Result<AccountCreation, PayrollError>)
    ensures
        status_of(r) == accounts.status(program_id@),
        r matches Ok(c) ==> accounts.creates(program_id@, c),
{
    let ctx = match accounts.try_accounts(program_id) {
        Ok(c) => c,
        Err(e) => {
            return Err(e);
        },
    };
    match instructions::initialize_employer::handler(&ctx) {
        Ok(()) => Ok(ctx.new_account),
        Err(e) => Err(e),
    }
}

/// Registers an employee. Succeeds exactly when the accounts pass their checks, and then
/// gives the account to create.
pub fn register_employee(
    program_id: &Pubkey,
    accounts: &RegisterEmployee,
    name: &String,
    position: &String,
    hourly_rate: u64,
    employee_wallet: &Pubkey,
) -> (r: Result<AccountCreation, PayrollError>)
    ensures
        status_of(r) == accounts.status(program_id@, employee_wallet@),
        r matches Ok(c) ==> accounts.creates(program_id@, employee_wallet@, c),
{
    let ctx = match accounts.try_accounts(program_id, employee_wallet) {
        Ok(c) => c,
        Err(e) => {
            return Err(e);
        },
    };
    match instructions::register_employee::handler(&ctx, name, position, hourly_rate, employee_wallet) {
        Ok(()) => Ok(ctx.new_account),
        Err(e) => Err(e),
    }
}

/// Updates an employee. Succeeds exactly when the accounts pass their checks.
pub fn update_employee(
    program_id: &Pubkey,
    accounts: &UpdateEmployee,
    name: &String,
    position: &String,
    hourly_rate: u64,
    is_active: bool,
    employee_wallet: &Pubkey,
) -> (r: Result<(), PayrollError>)
    ensures
        r == accounts.status(program_id@, employee_wallet@),
{
    let ctx = match accounts.try_accounts(program_id, employee_wallet) {
        Ok(c) => c,
        Err(e) => {
            return Err(e);
        },
    };
    instructions::update_employee::handler(&ctx, name, position, hourly_rate, is_active, employee_wallet)
}

/// Checks an employee in. Succeeds exactly when the accounts pass their checks, and then
/// gives the account to create.
pub fn check_in(
    program_id: &Pubkey,
    accounts: &CheckIn,
    employee_wallet: &Pubkey,
    session_id: u64,
    timestamp: i64,
) -> (r: Result<AccountCreation, PayrollError>)
    ensures
        status_of(r) == accounts.status(program_id@, employee_wallet@, session_id),
        r matches Ok(c) ==> accounts.creates(program_id@, employee_wallet@, session_id, c),
{
    let ctx = match accounts.try_accounts(program_id, employee_wallet, session_id) {
        Ok(c) => c,
        Err(e) => {
            return Err(e);
        },
    };
    match instructions::check_in::handler(&ctx, employee_wallet, session_id, timestamp) {
        Ok(()) => Ok(ctx.new_account),
        Err(e) => Err(e),
    }
}

/// Checks an employee out. Succeeds exactly when the accounts pass their checks.
pub fn check_out(
    program_id: &Pubkey,
    accounts: &CheckOut,
    employee_wallet: &Pubkey,
    session_id: u64,
    timestamp: i64,
) -> (r: Result<(), PayrollError>)
    ensures
        r == accounts.status(program_id@, employee_wallet@, session_id),
{
    let ctx = match accounts.try_accounts(program_id, employee_wallet, session_id) {
        Ok(c) => c,
        Err(e) => {
            return Err(e);
        },
    };
    instructions::check_out::handler(&ctx, employee_wallet, session_id, timestamp)
}

/// Opens a payroll batch. Succeeds exactly when the accounts pass their checks, and then
/// gives the account to create.
pub fn create_payroll_batch(
    program_id: &Pubkey,
    accounts: &CreatePayrollBatch,
    batch_id: u64,
    timestamp: i64,
) -> (r: Result<AccountCreation, PayrollError>)
    ensures
        status_of(r) == accounts.status(program_id@, batch_id),
        r matches Ok(c) ==> accounts.creates(program_id@, batch_id, c),
{
    let ctx = match accounts.try_accounts(program_id, batch_id) {
        Ok(c) => c,
        Err(e) => {
            return Err(e);
        },
    };
    match instructions::create_payroll_batch::handler(&ctx, batch_id, timestamp) {
        Ok(()) => Ok(ctx.new_account),
        Err(e) => Err(e),
    }
}

/// Processes a payroll batch. Succeeds exactly when the accounts pass their checks.
pub fn process_payroll(
    program_id: &Pubkey,
    accounts: &ProcessPayroll,
    batch_id: u64,
    timestamp: i64,
) -> (r: Result<(), PayrollError>)
    ensures
        r == accounts.status(program_id@, batch_id),
{
    let ctx = match accounts.try_accounts(program_id, batch_id) {
        Ok(c) => c,
        Err(e) => {
            return Err(e);
        },
    };
    instructions::process_payroll::handler(&ctx, batch_id, timestamp)
}

/// Marks a work session paid. Succeeds exactly when the accounts pass their checks.
pub fn mark_session_paid(
    program_id: &Pubkey,
    accounts: &MarkSessionPaid,
    employee_wallet: &Pubkey,
    session_id: u64,
) -> (r: Result<(), PayrollError>)
    ensures
        r == accounts.status(program_id@, employee_wallet@, session_id),
{
    let ctx = match accounts.try_accounts(program_id, employee_wallet, session_id) {
        Ok(c) => c,
        Err(e) => {
            return Err(e);
        },
    };
    instructions::mark_session_paid::handler(&ctx, employee_wallet, session_id)
}

} // verus!
