use vstd::prelude::*;
use crate::account::{
    and_next, check_init, check_signer, check_system_program, init_status, signer_status, status_of,
    system_program_status, AccountInfo,
};
use crate::creation::{padded, push_bump, with_bump, ok_value, AccountCreation};
use crate::error::PayrollError;
use crate::key::Pubkey;
use crate::pda::{
    check_seeds, employee_seeds, employee_seeds_of, program_address_of, seeds_outcome, seeds_status,
    seeds_view, work_session_seeds, work_session_seeds_of,
};
use crate::state::employee::Employee;
use crate::state::work_session::{WORK_SESSION_SPACE, WorkSession};

verus! {

/// Accounts of the check in instruction.
pub struct CheckIn {
    /// Signs the instruction and pays for the new account.
    pub authority: AccountInfo,
    /// The employee account of `employee_wallet`.
    pub employee: AccountInfo,
    /// The new account of work session `session_id` of `employee_wallet`.
    pub work_session: AccountInfo,
    /// The system program.
    pub system_program: AccountInfo,
}

/// The check in accounts once checked: the records they hold, the bump
/// seeds of their addresses, and the account to create.
pub struct CheckInContext {
    pub employee: Employee,
    pub work_session_bump: u8,
    pub employee_bump: u8,
    pub new_account: AccountCreation,
}

impl CheckIn {
    /// The outcome of the checks on these accounts: the first failure, in the
    /// order the checks are made.
    pub open spec fn status(
        self,
        program_id: Seq<u8>,
        employee_wallet: Seq<u8>,
        session_id: u64,
    ) -> Result<(), PayrollError> {
        and_next(
            signer_status(self.authority),
            and_next(
                Employee::load_status(self.employee, program_id),
                and_next(
                    system_program_status(self.system_program),
                    and_next(
                        seeds_status(self.work_session.key@, work_session_seeds(employee_wallet, session_id), program_id),
                        and_next(
                            init_status(self.work_session, self.authority),
                            seeds_status(self.employee.key@, employee_seeds(employee_wallet), program_id),
                        ),
                    ),
                ),
            ),
        )
    }

    /// The account that the instruction creates at `work_session`, once its checks pass.
    pub open spec fn creates(
        self,
        program_id: Seq<u8>,
        employee_wallet: Seq<u8>,
        session_id: u64,
        c: AccountCreation,
    ) -> bool {
        &&& c.address == self.work_session.key
        &&& c.payer == self.authority.key
        &&& c.owner@ == program_id
        &&& c.data@.len() == c.space
        &&& c.space == WORK_SESSION_SPACE
        &&& seeds_view(c.signer_seeds@) == with_bump(
            work_session_seeds(employee_wallet, session_id),
            ok_value(seeds_outcome(self.work_session.key@, program_address_of(work_session_seeds(employee_wallet, session_id), program_id))),
        )
        &&& c.data@ == padded(WorkSession::spec_discriminator() + WorkSession::zeroed_body(), WORK_SESSION_SPACE as int)
    }

    /// Checks the accounts and decodes their records.
    pub fn try_accounts(
        &self,
        program_id: &Pubkey,
        employee_wallet: &Pubkey,
        session_id: u64,
    ) -> (r: Result<CheckInContext, PayrollError>)
        ensures
            status_of(r) == self.status(program_id@, employee_wallet@, session_id),
            r matches Ok(c) ==> {
                &&& Employee::decodes(
                    self.employee.data@,
                    Employee::spec_discriminator(),
                    Ok(c.employee),
                )
                &&& self.creates(program_id@, employee_wallet@, session_id, c.new_account)
                &&& seeds_outcome(
                    self.work_session.key@,
                    program_address_of(work_session_seeds(employee_wallet@, session_id), program_id@),
                )
                    == Ok::<u8, PayrollError>(c.work_session_bump)
                &&& seeds_outcome(
                    self.employee.key@,
                    program_address_of(employee_seeds(employee_wallet@), program_id@),
                )
                    == Ok::<u8, PayrollError>(c.employee_bump)
            },
    {
        if let Err(e) = check_signer(&self.authority) {
            return Err(e);
        }
        let employee = match Employee::load(&self.employee, program_id) {
            Ok(v) => v,
            Err(e) => {
                return Err(e);
            },
        };
        if let Err(e) = check_system_program(&self.system_program) {
            return Err(e);
        }
        let work_session_seeds = work_session_seeds_of(employee_wallet, session_id);
        let work_session_bump = match check_seeds(&self.work_session.key, &work_session_seeds, program_id) {
            Ok(b) => b,
            Err(e) => {
                return Err(e);
            },
        };
        if let Err(e) = check_init(&self.work_session, &self.authority) {
            return Err(e);
        }
        let new_account = AccountCreation {
            address: self.work_session.key.clone(),
            payer: self.authority.key.clone(),
            owner: program_id.clone(),
            space: WORK_SESSION_SPACE,
            signer_seeds: push_bump(work_session_seeds, work_session_bump),
            data: WorkSession::new_account_data(),
        };
        let employee_seeds = employee_seeds_of(employee_wallet);
        let employee_bump = match check_seeds(&self.employee.key, &employee_seeds, program_id) {
            Ok(b) => b,
            Err(e) => {
                return Err(e);
            },
        };
        Ok(CheckInContext { employee, work_session_bump, employee_bump, new_account })
    }
}

/// Starts a work session. The handler records nothing: once the accounts pass
/// their checks the instruction succeeds, the new account holds what its
/// creation writes, and every other account keeps its data.
pub fn handler(
    ctx: &CheckInContext,
    employee_wallet: &Pubkey,
    session_id: u64,
    timestamp: i64,
) -> (r: Result<(), PayrollError>)
    ensures
        r == Ok::<(), PayrollError>(()),
{
    Ok(())
}

} // verus!
