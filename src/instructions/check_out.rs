use vstd::prelude::*;
use crate::account::{
    and_next, check_mut, check_signer, mut_status, signer_status, status_of, AccountInfo,
};
use crate::error::PayrollError;
use crate::key::Pubkey;
use crate::pda::{
    check_seeds, employee_seeds, employee_seeds_of, program_address_of, seeds_outcome, seeds_status,
    work_session_seeds, work_session_seeds_of,
};
use crate::state::employee::Employee;
use crate::state::work_session::WorkSession;

verus! {

/// Accounts of the check out instruction.
pub struct CheckOut {
    /// Signs the instruction.
    pub authority: AccountInfo,
    /// The employee account of `employee_wallet`; writable.
    pub employee: AccountInfo,
    /// The account of work session `session_id` of `employee_wallet`; writable.
    pub work_session: AccountInfo,
}

/// The check out accounts once checked: the records they hold, the bump
/// seeds of their addresses.
pub struct CheckOutContext {
    pub employee: Employee,
    pub work_session: WorkSession,
    pub employee_bump: u8,
    pub work_session_bump: u8,
}

impl CheckOut {
    /// The outcome of the checks on these accounts: the first failure, in the
    /// order the checks are made.
    pub open spec fn status(
        self,
        program_id: Seq<u8>,
        employee_wallet: Seq<u8>,
        session_id: u64,
    ) -> Result<(), PayrollError> {
        and_next(
            signer_status(self.authority),
            and_next(
                Employee::load_status(self.employee, program_id),
                and_next(
                    WorkSession::load_status(self.work_session, program_id),
                    and_next(
                        seeds_status(self.employee.key@, employee_seeds(employee_wallet), program_id),
                        and_next(
                            mut_status(self.employee),
                            and_next(
                                seeds_status(self.work_session.key@, work_session_seeds(employee_wallet, session_id), program_id),
                                mut_status(self.work_session),
                            ),
                        ),
                    ),
                ),
            ),
        )
    }

    /// Checks the accounts and decodes their records.
    pub fn try_accounts(
        &self,
        program_id: &Pubkey,
        employee_wallet: &Pubkey,
        session_id: u64,
    ) -> (r: Result<CheckOutContext, PayrollError>)
        ensures
            status_of(r) == self.status(program_id@, employee_wallet@, session_id),
            r matches Ok(c) ==> {
                &&& Employee::decodes(
                    self.employee.data@,
                    Employee::spec_discriminator(),
                    Ok(c.employee),
                )
                &&& WorkSession::decodes(
                    self.work_session.data@,
                    WorkSession::spec_discriminator(),
                    Ok(c.work_session),
                )
                &&& seeds_outcome(
                    self.employee.key@,
                    program_address_of(employee_seeds(employee_wallet@), program_id@),
                )
                    == Ok::<u8, PayrollError>(c.employee_bump)
                &&& seeds_outcome(
                    self.work_session.key@,
                    program_address_of(work_session_seeds(employee_wallet@, session_id), program_id@),
                )
                    == Ok::<u8, PayrollError>(c.work_session_bump)
            },
    {
        if let Err(e) = check_signer(&self.authority) {
            return Err(e);
        }
        let employee = match Employee::load(&self.employee, program_id) {
            Ok(v) => v,
            Err(e) => {
                return Err(e);
            },
        };
        let work_session = match WorkSession::load(&self.work_session, program_id) {
            Ok(v) => v,
            Err(e) => {
                return Err(e);
            },
        };
        let employee_seeds = employee_seeds_of(employee_wallet);
        let employee_bump = match check_seeds(&self.employee.key, &employee_seeds, program_id) {
            Ok(b) => b,
            Err(e) => {
                return Err(e);
            },
        };
        if let Err(e) = check_mut(&self.employee) {
            return Err(e);
        }
        let work_session_seeds = work_session_seeds_of(employee_wallet, session_id);
        let work_session_bump = match check_seeds(&self.work_session.key, &work_session_seeds, program_id) {
            Ok(b) => b,
            Err(e) => {
                return Err(e);
            },
        };
        if let Err(e) = check_mut(&self.work_session) {
            return Err(e);
        }
        Ok(CheckOutContext { employee, work_session, employee_bump, work_session_bump })
    }
}

/// Ends a work session. The handler records nothing: once the accounts pass
/// their checks the instruction succeeds and every account keeps its data.
pub fn handler(
    ctx: &CheckOutContext,
    employee_wallet: &Pubkey,
    session_id: u64,
    timestamp: i64,
) -> (r: Result<(), PayrollError>)
    ensures
        r == Ok::<(), PayrollError>(()),
{
    Ok(())
}

} // verus!
