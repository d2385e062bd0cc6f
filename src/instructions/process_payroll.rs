use vstd::prelude::*;
use crate::account::{
    and_next, check_mut, check_signer, mut_status, signer_status, status_of, AccountInfo,
};
use crate::error::PayrollError;
use crate::key::Pubkey;
use crate::pda::{
    check_seeds, payroll_batch_seeds, payroll_batch_seeds_of, program_address_of, seeds_outcome,
    seeds_status,
};
use crate::state::employee::Employee;
use crate::state::payroll_batch::PayrollBatch;
use crate::state::work_session::WorkSession;

verus! {

/// Accounts of the process payroll instruction.
pub struct ProcessPayroll {
    /// Signs the instruction; writable.
    pub authority: AccountInfo,
    /// The account of batch `batch_id`; writable.
    pub payroll_batch: AccountInfo,
    /// An employee account; writable.
    pub employee: AccountInfo,
    /// A work session account; writable.
    pub work_session: AccountInfo,
}

/// The process payroll accounts once checked: the records they hold, the bump
/// seeds of their addresses.
pub struct ProcessPayrollContext {
    pub payroll_batch: PayrollBatch,
    pub employee: Employee,
    pub work_session: WorkSession,
    pub payroll_batch_bump: u8,
}

impl ProcessPayroll {
    /// The outcome of the checks on these accounts: the first failure, in the
    /// order the checks are made.
    pub open spec fn status(
        self,
        program_id: Seq<u8>,
        batch_id: u64,
    ) -> Result<(), PayrollError> {
        and_next(
            signer_status(self.authority),
            and_next(
                PayrollBatch::load_status(self.payroll_batch, program_id),
                and_next(
                    Employee::load_status(self.employee, program_id),
                    and_next(
                        WorkSession::load_status(self.work_session, program_id),
                        and_next(
                            mut_status(self.authority),
                            and_next(
                                seeds_status(self.payroll_batch.key@, payroll_batch_seeds(batch_id), program_id),
                                and_next(
                                    mut_status(self.payroll_batch),
                                    and_next(
                                        mut_status(self.employee),
                                        mut_status(self.work_session),
                                    ),
                                ),
                            ),
                        ),
                    ),
                ),
            ),
        )
    }

    /// Checks the accounts and decodes their records.
    pub fn try_accounts(
        &self,
        program_id: &Pubkey,
        batch_id: u64,
    ) -> (r: Result<ProcessPayrollContext, PayrollError>)
        ensures
            status_of(r) == self.status(program_id@, batch_id),
            r matches Ok(c) ==> {
                &&& PayrollBatch::decodes(
                    self.payroll_batch.data@,
                    PayrollBatch::spec_discriminator(),
                    Ok(c.payroll_batch),
                )
                &&& Employee::decodes(
                    self.employee.data@,
                    Employee::spec_discriminator(),
                    Ok(c.employee),
                )
                &&& WorkSession::decodes(
                    self.work_session.data@,
                    WorkSession::spec_discriminator(),
                    Ok(c.work_session),
                )
                &&& seeds_outcome(
                    self.payroll_batch.key@,
                    program_address_of(payroll_batch_seeds(batch_id), program_id@),
                )
                    == Ok::<u8, PayrollError>(c.payroll_batch_bump)
            },
    {
        if let Err(e) = check_signer(&self.authority) {
            return Err(e);
        }
        let payroll_batch = match PayrollBatch::load(&self.payroll_batch, program_id) {
            Ok(v) => v,
            Err(e) => {
                return Err(e);
            },
        };
        let employee = match Employee::load(&self.employee, program_id) {
            Ok(v) => v,
            Err(e) => {
                return Err(e);
            },
        };
        let work_session = match WorkSession::load(&self.work_session, program_id) {
            Ok(v) => v,
            Err(e) => {
                return Err(e);
            },
        };
        if let Err(e) = check_mut(&self.authority) {
            return Err(e);
        }
        let payroll_batch_seeds = payroll_batch_seeds_of(batch_id);
        let payroll_batch_bump = match check_seeds(&self.payroll_batch.key, &payroll_batch_seeds, program_id) {
            Ok(b) => b,
            Err(e) => {
                return Err(e);
            },
        };
        if let Err(e) = check_mut(&self.payroll_batch) {
            return Err(e);
        }
        if let Err(e) = check_mut(&self.employee) {
            return Err(e);
        }
        if let Err(e) = check_mut(&self.work_session) {
            return Err(e);
        }
        Ok(ProcessPayrollContext { payroll_batch, employee, work_session, payroll_batch_bump })
    }
}

/// Processes the payments of a batch. The handler records nothing: once the accounts pass
/// their checks the instruction succeeds and every account keeps its data.
pub fn handler(
    ctx: &ProcessPayrollContext,
    batch_id: u64,
    timestamp: i64,
) -> (r: Result<(), PayrollError>)
    ensures
        r == Ok::<(), PayrollError>(()),
{
    Ok(())
}

} // verus!
