use vstd::prelude::*;
use crate::account::{
    and_next, check_mut, check_signer, mut_status, signer_status, status_of, AccountInfo,
};
use crate::error::PayrollError;
use crate::key::Pubkey;
use crate::pda::{
    check_seeds, employee_seeds, employee_seeds_of, program_address_of, seeds_outcome, seeds_status,
};
use crate::state::employee::Employee;

verus! {

/// Accounts of the update employee instruction.
pub struct UpdateEmployee {
    /// Signs the instruction.
    pub authority: AccountInfo,
    /// The employee account of `employee_wallet`; writable.
    pub employee: AccountInfo,
}

/// The update employee accounts once checked: the records they hold, the bump
/// seeds of their addresses.
pub struct UpdateEmployeeContext {
    pub employee: Employee,
    pub employee_bump: u8,
}

impl UpdateEmployee {
    /// The outcome of the checks on these accounts: the first failure, in the
    /// order the checks are made.
    pub open spec fn status(
        self,
        program_id: Seq<u8>,
        employee_wallet: Seq<u8>,
    ) -> Result<(), PayrollError> {
        and_next(
            signer_status(self.authority),
            and_next(
                Employee::load_status(self.employee, program_id),
                and_next(
                    seeds_status(self.employee.key@, employee_seeds(employee_wallet), program_id),
                    mut_status(self.employee),
                ),
            ),
        )
    }

    /// Checks the accounts and decodes their records.
    pub fn try_accounts(
        &self,
        program_id: &Pubkey,
        employee_wallet: &Pubkey,
    ) -> (r: Result<UpdateEmployeeContext, PayrollError>)
        ensures
            status_of(r) == self.status(program_id@, employee_wallet@),
            r matches Ok(c) ==> {
                &&& Employee::decodes(
                    self.employee.data@,
                    Employee::spec_discriminator(),
                    Ok(c.employee),
                )
                &&& seeds_outcome(
                    self.employee.key@,
                    program_address_of(employee_seeds(employee_wallet@), program_id@),
                )
                    == Ok::<u8, PayrollError>(c.employee_bump)
            },
    {
        if let Err(e) = check_signer(&self.authority) {
            return Err(e);
        }
        let employee = match Employee::load(&self.employee, program_id) {
            Ok(v) => v,
            Err(e) => {
                return Err(e);
            },
        };
        let employee_seeds = employee_seeds_of(employee_wallet);
        let employee_bump = match check_seeds(&self.employee.key, &employee_seeds, program_id) {
            Ok(b) => b,
            Err(e) => {
                return Err(e);
            },
        };
        if let Err(e) = check_mut(&self.employee) {
            return Err(e);
        }
        Ok(UpdateEmployeeContext { employee, employee_bump })
    }
}

/// Updates the information of an employee. The handler records nothing: once the accounts pass
/// their checks the instruction succeeds and every account keeps its data.
pub fn handler(
    ctx: &UpdateEmployeeContext,
    name: &String,
    position: &String,
    hourly_rate: u64,
    is_active: bool,
    employee_wallet: &Pubkey,
) -> (r: Result<(), PayrollError>)
    ensures
        r == Ok::<(), PayrollError>(()),
{
    Ok(())
}

} // verus!
