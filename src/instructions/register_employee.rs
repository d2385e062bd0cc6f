use vstd::prelude::*;
use crate::account::{
    and_next, check_init, check_signer, check_system_program, init_status, signer_status, status_of,
    system_program_status, AccountInfo,
};
use crate::creation::{padded, push_bump, with_bump, ok_value, AccountCreation};
use crate::error::PayrollError;
use crate::key::Pubkey;
use crate::pda::{
    check_seeds, employee_seeds, employee_seeds_of, program_address_of, seeds_outcome, seeds_status,
    seeds_view,
};
use crate::state::employee::{EMPLOYEE_SPACE, employee_body, Employee};

verus! {

/// Accounts of the register employee instruction.
pub struct RegisterEmployee {
    /// Signs the instruction and pays for the new account.
    pub authority: AccountInfo,
    /// The new employee account of `employee_wallet`.
    pub employee: AccountInfo,
    /// The system program.
    pub system_program: AccountInfo,
}

/// The register employee accounts once checked: the records they hold, the bump
/// seeds of their addresses, and the account to create.
pub struct RegisterEmployeeContext {
    pub employee_bump: u8,
    pub new_account: AccountCreation,
}

impl RegisterEmployee {
    /// The outcome of the checks on these accounts: the first failure, in the
    /// order the checks are made.
    pub open spec fn status(
        self,
        program_id: Seq<u8>,
        employee_wallet: Seq<u8>,
    ) -> Result<(), PayrollError> {
        and_next(
            signer_status(self.authority),
            and_next(
                system_program_status(self.system_program),
                and_next(
                    seeds_status(self.employee.key@, employee_seeds(employee_wallet), program_id),
                    init_status(self.employee, self.authority),
                ),
            ),
        )
    }

    /// The account that the instruction creates at `employee`, once its checks pass.
    pub open spec fn creates(
        self,
        program_id: Seq<u8>,
        employee_wallet: Seq<u8>,
        c: AccountCreation,
    ) -> bool {
        &&& c.address == self.employee.key
        &&& c.payer == self.authority.key
        &&& c.owner@ == program_id
        &&& c.data@.len() == c.space
        &&& c.space == EMPLOYEE_SPACE
        &&& seeds_view(c.signer_seeds@) == with_bump(
            employee_seeds(employee_wallet),
            ok_value(seeds_outcome(self.employee.key@, program_address_of(employee_seeds(employee_wallet), program_id))),
        )
        &&& c.data@ == padded(Employee::spec_discriminator() + employee_body(Employee::zeroed_view()), EMPLOYEE_SPACE as int)
    }

    /// Checks the accounts.
    pub fn try_accounts(
        &self,
        program_id: &Pubkey,
        employee_wallet: &Pubkey,
    ) -> (r: Result<RegisterEmployeeContext, PayrollError>)
        ensures
            status_of(r) == self.status(program_id@, employee_wallet@),
            r matches Ok(c) ==> {
                &&& self.creates(program_id@, employee_wallet@, c.new_account)
                &&& seeds_outcome(
                    self.employee.key@,
                    program_address_of(employee_seeds(employee_wallet@), program_id@),
                )
                    == Ok::<u8, PayrollError>(c.employee_bump)
            },
    {
        if let Err(e) = check_signer(&self.authority) {
            return Err(e);
        }
        if let Err(e) = check_system_program(&self.system_program) {
            return Err(e);
        }
        let employee_seeds = employee_seeds_of(employee_wallet);
        let employee_bump = match check_seeds(&self.employee.key, &employee_seeds, program_id) {
            Ok(b) => b,
            Err(e) => {
                return Err(e);
            },
        };
        if let Err(e) = check_init(&self.employee, &self.authority) {
            return Err(e);
        }
        let new_account = AccountCreation {
            address: self.employee.key.clone(),
            payer: self.authority.key.clone(),
            owner: program_id.clone(),
            space: EMPLOYEE_SPACE,
            signer_seeds: push_bump(employee_seeds, employee_bump),
            data: Employee::new_account_data(),
        };
        Ok(RegisterEmployeeContext { employee_bump, new_account })
    }
}

/// Registers a new employee. The handler records nothing: once the accounts pass
/// their checks the instruction succeeds, the new account holds what its
/// creation writes, and every other account keeps its data.
pub fn handler(
    ctx: &RegisterEmployeeContext,
    name: &String,
    position: &String,
    hourly_rate: u64,
    employee_wallet: &Pubkey,
) -> (r: Result<(), PayrollError>)
    ensures
        r == Ok::<(), PayrollError>(()),
{
    Ok(())
}

} // verus!
