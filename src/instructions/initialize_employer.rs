use vstd::prelude::*;
use crate::account::{
    and_next, check_init, check_signer, check_signer_constraint, check_system_program, init_status,
    signer_constraint_status, signer_status, status_of, system_program_status, AccountInfo,
};
use crate::creation::{pad_to, padded, AccountCreation};
use crate::error::PayrollError;
use crate::key::Pubkey;

verus! {

/// Bytes allocated to the employer account.
pub const EMPLOYER_SPACE: usize = 8;

/// Accounts of the initialize employer instruction.
pub struct InitializeEmployer {
    /// Signs the instruction and pays for the new account.
    pub authority: AccountInfo,
    /// The new employer account; signs its own creation.
    pub employer: AccountInfo,
    /// The system program.
    pub system_program: AccountInfo,
}

/// The initialize employer accounts once checked: the account to create.
pub struct InitializeEmployerContext {
    pub new_account: AccountCreation,
}

impl InitializeEmployer {
    /// The outcome of the checks on these accounts: the first failure, in the
    /// order the checks are made.
    pub open spec fn status(
        self,
        program_id: Seq<u8>,
    ) -> Result<(), PayrollError> {
        and_next(
            signer_status(self.authority),
            and_next(
                system_program_status(self.system_program),
                and_next(
                    init_status(self.employer, self.authority),
                    signer_constraint_status(self.employer),
                ),
            ),
        )
    }

    /// The account that the instruction creates at `employer`, once its checks pass.
    pub open spec fn creates(
        self,
        program_id: Seq<u8>,
        c: AccountCreation,
    ) -> bool {
        &&& c.address == self.employer.key
        &&& c.payer == self.authority.key
        &&& c.owner@ == program_id
        &&& c.data@.len() == c.space
        &&& c.space == EMPLOYER_SPACE
        &&& c.signer_seeds@.len() == 0
        &&& c.data@ == padded(Seq::empty(), EMPLOYER_SPACE as int)
    }

    /// Checks the accounts.
    pub fn try_accounts(
        &self,
        program_id: &Pubkey,
    ) -> (r: Result<InitializeEmployerContext, PayrollError>)
        ensures
            status_of(r) == self.status(program_id@),
            r matches Ok(c) ==> {
                &&& self.creates(program_id@, c.new_account)
            },
    {
        if let Err(e) = check_signer(&self.authority) {
            return Err(e);
        }
        if let Err(e) = check_system_program(&self.system_program) {
            return Err(e);
        }
        if let Err(e) = check_init(&self.employer, &self.authority) {
            return Err(e);
        }
        let new_account = AccountCreation {
            address: self.employer.key.clone(),
            payer: self.authority.key.clone(),
            owner: program_id.clone(),
            space: EMPLOYER_SPACE,
            signer_seeds: Vec::new(),
            data: pad_to(Vec::new(), EMPLOYER_SPACE),
        };
        if let Err(e) = check_signer_constraint(&self.employer) {
            return Err(e);
        }
        Ok(InitializeEmployerContext { new_account })
    }
}

/// Sets up the employer. The handler records nothing: once the accounts pass
/// their checks the instruction succeeds, the new account holds what its
/// creation writes, and every other account keeps its data.
pub fn handler(
    ctx: &InitializeEmployerContext,
) -> (r: Result<(), PayrollError>)
    ensures
        r == Ok::<(), PayrollError>(()),
{
    Ok(())
}

} // verus!
