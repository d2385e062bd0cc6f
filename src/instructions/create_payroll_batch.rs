use vstd::prelude::*;
use crate::account::{
    and_next, check_init, check_signer, check_system_program, init_status, signer_status, status_of,
    system_program_status, AccountInfo,
};
use crate::creation::{padded, push_bump, with_bump, ok_value, AccountCreation};
use crate::error::PayrollError;
use crate::key::Pubkey;
use crate::pda::{
    check_seeds, payroll_batch_seeds, payroll_batch_seeds_of, program_address_of, seeds_outcome,
    seeds_status, seeds_view,
};
use crate::state::payroll_batch::{PAYROLL_BATCH_SPACE, PayrollBatch};

verus! {

/// Accounts of the create payroll batch instruction.
pub struct CreatePayrollBatch {
    /// Signs the instruction and pays for the new account.
    pub authority: AccountInfo,
    /// The new account of batch `batch_id`.
    pub payroll_batch: AccountInfo,
    /// The system program.
    pub system_program: AccountInfo,
}

/// The create payroll batch accounts once checked: the records they hold, the bump
/// seeds of their addresses, and the account to create.
pub struct CreatePayrollBatchContext {
    pub payroll_batch_bump: u8,
    pub new_account: AccountCreation,
}

impl CreatePayrollBatch {
    /// The outcome of the checks on these accounts: the first failure, in the
    /// order the checks are made.
    pub open spec fn status(
        self,
        program_id: Seq<u8>,
        batch_id: u64,
    ) -> Result<(), PayrollError> {
        and_next(
            signer_status(self.authority),
            and_next(
                system_program_status(self.system_program),
                and_next(
                    seeds_status(self.payroll_batch.key@, payroll_batch_seeds(batch_id), program_id),
                    init_status(self.payroll_batch, self.authority),
                ),
            ),
        )
    }

    /// The account that the instruction creates at `payroll_batch`, once its checks pass.
    pub open spec fn creates(
        self,
        program_id: Seq<u8>,
        batch_id: u64,
        c: AccountCreation,
    ) -> bool {
        &&& c.address == self.payroll_batch.key
        &&& c.payer == self.authority.key
        &&& c.owner@ == program_id
        &&& c.data@.len() == c.space
        &&& c.space == PAYROLL_BATCH_SPACE
        &&& seeds_view(c.signer_seeds@) == with_bump(
            payroll_batch_seeds(batch_id),
            ok_value(seeds_outcome(self.payroll_batch.key@, program_address_of(payroll_batch_seeds(batch_id), program_id))),
        )
        &&& c.data@ == padded(PayrollBatch::spec_discriminator() + PayrollBatch::zeroed_body(), PAYROLL_BATCH_SPACE as int)
    }

    /// Checks the accounts.
    pub fn try_accounts(
        &self,
        program_id: &Pubkey,
        batch_id: u64,
    ) -> (r: Result<CreatePayrollBatchContext, PayrollError>)
        ensures
            status_of(r) == self.status(program_id@, batch_id),
            r matches Ok(c) ==> {
                &&& self.creates(program_id@, batch_id, c.new_account)
                &&& seeds_outcome(
                    self.payroll_batch.key@,
                    program_address_of(payroll_batch_seeds(batch_id), program_id@),
                )
                    == Ok::<u8, PayrollError>(c.payroll_batch_bump)
            },
    {
        if let Err(e) = check_signer(&self.authority) {
            return Err(e);
        }
        if let Err(e) = check_system_program(&self.system_program) {
            return Err(e);
        }
        let payroll_batch_seeds = payroll_batch_seeds_of(batch_id);
        let payroll_batch_bump = match check_seeds(&self.payroll_batch.key, &payroll_batch_seeds, program_id) {
            Ok(b) => b,
            Err(e) => {
                return Err(e);
            },
        };
        if let Err(e) = check_init(&self.payroll_batch, &self.authority) {
            return Err(e);
        }
        let new_account = AccountCreation {
            address: self.payroll_batch.key.clone(),
            payer: self.authority.key.clone(),
            owner: program_id.clone(),
            space: PAYROLL_BATCH_SPACE,
            signer_seeds: push_bump(payroll_batch_seeds, payroll_batch_bump),
            data: PayrollBatch::new_account_data(),
        };
        Ok(CreatePayrollBatchContext { payroll_batch_bump, new_account })
    }
}

/// Creates a new payroll batch. The handler records nothing: once the accounts pass
/// their checks the instruction succeeds, the new account holds what its
/// creation writes, and every other account keeps its data.
pub fn handler(
    ctx: &CreatePayrollBatchContext,
    batch_id: u64,
    timestamp: i64,
) -> (r: Result<(), PayrollError>)
    ensures
        r == Ok::<(), PayrollError>(()),
{
    Ok(())
}

} // verus!
