//! Accounts as an instruction receives them, and the checks made on them
//! before the instruction runs.
use vstd::prelude::*;
use vstd::slice::slice_subrange;
use crate::codec::{append_bytes, bytes_equal};
use crate::key::Pubkey;
use crate::discriminator::DISCRIMINATOR_LEN;
use crate::error::PayrollError;

verus! {

/// The outcome of checking the first 8 bytes of `data` against `disc`.
pub open spec fn discriminator_check(data: Seq<u8>, disc: Seq<u8>) -> Result<(), PayrollError> {
    if data.len() < 8 {
        Err(PayrollError::AccountDiscriminatorNotFound)
    } else if data.subrange(0, 8) != disc {
        Err(PayrollError::AccountDiscriminatorMismatch)
    } else {
        Ok(())
    }
}

/// Checks that `data` starts with the discriminator `disc`.
pub fn check_discriminator(data: &[u8], disc: &[u8]) -> (r: Result<(), PayrollError>)
    requires
        disc@.len() == 8,
    ensures
        r == discriminator_check(data@, disc@),
{
    if data.len() < DISCRIMINATOR_LEN {
        return Err(PayrollError::AccountDiscriminatorNotFound);
    }
    if !bytes_equal(slice_subrange(data, 0, DISCRIMINATOR_LEN), disc) {
        return Err(PayrollError::AccountDiscriminatorMismatch);
    }
    Ok(())
}

/// An account passed to an instruction.
pub struct AccountInfo {
    pub key: Pubkey,
    pub owner: Pubkey,
    pub lamports: u64,
    pub data: Vec<u8>,
    pub is_signer: bool,
    pub is_writable: bool,
    pub executable: bool,
}

impl AccountInfo {
    /// A copy of the account.
    pub fn duplicate(&self) -> (r: AccountInfo)
        ensures
            r.key == self.key,
            r.owner == self.owner,
            r.lamports == self.lamports,
            r.data@ == self.data@,
            r.is_signer == self.is_signer,
            r.is_writable == self.is_writable,
            r.executable == self.executable,
    {
        let mut data: Vec<u8> = Vec::new();
        append_bytes(&mut data, self.data.as_slice());
        assert(data@ =~= self.data@);
        AccountInfo {
            key: self.key.clone(),
            owner: self.owner.clone(),
            lamports: self.lamports,
            data,
            is_signer: self.is_signer,
            is_writable: self.is_writable,
            executable: self.executable,
        }
    }
}

/// The system program's address: 32 zero bytes.
pub open spec fn system_program_id() -> Seq<u8> {
    Seq::new(32, |_i: int| 0u8)
}

/// The first failure of two checks made in turn.
pub open spec fn and_next(a: Result<(), PayrollError>, b: Result<(), PayrollError>) -> Result<(), PayrollError> {
    match a {
        Err(e) => Err(e),
        Ok(_) => b,
    }
}

/// The outcome of a check that also gives a value, without the value.
pub open spec fn status_of<T>(r: Result<T, PayrollError>) -> Result<(), PayrollError> {
    match r {
        Ok(_) => Ok(()),
        Err(e) => Err(e),
    }
}

/// A signer account must have signed.
pub open spec fn signer_status(a: AccountInfo) -> Result<(), PayrollError> {
    if a.is_signer {
        Ok(())
    } else {
        Err(PayrollError::AccountNotSigner)
    }
}

/// The `signer` constraint on an account.
pub open spec fn signer_constraint_status(a: AccountInfo) -> Result<(), PayrollError> {
    if a.is_signer {
        Ok(())
    } else {
        Err(PayrollError::ConstraintSigner)
    }
}

/// The `mut` constraint on an account.
pub open spec fn mut_status(a: AccountInfo) -> Result<(), PayrollError> {
    if a.is_writable {
        Ok(())
    } else {
        Err(PayrollError::ConstraintMut)
    }
}

/// The system program account must be the system program, and executable.
pub open spec fn system_program_status(a: AccountInfo) -> Result<(), PayrollError> {
    if a.key@ != system_program_id() {
        Err(PayrollError::InvalidProgramId)
    } else if !a.executable {
        Err(PayrollError::InvalidProgramExecutable)
    } else {
        Ok(())
    }
}

/// A record account must exist and belong to this program.
pub open spec fn owner_status(a: AccountInfo, program_id: Seq<u8>) -> Result<(), PayrollError> {
    if a.owner@ == system_program_id() && a.lamports == 0 {
        Err(PayrollError::AccountNotInitialized)
    } else if a.owner@ != program_id {
        Err(PayrollError::AccountOwnedByWrongProgram)
    } else {
        Ok(())
    }
}

/// Whether account `a` may be created for this program with `payer` paying:
/// a funded account may not pay for itself, and the account must still be
/// free, owned by the system program and without data.
pub open spec fn init_status(a: AccountInfo, payer: AccountInfo) -> Result<(), PayrollError> {
    if a.lamports != 0 && a.key@ == payer.key@ {
        Err(PayrollError::TryingToInitPayerAsProgramAccount)
    } else if a.owner@ != system_program_id() || a.data@.len() != 0 {
        Err(PayrollError::AccountAlreadyInUse)
    } else {
        Ok(())
    }
}

pub fn check_init(a: &AccountInfo, payer: &AccountInfo) -> (r: Result<(), PayrollError>)
    ensures
        r == init_status(*a, *payer),
{
    if a.lamports != 0 && a.key.same_as(&payer.key) {
        Err(PayrollError::TryingToInitPayerAsProgramAccount)
    } else if !is_system_program_id(&a.owner) || a.data.len() != 0 {
        Err(PayrollError::AccountAlreadyInUse)
    } else {
        Ok(())
    }
}

fn is_system_program_id(k: &Pubkey) -> (r: bool)
    ensures
        r == (k@ == system_program_id()),
{
    let zero = Pubkey::zeroed();
    let r = k.same_as(&zero);
    assert(zero@ =~= system_program_id());
    r
}

pub fn check_signer(a: &AccountInfo) -> (r: Result<(), PayrollError>)
    ensures
        r == signer_status(*a),
{
    if a.is_signer {
        Ok(())
    } else {
        Err(PayrollError::AccountNotSigner)
    }
}

pub fn check_signer_constraint(a: &AccountInfo) -> (r: Result<(), PayrollError>)
    ensures
        r == signer_constraint_status(*a),
{
    if a.is_signer {
        Ok(())
    } else {
        Err(PayrollError::ConstraintSigner)
    }
}

pub fn check_mut(a: &AccountInfo) -> (r: Result<(), PayrollError>)
    ensures
        r == mut_status(*a),
{
    if a.is_writable {
        Ok(())
    } else {
        Err(PayrollError::ConstraintMut)
    }
}

pub fn check_system_program(a: &AccountInfo) -> (r: Result<(), PayrollError>)
    ensures
        r == system_program_status(*a),
{
    if !is_system_program_id(&a.key) {
        Err(PayrollError::InvalidProgramId)
    } else if !a.executable {
        Err(PayrollError::InvalidProgramExecutable)
    } else {
        Ok(())
    }
}

pub fn check_owner(a: &AccountInfo, program_id: &Pubkey) -> (r: Result<(), PayrollError>)
    ensures
        r == owner_status(*a, program_id@),
{
    if is_system_program_id(&a.owner) && a.lamports == 0 {
        Err(PayrollError::AccountNotInitialized)
    } else if !a.owner.same_as(program_id) {
        Err(PayrollError::AccountOwnedByWrongProgram)
    } else {
        Ok(())
    }
}

} // verus!
