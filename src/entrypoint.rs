//! The program entry: checks the program id, decodes the instruction, takes
//! its accounts in order and runs it.
use vstd::prelude::*;
use crate::account::{status_of, AccountInfo};
use crate::creation::AccountCreation;
use crate::error::PayrollError;
use crate::instruction::{
    decode_status, decode_with, decoded, instruction_tags, instruction_tags_of, InstructionView,
    PayrollInstruction, INSTRUCTION_COUNT,
};
use crate::instructions::initialize_employer::InitializeEmployer;
use crate::instructions::register_employee::RegisterEmployee;
use crate::instructions::update_employee::UpdateEmployee;
use crate::instructions::check_in::CheckIn;
use crate::instructions::check_out::CheckOut;
use crate::instructions::create_payroll_batch::CreatePayrollBatch;
use crate::instructions::process_payroll::ProcessPayroll;
use crate::instructions::mark_session_paid::MarkSessionPaid;
use crate::key::Pubkey;
use crate::pda::seeds_view;

verus! {

/// The address of this program.
pub open spec fn program_id_bytes() -> Seq<u8> {
    seq![
        167u8, 224u8, 242u8, 35u8, 47u8, 215u8, 73u8, 218u8, 250u8, 210u8, 6u8, 121u8, 75u8,
        234u8, 109u8, 13u8, 77u8, 207u8, 198u8, 143u8, 33u8, 78u8, 112u8, 149u8, 146u8, 26u8,
        36u8, 4u8, 18u8, 39u8, 103u8, 212u8,
    ]
}

/// The address of this program.
pub fn id() -> (r: Pubkey)
    ensures
        r@ == program_id_bytes(),
{
    let r = Pubkey::new_from_array(
        [
            167u8, 224u8, 242u8, 35u8, 47u8, 215u8, 73u8, 218u8, 250u8, 210u8, 6u8, 121u8, 75u8,
            234u8, 109u8, 13u8, 77u8, 207u8, 198u8, 143u8, 33u8, 78u8, 112u8, 149u8, 146u8, 26u8,
            36u8, 4u8, 18u8, 39u8, 103u8, 212u8,
        ],
    );
    assert(r@ =~= program_id_bytes());
    r
}

/// The outcome of running instruction `ix` on `accounts`: too few accounts
/// fail before any other check; accounts past those the instruction takes
/// are ignored.
pub open spec fn run_status(
    ix: InstructionView,
    program_id: Seq<u8>,
    accounts: Seq<AccountInfo>,
) -> Result<(), PayrollError> {
    match ix {
        InstructionView::InitializeEmployer => if accounts.len() < 3 {
            Err(PayrollError::AccountNotEnoughKeys)
        } else {
            let accs = InitializeEmployer {
                authority: accounts[0],
                employer: accounts[1],
                system_program: accounts[2],
            };
            accs.status(program_id)
        },
        InstructionView::RegisterEmployee { employee_wallet, .. } => if accounts.len() < 3 {
            Err(PayrollError::AccountNotEnoughKeys)
        } else {
            let accs = RegisterEmployee {
                authority: accounts[0],
                employee: accounts[1],
                system_program: accounts[2],
            };
            accs.status(program_id, employee_wallet)
        },
        InstructionView::UpdateEmployee { employee_wallet, .. } => if accounts.len() < 2 {
            Err(PayrollError::AccountNotEnoughKeys)
        } else {
            let accs = UpdateEmployee {
                authority: accounts[0],
                employee: accounts[1],
            };
            accs.status(program_id, employee_wallet)
        },
        InstructionView::CheckIn { employee_wallet, session_id, .. } => if accounts.len() < 4 {
            Err(PayrollError::AccountNotEnoughKeys)
        } else {
            let accs = CheckIn {
                authority: accounts[0],
                employee: accounts[1],
                work_session: accounts[2],
                system_program: accounts[3],
            };
            accs.status(program_id, employee_wallet, session_id)
        },
        InstructionView::CheckOut { employee_wallet, session_id, .. } => if accounts.len() < 3 {
            Err(PayrollError::AccountNotEnoughKeys)
        } else {
            let accs = CheckOut {
                authority: accounts[0],
                employee: accounts[1],
                work_session: accounts[2],
            };
            accs.status(program_id, employee_wallet, session_id)
        },
        InstructionView::CreatePayrollBatch { batch_id, .. } => if accounts.len() < 3 {
            Err(PayrollError::AccountNotEnoughKeys)
        } else {
            let accs = CreatePayrollBatch {
                authority: accounts[0],
                payroll_batch: accounts[1],
                system_program: accounts[2],
            };
            accs.status(program_id, batch_id)
        },
        InstructionView::ProcessPayroll { batch_id, .. } => if accounts.len() < 4 {
            Err(PayrollError::AccountNotEnoughKeys)
        } else {
            let accs = ProcessPayroll {
                authority: accounts[0],
                payroll_batch: accounts[1],
                employee: accounts[2],
                work_session: accounts[3],
            };
            accs.status(program_id, batch_id)
        },
        InstructionView::MarkSessionPaid { employee_wallet, session_id } => if accounts.len() < 2 {
            Err(PayrollError::AccountNotEnoughKeys)
        } else {
            let accs = MarkSessionPaid {
                authority: accounts[0],
                work_session: accounts[1],
            };
            accs.status(program_id, employee_wallet, session_id)
        },
    }
}

/// What running instruction `ix` on `accounts` leaves to create: the account
/// an instruction opens, and nothing for the others.
pub open spec fn run_creates(
    ix: InstructionView,
    program_id: Seq<u8>,
    accounts: Seq<AccountInfo>,
    o: Option<AccountCreation>,
) -> bool {
    match ix {
        InstructionView::InitializeEmployer => {
            let accs = InitializeEmployer {
                authority: accounts[0],
                employer: accounts[1],
                system_program: accounts[2],
            };
            o matches Some(c) && accs.creates(program_id, c)
        },
        InstructionView::RegisterEmployee { employee_wallet, .. } => {
            let accs = RegisterEmployee {
                authority: accounts[0],
                employee: accounts[1],
                system_program: accounts[2],
            };
            o matches Some(c) && accs.creates(program_id, employee_wallet, c)
        },
        InstructionView::UpdateEmployee { employee_wallet, .. } => o is None,
        InstructionView::CheckIn { employee_wallet, session_id, .. } => {
            let accs = CheckIn {
                authority: accounts[0],
                employee: accounts[1],
                work_session: accounts[2],
                system_program: accounts[3],
            };
            o matches Some(c) && accs.creates(program_id, employee_wallet, session_id, c)
        },
        InstructionView::CheckOut { employee_wallet, session_id, .. } => o is None,
        InstructionView::CreatePayrollBatch { batch_id, .. } => {
            let accs = CreatePayrollBatch {
                authority: accounts[0],
                payroll_batch: accounts[1],
                system_program: accounts[2],
            };
            o matches Some(c) && accs.creates(program_id, batch_id, c)
        },
        InstructionView::ProcessPayroll { batch_id, .. } => o is None,
        InstructionView::MarkSessionPaid { employee_wallet, session_id } => o is None,
    }
}

/// The outcome of the program on instruction data whose tags are `tags`.
pub open spec fn process_status(
    program_id: Seq<u8>,
    accounts: Seq<AccountInfo>,
    data: Seq<u8>,
    tags: Seq<Seq<u8>>,
) -> Result<(), PayrollError> {
    if program_id != program_id_bytes() {
        Err(PayrollError::DeclaredProgramIdMismatch)
    } else {
        match decode_status(data, tags) {
            Err(e) => Err(e),
            Ok(_) => run_status(decoded(data, tags), program_id, accounts),
        }
    }
}

/// Runs a decoded instruction on the accounts passed with it.
pub fn run(
    program_id: &Pubkey,
    accounts: &Vec<AccountInfo>,
    ix: PayrollInstruction,
) -> (r: Result<Option<AccountCreation>, PayrollError>)
    ensures
        status_of(r) == run_status(ix@, program_id@, accounts@),
        r matches Ok(o) ==> run_creates(ix@, program_id@, accounts@, o),
{
    match ix {
        PayrollInstruction::InitializeEmployer => {
            if accounts.len() < 3 {
                return Err(PayrollError::AccountNotEnoughKeys);
            }
            let accs = InitializeEmployer {
                authority: accounts[0].duplicate(),
                employer: accounts[1].duplicate(),
                system_program: accounts[2].duplicate(),
            };
            match crate::initialize_employer(program_id, &accs) {
                Ok(c) => Ok(Some(c)),
                Err(e) => Err(e),
            }
        },
        PayrollInstruction::RegisterEmployee { name, position, hourly_rate, employee_wallet } => {
            if accounts.len() < 3 {
                return Err(PayrollError::AccountNotEnoughKeys);
            }
            let accs = RegisterEmployee {
                authority: accounts[0].duplicate(),
                employee: accounts[1].duplicate(),
                system_program: accounts[2].duplicate(),
            };
            match crate::register_employee(program_id, &accs, &name, &position, hourly_rate, &employee_wallet) {
                Ok(c) => Ok(Some(c)),
                Err(e) => Err(e),
            }
        },
        PayrollInstruction::UpdateEmployee { name, position, hourly_rate, is_active, employee_wallet } => {
            if accounts.len() < 2 {
                return Err(PayrollError::AccountNotEnoughKeys);
            }
            let accs = UpdateEmployee {
                authority: accounts[0].duplicate(),
                employee: accounts[1].duplicate(),
            };
            match crate::update_employee(program_id, &accs, &name, &position, hourly_rate, is_active, &employee_wallet) {
                Ok(()) => Ok(None),
                Err(e) => Err(e),
            }
        },
        PayrollInstruction::CheckIn { employee_wallet, session_id, timestamp } => {
            if accounts.len() < 4 {
                return Err(PayrollError::AccountNotEnoughKeys);
            }
            let accs = CheckIn {
                authority: accounts[0].duplicate(),
                employee: accounts[1].duplicate(),
                work_session: accounts[2].duplicate(),
                system_program: accounts[3].duplicate(),
            };
            match crate::check_in(program_id, &accs, &employee_wallet, session_id, timestamp) {
                Ok(c) => Ok(Some(c)),
                Err(e) => Err(e),
            }
        },
        PayrollInstruction::CheckOut { employee_wallet, session_id, timestamp } => {
            if accounts.len() < 3 {
                return Err(PayrollError::AccountNotEnoughKeys);
            }
            let accs = CheckOut {
                authority: accounts[0].duplicate(),
                employee: accounts[1].duplicate(),
                work_session: accounts[2].duplicate(),
            };
            match crate::check_out(program_id, &accs, &employee_wallet, session_id, timestamp) {
                Ok(()) => Ok(None),
                Err(e) => Err(e),
            }
        },
        PayrollInstruction::CreatePayrollBatch { batch_id, timestamp } => {
            if accounts.len() < 3 {
                return Err(PayrollError::AccountNotEnoughKeys);
            }
            let accs = CreatePayrollBatch {
                authority: accounts[0].duplicate(),
                payroll_batch: accounts[1].duplicate(),
                system_program: accounts[2].duplicate(),
            };
            match crate::create_payroll_batch(program_id, &accs, batch_id, timestamp) {
                Ok(c) => Ok(Some(c)),
                Err(e) => Err(e),
            }
        },
        PayrollInstruction::ProcessPayroll { batch_id, timestamp } => {
            if accounts.len() < 4 {
                return Err(PayrollError::AccountNotEnoughKeys);
            }
            let accs = ProcessPayroll {
                authority: accounts[0].duplicate(),
                payroll_batch: accounts[1].duplicate(),
                employee: accounts[2].duplicate(),
                work_session: accounts[3].duplicate(),
            };
            match crate::process_payroll(program_id, &accs, batch_id, timestamp) {
                Ok(()) => Ok(None),
                Err(e) => Err(e),
            }
        },
        PayrollInstruction::MarkSessionPaid { employee_wallet, session_id } => {
            if accounts.len() < 2 {
                return Err(PayrollError::AccountNotEnoughKeys);
            }
            let accs = MarkSessionPaid {
                authority: accounts[0].duplicate(),
                work_session: accounts[1].duplicate(),
            };
            match crate::mark_session_paid(program_id, &accs, &employee_wallet, session_id) {
                Ok(()) => Ok(None),
                Err(e) => Err(e),
            }
        },
    }
}

/// Runs the program on instruction data whose tags are `tags`, in the order
/// of [`InstructionView`]'s variants.
pub fn process_with(
    program_id: &Pubkey,
    accounts: &Vec<AccountInfo>,
    data: &[u8],
    tags: &Vec<Vec<u8>>,
) -> (r: Result<Option<AccountCreation>, PayrollError>)
    requires
        tags@.len() == INSTRUCTION_COUNT,
    ensures
        status_of(r) == process_status(program_id@, accounts@, data@, seeds_view(tags@)),
        r matches Ok(o) ==> run_creates(decoded(data@, seeds_view(tags@)), program_id@, accounts@, o),
{
    let own = id();
    if !program_id.same_as(&own) {
        return Err(PayrollError::DeclaredProgramIdMismatch);
    }
    match decode_with(data, tags) {
        Err(e) => Err(e),
        Ok(ix) => run(program_id, accounts, ix),
    }
}

/// Runs the program: the entry point of every instruction. On success it gives
/// the account that the instruction opens, if any.
pub fn process(
    program_id: &Pubkey,
    accounts: &Vec<AccountInfo>,
    data: &[u8],
) -> (r: Result<Option<AccountCreation>, PayrollError>)
    ensures
        status_of(r) == process_status(program_id@, accounts@, data@, instruction_tags()),
        r matches Ok(o) ==> run_creates(decoded(data@, instruction_tags()), program_id@, accounts@, o),
{
    let tags = instruction_tags_of();
    process_with(program_id, accounts, data, &tags)
}

} // verus!
