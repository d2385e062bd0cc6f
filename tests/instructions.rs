use std::str::FromStr;

use employee_payroll::account::AccountInfo;
use employee_payroll::discriminator::discriminator;
use employee_payroll::error::PayrollError;
use employee_payroll::instructions::check_in::CheckIn;
use employee_payroll::instructions::check_out::CheckOut;
use employee_payroll::instructions::create_payroll_batch::CreatePayrollBatch;
use employee_payroll::instructions::initialize_employer::InitializeEmployer;
use employee_payroll::instructions::mark_session_paid::MarkSessionPaid;
use employee_payroll::instructions::process_payroll::ProcessPayroll;
use employee_payroll::instructions::register_employee::RegisterEmployee;
use employee_payroll::instructions::update_employee::UpdateEmployee;
use employee_payroll::key::Pubkey;
use employee_payroll::pda::{
    check_found_address, check_seeds, employee_seeds_of, payroll_batch_seeds_of,
    work_session_seeds_of,
};
use employee_payroll::state::employee::Employee;
use employee_payroll::state::payroll_batch::PayrollBatch;
use employee_payroll::state::work_session::WorkSession;
use employee_payroll::{
    check_in, check_out, create_payroll_batch, initialize_employer, mark_session_paid,
    process_payroll, register_employee, update_employee,
};

type OutsideKey = anchor_lang::prelude::Pubkey;

fn program_id() -> Pubkey {
    let k = OutsideKey::from_str("CJL2foUtZDC8vE9MF3Tb2BeJrfDZsVCkZD2pkdPV9b4X").unwrap();
    Pubkey::new_from_array(k.to_bytes())
}

fn key_of(b: u8) -> Pubkey {
    Pubkey::new_from_array([b; 32])
}

fn pda(seeds: &[&[u8]]) -> (Pubkey, u8) {
    let id = OutsideKey::new_from_array(program_id().to_bytes());
    let (k, bump) = OutsideKey::find_program_address(seeds, &id);
    (Pubkey::new_from_array(k.to_bytes()), bump)
}

fn employee_pda(wallet: &Pubkey) -> Pubkey {
    pda(&[b"employee", &wallet.to_bytes()]).0
}

fn work_session_pda(wallet: &Pubkey, session_id: u64) -> Pubkey {
    pda(&[b"work_session", &wallet.to_bytes(), &session_id.to_le_bytes()]).0
}

fn batch_pda(batch_id: u64) -> Pubkey {
    pda(&[b"payroll_batch", &batch_id.to_le_bytes()]).0
}

fn signer(b: u8) -> AccountInfo {
    AccountInfo {
        key: key_of(b),
        owner: Pubkey::zeroed(),
        lamports: 1_000_000_000_000,
        data: vec![],
        is_signer: true,
        is_writable: true,
        executable: false,
    }
}

fn system_program() -> AccountInfo {
    AccountInfo {
        key: Pubkey::zeroed(),
        owner: key_of(0xee),
        lamports: 1,
        data: vec![],
        is_signer: false,
        is_writable: false,
        executable: true,
    }
}

fn blank(key: Pubkey) -> AccountInfo {
    AccountInfo {
        key,
        owner: Pubkey::zeroed(),
        lamports: 0,
        data: vec![],
        is_signer: false,
        is_writable: true,
        executable: false,
    }
}

fn owned(key: Pubkey, data: Vec<u8>) -> AccountInfo {
    AccountInfo {
        key,
        owner: program_id(),
        lamports: 5_000_000,
        data,
        is_signer: false,
        is_writable: true,
        executable: false,
    }
}

fn employee_data(wallet: &Pubkey) -> Vec<u8> {
    let e = Employee {
        name: "Ada".to_string(),
        position: "Engineer".to_string(),
        hourly_rate: 50,
        total_hours_worked: 0,
        total_paid: 0,
        authority: key_of(1),
        employee_wallet: Pubkey::new_from_array(wallet.to_bytes()),
        is_active: true,
    };
    let mut data = e.try_serialize().unwrap();
    data.resize(205, 0);
    data
}

fn session_data(session_id: u64) -> Vec<u8> {
    let mut w = WorkSession::zeroed();
    w.session_id = session_id;
    w.try_serialize()
}

fn batch_data(batch_id: u64) -> Vec<u8> {
    let mut b = PayrollBatch::zeroed();
    b.batch_id = batch_id;
    b.try_serialize()
}

fn check_out_accounts(wallet: &Pubkey, session_id: u64) -> CheckOut {
    CheckOut {
        authority: signer(1),
        employee: owned(employee_pda(wallet), employee_data(wallet)),
        work_session: owned(work_session_pda(wallet, session_id), session_data(session_id)),
    }
}

#[test]
fn seeds_hold_prefix_and_little_endian_ids() {
    let wallet = key_of(4);
    let s = employee_seeds_of(&wallet);
    assert_eq!(s, vec![b"employee".to_vec(), vec![4u8; 32]]);
    let s = work_session_seeds_of(&wallet, 258);
    assert_eq!(s, vec![b"work_session".to_vec(), vec![4u8; 32], vec![2, 1, 0, 0, 0, 0, 0, 0]]);
    let s = payroll_batch_seeds_of(7);
    assert_eq!(s, vec![b"payroll_batch".to_vec(), vec![7, 0, 0, 0, 0, 0, 0, 0]]);
}

#[test]
fn seeds_check_finds_the_canonical_bump() {
    let wallet = key_of(4);
    let (address, bump) = pda(&[b"employee", &wallet.to_bytes()]);
    assert_eq!(check_seeds(&address, &employee_seeds_of(&wallet), &program_id()), Ok(bump));
    assert_eq!(
        check_seeds(&key_of(9), &employee_seeds_of(&wallet), &program_id()),
        Err(PayrollError::ConstraintSeeds)
    );
}

#[test]
fn seeds_over_the_limit_derive_nothing() {
    let long = vec![vec![1u8; 33]];
    assert_eq!(check_seeds(&key_of(9), &long, &program_id()), Err(PayrollError::ConstraintSeeds));
    let many: Vec<Vec<u8>> = (0..16).map(|i| vec![i as u8]).collect();
    assert_eq!(check_seeds(&key_of(9), &many, &program_id()), Err(PayrollError::ConstraintSeeds));
}

#[test]
fn found_address_decides_the_seeds_check() {
    let k = key_of(3);
    assert_eq!(check_found_address(&k, Some((key_of(3), 254))), Ok(254));
    assert_eq!(check_found_address(&k, Some((key_of(2), 254))), Err(PayrollError::ConstraintSeeds));
    assert_eq!(check_found_address(&k, None), Err(PayrollError::ConstraintSeeds));
}

#[test]
fn initialize_employer_succeeds() {
    let accounts = InitializeEmployer {
        authority: signer(1),
        employer: signer(2),
        system_program: system_program(),
    };
    let c = initialize_employer(&program_id(), &accounts).unwrap();
    assert!(c.address.same_as(&key_of(2)));
    assert!(c.payer.same_as(&key_of(1)));
    assert!(c.owner.same_as(&program_id()));
    assert_eq!(c.space, 8);
    assert!(c.signer_seeds.is_empty());
    assert_eq!(c.data, vec![0u8; 8]);
}

#[test]
fn initialize_employer_needs_employer_signature() {
    let mut employer = signer(2);
    employer.is_signer = false;
    let accounts = InitializeEmployer { authority: signer(1), employer, system_program: system_program() };
    assert_eq!(initialize_employer(&program_id(), &accounts).err(), Some(PayrollError::ConstraintSigner));
}

#[test]
fn system_program_is_checked() {
    let mut wrong = system_program();
    wrong.key = key_of(3);
    let accounts = InitializeEmployer { authority: signer(1), employer: signer(2), system_program: wrong };
    assert_eq!(initialize_employer(&program_id(), &accounts).err(), Some(PayrollError::InvalidProgramId));
    let mut not_exec = system_program();
    not_exec.executable = false;
    let accounts = InitializeEmployer { authority: signer(1), employer: signer(2), system_program: not_exec };
    assert_eq!(
        initialize_employer(&program_id(), &accounts).err(),
        Some(PayrollError::InvalidProgramExecutable)
    );
}

#[test]
fn register_employee_succeeds_at_the_derived_address() {
    let wallet = key_of(4);
    let accounts = RegisterEmployee {
        authority: signer(1),
        employee: blank(employee_pda(&wallet)),
        system_program: system_program(),
    };
    let c = register_employee(&program_id(), &accounts, &"Ada".to_string(), &"Engineer".to_string(), 50, &wallet)
        .unwrap();
    let (address, bump) = pda(&[b"employee", &wallet.to_bytes()]);
    assert!(c.address.same_as(&address));
    assert!(c.payer.same_as(&key_of(1)));
    assert!(c.owner.same_as(&program_id()));
    assert_eq!(c.space, 205);
    assert_eq!(c.signer_seeds, vec![b"employee".to_vec(), vec![4u8; 32], vec![bump]]);
    assert_eq!(c.data.len(), 205);
    assert_eq!(&c.data[..8], discriminator("Employee").as_slice());
    assert!(c.data[8..].iter().all(|b| *b == 0));
    let e = Employee::try_deserialize(&c.data).unwrap();
    assert_eq!(e.name, "");
    assert!(!e.is_active);
}

#[test]
fn register_employee_at_another_address_fails() {
    let wallet = key_of(4);
    let accounts = RegisterEmployee {
        authority: signer(1),
        employee: blank(employee_pda(&key_of(5))),
        system_program: system_program(),
    };
    let r = register_employee(&program_id(), &accounts, &"Ada".to_string(), &"Engineer".to_string(), 50, &wallet);
    assert_eq!(r.err(), Some(PayrollError::ConstraintSeeds));
}

#[test]
fn update_employee_succeeds() {
    let wallet = key_of(4);
    let accounts = UpdateEmployee {
        authority: signer(1),
        employee: owned(employee_pda(&wallet), employee_data(&wallet)),
    };
    let r = update_employee(&program_id(), &accounts, &"Ada".to_string(), &"Lead".to_string(), 60, false, &wallet);
    assert_eq!(r, Ok(()));
}

#[test]
fn update_employee_needs_writable_account() {
    let wallet = key_of(4);
    let mut employee = owned(employee_pda(&wallet), employee_data(&wallet));
    employee.is_writable = false;
    let accounts = UpdateEmployee { authority: signer(1), employee };
    let r = update_employee(&program_id(), &accounts, &"Ada".to_string(), &"Lead".to_string(), 60, false, &wallet);
    assert_eq!(r, Err(PayrollError::ConstraintMut));
}

#[test]
fn check_in_succeeds() {
    let wallet = key_of(4);
    let mut employee = owned(employee_pda(&wallet), employee_data(&wallet));
    employee.is_writable = false;
    let accounts = CheckIn {
        authority: signer(1),
        employee,
        work_session: blank(work_session_pda(&wallet, 0)),
        system_program: system_program(),
    };
    let c = check_in(&program_id(), &accounts, &wallet, 0, 0).unwrap();
    let (address, bump) = pda(&[b"work_session", &wallet.to_bytes(), &0u64.to_le_bytes()]);
    assert!(c.address.same_as(&address));
    assert_eq!(c.space, 105);
    assert_eq!(c.signer_seeds, vec![b"work_session".to_vec(), vec![4u8; 32], vec![0u8; 8], vec![bump]]);
    assert_eq!(c.data, WorkSession::zeroed().try_serialize());
    let w = WorkSession::try_deserialize(&c.data).unwrap();
    assert_eq!(w.check_in_time, 0);
    assert!(!w.is_paid);
}

#[test]
fn check_in_for_another_session_fails() {
    let wallet = key_of(4);
    let accounts = CheckIn {
        authority: signer(1),
        employee: owned(employee_pda(&wallet), employee_data(&wallet)),
        work_session: blank(work_session_pda(&wallet, 1)),
        system_program: system_program(),
    };
    assert_eq!(check_in(&program_id(), &accounts, &wallet, 0, 0).err(), Some(PayrollError::ConstraintSeeds));
}

#[test]
fn check_out_succeeds() {
    let wallet = Pubkey::zeroed();
    let accounts = check_out_accounts(&wallet, 0);
    assert_eq!(check_out(&program_id(), &accounts, &wallet, 0, 0), Ok(()));
}

#[test]
fn check_out_needs_authority_signature() {
    let wallet = key_of(4);
    let mut accounts = check_out_accounts(&wallet, 3);
    accounts.authority.is_signer = false;
    assert_eq!(check_out(&program_id(), &accounts, &wallet, 3, 0), Err(PayrollError::AccountNotSigner));
}

#[test]
fn check_out_needs_initialized_accounts() {
    let wallet = key_of(4);
    let mut accounts = check_out_accounts(&wallet, 3);
    accounts.work_session = blank(work_session_pda(&wallet, 3));
    assert_eq!(check_out(&program_id(), &accounts, &wallet, 3, 0), Err(PayrollError::AccountNotInitialized));
}

#[test]
fn check_out_needs_accounts_of_this_program() {
    let wallet = key_of(4);
    let mut accounts = check_out_accounts(&wallet, 3);
    accounts.employee.owner = key_of(8);
    assert_eq!(
        check_out(&program_id(), &accounts, &wallet, 3, 0),
        Err(PayrollError::AccountOwnedByWrongProgram)
    );
}

#[test]
fn check_out_needs_records_of_the_right_kind() {
    let wallet = key_of(4);
    let mut accounts = check_out_accounts(&wallet, 3);
    accounts.work_session.data = batch_data(3);
    assert_eq!(
        check_out(&program_id(), &accounts, &wallet, 3, 0),
        Err(PayrollError::AccountDiscriminatorMismatch)
    );
    accounts.work_session.data = vec![0u8; 4];
    assert_eq!(
        check_out(&program_id(), &accounts, &wallet, 3, 0),
        Err(PayrollError::AccountDiscriminatorNotFound)
    );
}

#[test]
fn check_out_reports_the_first_failure() {
    let wallet = key_of(4);
    let mut accounts = check_out_accounts(&wallet, 3);
    accounts.employee.is_writable = false;
    accounts.work_session.key = key_of(6);
    assert_eq!(check_out(&program_id(), &accounts, &wallet, 3, 0), Err(PayrollError::ConstraintMut));
    accounts.employee.key = key_of(6);
    assert_eq!(check_out(&program_id(), &accounts, &wallet, 3, 0), Err(PayrollError::ConstraintSeeds));
}

#[test]
fn create_payroll_batch_succeeds() {
    let accounts = CreatePayrollBatch {
        authority: signer(1),
        payroll_batch: blank(batch_pda(11)),
        system_program: system_program(),
    };
    let c = create_payroll_batch(&program_id(), &accounts, 11, 0).unwrap();
    assert!(c.address.same_as(&batch_pda(11)));
    assert_eq!(c.space, 73);
    assert_eq!(c.data, PayrollBatch::zeroed().try_serialize());
    assert_eq!(create_payroll_batch(&program_id(), &accounts, 12, 0).err(), Some(PayrollError::ConstraintSeeds));
}

#[test]
fn process_payroll_succeeds() {
    let wallet = key_of(4);
    let accounts = ProcessPayroll {
        authority: signer(1),
        payroll_batch: owned(batch_pda(11), batch_data(11)),
        employee: owned(key_of(20), employee_data(&wallet)),
        work_session: owned(key_of(21), session_data(2)),
    };
    assert_eq!(process_payroll(&program_id(), &accounts, 11, 0), Ok(()));
}

#[test]
fn process_payroll_needs_writable_authority() {
    let wallet = key_of(4);
    let mut authority = signer(1);
    authority.is_writable = false;
    let accounts = ProcessPayroll {
        authority,
        payroll_batch: owned(batch_pda(11), batch_data(11)),
        employee: owned(key_of(20), employee_data(&wallet)),
        work_session: owned(key_of(21), session_data(2)),
    };
    assert_eq!(process_payroll(&program_id(), &accounts, 11, 0), Err(PayrollError::ConstraintMut));
}

#[test]
fn process_payroll_rejects_a_corrupt_record() {
    let wallet = key_of(4);
    let mut session = session_data(2);
    session[8 + 56] = 7;
    let accounts = ProcessPayroll {
        authority: signer(1),
        payroll_batch: owned(batch_pda(11), batch_data(11)),
        employee: owned(key_of(20), employee_data(&wallet)),
        work_session: owned(key_of(21), session),
    };
    assert_eq!(
        process_payroll(&program_id(), &accounts, 11, 0),
        Err(PayrollError::AccountDidNotDeserialize)
    );
}

#[test]
fn mark_session_paid_succeeds() {
    let wallet = Pubkey::zeroed();
    let accounts = MarkSessionPaid {
        authority: signer(1),
        work_session: owned(work_session_pda(&wallet, 0), session_data(0)),
    };
    assert_eq!(mark_session_paid(&program_id(), &accounts, &wallet, 0), Ok(()));
    assert_eq!(mark_session_paid(&program_id(), &accounts, &wallet, 1), Err(PayrollError::ConstraintSeeds));
}

#[test]
fn register_employee_twice_is_refused() {
    let wallet = key_of(4);
    let accounts = RegisterEmployee {
        authority: signer(1),
        employee: owned(employee_pda(&wallet), employee_data(&wallet)),
        system_program: system_program(),
    };
    let r = register_employee(&program_id(), &accounts, &"Ada".to_string(), &"Engineer".to_string(), 50, &wallet);
    assert_eq!(r.err(), Some(PayrollError::AccountAlreadyInUse));
}

#[test]
fn check_in_on_an_existing_session_is_refused() {
    let wallet = key_of(4);
    let accounts = CheckIn {
        authority: signer(1),
        employee: owned(employee_pda(&wallet), employee_data(&wallet)),
        work_session: owned(work_session_pda(&wallet, 0), session_data(0)),
        system_program: system_program(),
    };
    assert_eq!(check_in(&program_id(), &accounts, &wallet, 0, 0).err(), Some(PayrollError::AccountAlreadyInUse));
}

#[test]
fn create_payroll_batch_twice_is_refused() {
    let accounts = CreatePayrollBatch {
        authority: signer(1),
        payroll_batch: owned(batch_pda(11), batch_data(11)),
        system_program: system_program(),
    };
    assert_eq!(
        create_payroll_batch(&program_id(), &accounts, 11, 0).err(),
        Some(PayrollError::AccountAlreadyInUse)
    );
}

#[test]
fn initialize_employer_on_an_account_in_use_is_refused() {
    let mut employer = signer(2);
    employer.data = vec![1, 2, 3];
    let accounts = InitializeEmployer { authority: signer(1), employer, system_program: system_program() };
    assert_eq!(initialize_employer(&program_id(), &accounts).err(), Some(PayrollError::AccountAlreadyInUse));
    let mut employer = signer(2);
    employer.owner = program_id();
    let accounts = InitializeEmployer { authority: signer(1), employer, system_program: system_program() };
    assert_eq!(initialize_employer(&program_id(), &accounts).err(), Some(PayrollError::AccountAlreadyInUse));
}

#[test]
fn payer_cannot_fund_itself_as_the_new_account() {
    let accounts = InitializeEmployer { authority: signer(1), employer: signer(1), system_program: system_program() };
    assert_eq!(
        initialize_employer(&program_id(), &accounts).err(),
        Some(PayrollError::TryingToInitPayerAsProgramAccount)
    );
}

#[test]
fn prefunded_free_account_can_be_opened() {
    let wallet = key_of(4);
    let mut employee = blank(employee_pda(&wallet));
    employee.lamports = 10;
    let accounts = RegisterEmployee { authority: signer(1), employee, system_program: system_program() };
    let r = register_employee(&program_id(), &accounts, &"Ada".to_string(), &"Engineer".to_string(), 50, &wallet);
    assert_eq!(r.unwrap().space, 205);
}
