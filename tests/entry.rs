use std::str::FromStr;

use anchor_lang::AnchorSerialize;
use employee_payroll::account::AccountInfo;
use employee_payroll::discriminator::instruction_tag;
use employee_payroll::entrypoint::{id, process, process_with, run};
use employee_payroll::error::PayrollError;
use employee_payroll::instruction::{decode, decode_with, instruction_tags_of, PayrollInstruction};
use employee_payroll::key::Pubkey;
use employee_payroll::state::work_session::WorkSession;

type OutsideKey = anchor_lang::prelude::Pubkey;

fn sighash(name: &str) -> Vec<u8> {
    let preimage = format!("global:{}", name);
    anchor_lang::solana_program::hash::hash(preimage.as_bytes()).to_bytes()[..8].to_vec()
}

fn with_args<T: AnchorSerialize>(name: &str, args: &T) -> Vec<u8> {
    let mut data = sighash(name);
    data.extend_from_slice(&args.try_to_vec().unwrap());
    data
}

fn key_of(b: u8) -> Pubkey {
    Pubkey::new_from_array([b; 32])
}

fn signer(b: u8) -> AccountInfo {
    AccountInfo {
        key: key_of(b),
        owner: Pubkey::zeroed(),
        lamports: 1_000_000_000,
        data: vec![],
        is_signer: true,
        is_writable: true,
        executable: false,
    }
}

fn system_program() -> AccountInfo {
    AccountInfo {
        key: Pubkey::zeroed(),
        owner: key_of(0xee),
        lamports: 1,
        data: vec![],
        is_signer: false,
        is_writable: false,
        executable: true,
    }
}

#[test]
fn program_id_matches_declared_address() {
    let declared = OutsideKey::from_str("CJL2foUtZDC8vE9MF3Tb2BeJrfDZsVCkZD2pkdPV9b4X").unwrap();
    assert_eq!(id().to_bytes(), declared.to_bytes());
}

#[test]
fn instruction_tags_are_global_digests() {
    let tags = instruction_tags_of();
    let names = [
        "initialize_employer",
        "register_employee",
        "update_employee",
        "check_in",
        "check_out",
        "create_payroll_batch",
        "process_payroll",
        "mark_session_paid",
    ];
    assert_eq!(tags.len(), names.len());
    for (tag, name) in tags.iter().zip(names.iter()) {
        assert_eq!(tag, &sighash(name));
        assert_eq!(&instruction_tag(name), tag);
    }
}

#[test]
fn decodes_register_employee() {
    let wallet = OutsideKey::new_from_array([4u8; 32]);
    let data = with_args(
        "register_employee",
        &("Ada".to_string(), "Engineer".to_string(), 50u64, wallet),
    );
    match decode(&data) {
        Ok(PayrollInstruction::RegisterEmployee { name, position, hourly_rate, employee_wallet }) => {
            assert_eq!(name, "Ada");
            assert_eq!(position, "Engineer");
            assert_eq!(hourly_rate, 50);
            assert_eq!(employee_wallet.to_bytes(), [4u8; 32]);
        }
        _ => panic!("expected register_employee"),
    }
}

#[test]
fn decodes_update_employee() {
    let wallet = OutsideKey::new_from_array([6u8; 32]);
    let data = with_args(
        "update_employee",
        &("Bo".to_string(), "Ops".to_string(), 70u64, true, wallet),
    );
    match decode(&data) {
        Ok(PayrollInstruction::UpdateEmployee { name, position, hourly_rate, is_active, employee_wallet }) => {
            assert_eq!(name, "Bo");
            assert_eq!(position, "Ops");
            assert_eq!(hourly_rate, 70);
            assert!(is_active);
            assert_eq!(employee_wallet.to_bytes(), [6u8; 32]);
        }
        _ => panic!("expected update_employee"),
    }
}

#[test]
fn decodes_session_and_batch_instructions() {
    let wallet = OutsideKey::new_from_array([8u8; 32]);
    match decode(&with_args("check_in", &(wallet, 9u64, -30i64))) {
        Ok(PayrollInstruction::CheckIn { employee_wallet, session_id, timestamp }) => {
            assert_eq!(employee_wallet.to_bytes(), [8u8; 32]);
            assert_eq!(session_id, 9);
            assert_eq!(timestamp, -30);
        }
        _ => panic!("expected check_in"),
    }
    match decode(&with_args("check_out", &(wallet, 10u64, 77i64))) {
        Ok(PayrollInstruction::CheckOut { session_id, timestamp, .. }) => {
            assert_eq!(session_id, 10);
            assert_eq!(timestamp, 77);
        }
        _ => panic!("expected check_out"),
    }
    match decode(&with_args("create_payroll_batch", &(3u64, 1000i64))) {
        Ok(PayrollInstruction::CreatePayrollBatch { batch_id, timestamp }) => {
            assert_eq!(batch_id, 3);
            assert_eq!(timestamp, 1000);
        }
        _ => panic!("expected create_payroll_batch"),
    }
    match decode(&with_args("process_payroll", &(4u64, 2000i64))) {
        Ok(PayrollInstruction::ProcessPayroll { batch_id, timestamp }) => {
            assert_eq!(batch_id, 4);
            assert_eq!(timestamp, 2000);
        }
        _ => panic!("expected process_payroll"),
    }
    match decode(&with_args("mark_session_paid", &(wallet, 11u64))) {
        Ok(PayrollInstruction::MarkSessionPaid { employee_wallet, session_id }) => {
            assert_eq!(employee_wallet.to_bytes(), [8u8; 32]);
            assert_eq!(session_id, 11);
        }
        _ => panic!("expected mark_session_paid"),
    }
    assert!(matches!(decode(&sighash("initialize_employer")), Ok(PayrollInstruction::InitializeEmployer)));
}

#[test]
fn instruction_decode_errors() {
    assert_eq!(decode(&[1, 2, 3]).err(), Some(PayrollError::InstructionMissing));
    assert_eq!(decode(&[0u8; 16]).err(), Some(PayrollError::InstructionFallbackNotFound));
    let mut short = with_args("check_out", &(OutsideKey::new_from_array([1u8; 32]), 1u64, 1i64));
    short.pop();
    assert_eq!(decode(&short).err(), Some(PayrollError::InstructionDidNotDeserialize));
    let mut bad_flag = with_args(
        "update_employee",
        &("a".to_string(), "b".to_string(), 1u64, false, OutsideKey::new_from_array([1u8; 32])),
    );
    bad_flag[8 + 5 + 5 + 8] = 2;
    assert_eq!(decode(&bad_flag).err(), Some(PayrollError::InstructionDidNotDeserialize));
}

#[test]
fn decoding_against_given_tags() {
    let tags: Vec<Vec<u8>> = (0..8u8).map(|i| vec![i; 8]).collect();
    let mut data = vec![5u8; 8];
    data.extend_from_slice(&7u64.to_le_bytes());
    data.extend_from_slice(&(-1i64).to_le_bytes());
    match decode_with(&data, &tags) {
        Ok(PayrollInstruction::CreatePayrollBatch { batch_id, timestamp }) => {
            assert_eq!(batch_id, 7);
            assert_eq!(timestamp, -1);
        }
        _ => panic!("expected create_payroll_batch"),
    }
    assert_eq!(decode_with(&[9u8; 8], &tags).err(), Some(PayrollError::InstructionFallbackNotFound));
}

#[test]
fn process_runs_initialize_employer() {
    let accounts = vec![signer(1), signer(2), system_program()];
    let data = sighash("initialize_employer");
    let c = process(&id(), &accounts, &data).unwrap().unwrap();
    assert!(c.address.same_as(&key_of(2)));
    assert_eq!(c.space, 8);
}

#[test]
fn process_rejects_another_program_id() {
    let accounts = vec![signer(1), signer(2), system_program()];
    let data = sighash("initialize_employer");
    assert_eq!(process(&key_of(3), &accounts, &data).err(), Some(PayrollError::DeclaredProgramIdMismatch));
}

#[test]
fn process_needs_enough_accounts() {
    let accounts = vec![signer(1), signer(2)];
    let data = sighash("initialize_employer");
    assert_eq!(process(&id(), &accounts, &data).err(), Some(PayrollError::AccountNotEnoughKeys));
}

#[test]
fn process_runs_mark_session_paid() {
    let wallet = OutsideKey::new_from_array([0u8; 32]);
    let program = OutsideKey::new_from_array(id().to_bytes());
    let (pda, _) = OutsideKey::find_program_address(
        &[b"work_session", wallet.as_ref(), &0u64.to_le_bytes()],
        &program,
    );
    let session = AccountInfo {
        key: Pubkey::new_from_array(pda.to_bytes()),
        owner: id(),
        lamports: 1_000_000,
        data: WorkSession::zeroed().try_serialize(),
        is_signer: false,
        is_writable: true,
        executable: false,
    };
    let accounts = vec![signer(1), session];
    let data = with_args("mark_session_paid", &(wallet, 0u64));
    assert!(process(&id(), &accounts, &data).unwrap().is_none());
    let other = with_args("mark_session_paid", &(wallet, 1u64));
    assert_eq!(process(&id(), &accounts, &other).err(), Some(PayrollError::ConstraintSeeds));
}

#[test]
fn process_with_given_tags_and_run() {
    let tags: Vec<Vec<u8>> = (0..8u8).map(|i| vec![i; 8]).collect();
    let accounts = vec![signer(1), signer(2), system_program()];
    assert!(process_with(&id(), &accounts, &[0u8; 8], &tags).unwrap().is_some());
    let mut not_signed = signer(2);
    not_signed.is_signer = false;
    let accounts = vec![signer(1), not_signed, system_program()];
    assert_eq!(
        run(&id(), &accounts, PayrollInstruction::InitializeEmployer).err(),
        Some(PayrollError::ConstraintSigner)
    );
}

#[test]
fn new_error_codes() {
    assert_eq!(PayrollError::InstructionMissing.code(), 100);
    assert_eq!(PayrollError::InstructionFallbackNotFound.code(), 101);
    assert_eq!(PayrollError::InstructionDidNotDeserialize.code(), 102);
    assert_eq!(PayrollError::AccountNotEnoughKeys.code(), 3005);
    assert_eq!(PayrollError::DeclaredProgramIdMismatch.code(), 4100);
    assert_eq!(PayrollError::TryingToInitPayerAsProgramAccount.code(), 4101);
    assert_eq!(PayrollError::AccountAlreadyInUse.code(), 0);
}

#[test]
fn instruction_data_matches_framework_encoding() {
    let wallet = OutsideKey::new_from_array([4u8; 32]);
    let ix = PayrollInstruction::RegisterEmployee {
        name: "Ada".to_string(),
        position: "Engineer".to_string(),
        hourly_rate: 50,
        employee_wallet: Pubkey::new_from_array([4u8; 32]),
    };
    assert_eq!(
        ix.data(),
        with_args("register_employee", &("Ada".to_string(), "Engineer".to_string(), 50u64, wallet))
    );
    let ix = PayrollInstruction::CheckOut {
        employee_wallet: Pubkey::new_from_array([4u8; 32]),
        session_id: 3,
        timestamp: -9,
    };
    assert_eq!(ix.data(), with_args("check_out", &(wallet, 3u64, -9i64)));
    assert_eq!(PayrollInstruction::InitializeEmployer.data(), sighash("initialize_employer"));
}

#[test]
fn instruction_data_round_trip() {
    let ix = PayrollInstruction::UpdateEmployee {
        name: "Zoë".to_string(),
        position: "".to_string(),
        hourly_rate: u64::MAX,
        is_active: false,
        employee_wallet: Pubkey::new_from_array([9u8; 32]),
    };
    match decode(&ix.data()) {
        Ok(PayrollInstruction::UpdateEmployee { name, position, hourly_rate, is_active, employee_wallet }) => {
            assert_eq!(name, "Zoë");
            assert_eq!(position, "");
            assert_eq!(hourly_rate, u64::MAX);
            assert!(!is_active);
            assert_eq!(employee_wallet.to_bytes(), [9u8; 32]);
        }
        _ => panic!("expected update_employee"),
    }
    let ix = PayrollInstruction::ProcessPayroll { batch_id: 5, timestamp: i64::MIN };
    assert_eq!(ix.index(), 6);
    let tags: Vec<Vec<u8>> = (0..8u8).map(|i| vec![i; 8]).collect();
    let data = ix.to_data_with(&tags);
    assert_eq!(&data[..8], &[6u8; 8]);
    match decode_with(&data, &tags) {
        Ok(PayrollInstruction::ProcessPayroll { batch_id, timestamp }) => {
            assert_eq!(batch_id, 5);
            assert_eq!(timestamp, i64::MIN);
        }
        _ => panic!("expected process_payroll"),
    }
}
