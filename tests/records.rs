use employee_payroll::codec::{read_string, write_string};
use employee_payroll::discriminator::discriminator;
use employee_payroll::error::PayrollError;
use employee_payroll::key::Pubkey;
use employee_payroll::state::employee::Employee;
use employee_payroll::state::payroll_batch::PayrollBatch;
use employee_payroll::state::work_session::WorkSession;

fn key_of(b: u8) -> Pubkey {
    Pubkey::new_from_array([b; 32])
}

fn sample_session() -> WorkSession {
    WorkSession {
        employee: key_of(7),
        check_in_time: 1_700_000_000,
        check_out_time: -5,
        duration: 3600,
        is_paid: true,
        authority: key_of(9),
        session_id: 1,
    }
}

fn sample_employee(name: &str, position: &str) -> Employee {
    Employee {
        name: name.to_string(),
        position: position.to_string(),
        hourly_rate: 25,
        total_hours_worked: 160,
        total_paid: 4000,
        authority: key_of(1),
        employee_wallet: key_of(2),
        is_active: true,
    }
}

fn anchor_discriminator(name: &str) -> Vec<u8> {
    let preimage = format!("account:{}", name);
    anchor_lang::solana_program::hash::hash(preimage.as_bytes()).to_bytes()[..8].to_vec()
}

#[test]
fn discriminators_match_account_name_digest() {
    for name in ["Employee", "WorkSession", "PayrollBatch"] {
        assert_eq!(discriminator(name), anchor_discriminator(name));
    }
    assert_ne!(discriminator("Employee"), discriminator("WorkSession"));
}

#[test]
fn key_bytes_and_equality() {
    let k = key_of(3);
    assert_eq!(k.to_vec(), vec![3u8; 32]);
    assert_eq!(k.to_bytes(), [3u8; 32]);
    assert!(k.same_as(&key_of(3)));
    let mut other = [3u8; 32];
    other[31] = 4;
    assert!(!k.same_as(&Pubkey::new_from_array(other)));
    assert_eq!(Pubkey::zeroed().to_bytes(), [0u8; 32]);
}

#[test]
fn work_session_layout() {
    let w = sample_session();
    let mut out = Vec::new();
    w.serialize(&mut out);
    assert_eq!(out.len(), 97);
    assert_eq!(&out[0..32], &[7u8; 32]);
    assert_eq!(&out[32..40], &1_700_000_000i64.to_le_bytes());
    assert_eq!(&out[40..48], &(-5i64).to_le_bytes());
    assert_eq!(&out[48..56], &3600u64.to_le_bytes());
    assert_eq!(out[56], 1);
    assert_eq!(&out[57..89], &[9u8; 32]);
    assert_eq!(&out[89..97], &[1, 0, 0, 0, 0, 0, 0, 0]);
}

#[test]
fn work_session_round_trip() {
    let w = sample_session();
    let data = w.try_serialize();
    assert_eq!(data.len(), 105);
    assert_eq!(&data[0..8], anchor_discriminator("WorkSession").as_slice());
    let back = WorkSession::try_deserialize(&data).unwrap();
    assert!(back.employee.same_as(&w.employee));
    assert_eq!(back.check_in_time, 1_700_000_000);
    assert_eq!(back.check_out_time, -5);
    assert_eq!(back.duration, 3600);
    assert!(back.is_paid);
    assert!(back.authority.same_as(&w.authority));
    assert_eq!(back.session_id, 1);
}

#[test]
fn zeroed_work_session_fills_its_space() {
    let data = WorkSession::zeroed().try_serialize();
    assert_eq!(data.len(), 105);
    assert!(data[8..].iter().all(|b| *b == 0));
}

#[test]
fn payroll_batch_round_trip() {
    let b = PayrollBatch {
        batch_id: 42,
        total_amount: 1_000_000,
        created_at: 100,
        processed_at: i64::MIN,
        is_processed: false,
        authority: key_of(5),
    };
    let data = b.try_serialize();
    assert_eq!(data.len(), 73);
    assert_eq!(&data[8..16], &42u64.to_le_bytes());
    assert_eq!(data[8 + 32], 0);
    let back = PayrollBatch::try_deserialize(&data).unwrap();
    assert_eq!(back.batch_id, 42);
    assert_eq!(back.total_amount, 1_000_000);
    assert_eq!(back.created_at, 100);
    assert_eq!(back.processed_at, i64::MIN);
    assert!(!back.is_processed);
    assert!(back.authority.same_as(&key_of(5)));
}

#[test]
fn zeroed_payroll_batch_fills_its_space() {
    let data = PayrollBatch::zeroed().try_serialize();
    assert_eq!(data.len(), 73);
    assert!(data[8..].iter().all(|b| *b == 0));
}

#[test]
fn employee_round_trip_with_unicode() {
    let e = sample_employee("Zoë Ångström", "Lead");
    let data = e.try_serialize().unwrap();
    assert_eq!(data.len(), 8 + 97 + "Zoë Ångström".len() + 4);
    assert_eq!(&data[8..12], &("Zoë Ångström".len() as u32).to_le_bytes());
    let back = Employee::try_deserialize(&data).unwrap();
    assert_eq!(back.name, "Zoë Ångström");
    assert_eq!(back.position, "Lead");
    assert_eq!(back.hourly_rate, 25);
    assert_eq!(back.total_hours_worked, 160);
    assert_eq!(back.total_paid, 4000);
    assert!(back.authority.same_as(&key_of(1)));
    assert!(back.employee_wallet.same_as(&key_of(2)));
    assert!(back.is_active);
}

#[test]
fn employee_space_limit() {
    let fits = sample_employee(&"a".repeat(60), &"b".repeat(40));
    assert!(fits.fits_space());
    assert_eq!(fits.try_serialize().unwrap().len(), 205);
    let over = sample_employee(&"a".repeat(60), &"b".repeat(41));
    assert!(!over.fits_space());
    assert_eq!(over.try_serialize(), Err(PayrollError::AccountDidNotSerialize));
}

#[test]
fn zeroed_employee_decodes_from_zeroed_data() {
    let mut data = discriminator("Employee");
    data.extend_from_slice(&[0u8; 197]);
    let e = Employee::try_deserialize(&data).unwrap();
    assert_eq!(e.name, "");
    assert_eq!(e.position, "");
    assert_eq!(e.hourly_rate, 0);
    assert!(!e.is_active);
    let z = Employee::zeroed();
    assert_eq!(z.try_serialize().unwrap(), data[..105].to_vec());
}

#[test]
fn decode_errors() {
    assert_eq!(
        WorkSession::try_deserialize(&[1, 2, 3]).err(),
        Some(PayrollError::AccountDiscriminatorNotFound)
    );
    let batch = PayrollBatch::zeroed().try_serialize();
    assert_eq!(
        WorkSession::try_deserialize(&batch).err(),
        Some(PayrollError::AccountDiscriminatorMismatch)
    );
    let mut short = sample_session().try_serialize();
    short.pop();
    assert_eq!(
        WorkSession::try_deserialize(&short).err(),
        Some(PayrollError::AccountDidNotDeserialize)
    );
    let mut bad_bool = sample_session().try_serialize();
    bad_bool[8 + 56] = 2;
    assert_eq!(
        WorkSession::try_deserialize(&bad_bool).err(),
        Some(PayrollError::AccountDidNotDeserialize)
    );
    let mut bad_utf8 = sample_employee("ab", "c").try_serialize().unwrap();
    bad_utf8[12] = 0xff;
    assert_eq!(
        Employee::try_deserialize(&bad_utf8).err(),
        Some(PayrollError::AccountDidNotDeserialize)
    );
}

#[test]
fn trailing_bytes_are_ignored() {
    let mut data = sample_session().try_serialize();
    data.extend_from_slice(&[0xaa; 10]);
    assert_eq!(WorkSession::try_deserialize(&data).unwrap().duration, 3600);
}

#[test]
fn decoding_with_a_given_discriminator() {
    let disc = [1u8, 2, 3, 4, 5, 6, 7, 8];
    let mut data = disc.to_vec();
    sample_session().serialize(&mut data);
    assert_eq!(WorkSession::try_deserialize_with(&data, &disc).unwrap().session_id, 1);
    assert_eq!(
        WorkSession::try_deserialize_with(&data, &[0u8; 8]).err(),
        Some(PayrollError::AccountDiscriminatorMismatch)
    );
}

#[test]
fn string_codec() {
    let mut out = Vec::new();
    write_string(&mut out, &"héllo".to_string());
    assert_eq!(out, vec![6, 0, 0, 0, b'h', 0xc3, 0xa9, b'l', b'l', b'o']);
    let (s, end) = read_string(&out, 0).unwrap();
    assert_eq!(s, "héllo");
    assert_eq!(end, 10);
    assert!(read_string(&out[..9], 0).is_none());
}

#[test]
fn error_codes() {
    assert_eq!(PayrollError::ConstraintMut.code(), 2000);
    assert_eq!(PayrollError::ConstraintSigner.code(), 2002);
    assert_eq!(PayrollError::ConstraintSeeds.code(), 2006);
    assert_eq!(PayrollError::AccountDiscriminatorNotFound.code(), 3001);
    assert_eq!(PayrollError::AccountDiscriminatorMismatch.code(), 3002);
    assert_eq!(PayrollError::AccountDidNotDeserialize.code(), 3003);
    assert_eq!(PayrollError::AccountDidNotSerialize.code(), 3004);
    assert_eq!(PayrollError::AccountOwnedByWrongProgram.code(), 3007);
    assert_eq!(PayrollError::InvalidProgramId.code(), 3008);
    assert_eq!(PayrollError::InvalidProgramExecutable.code(), 3009);
    assert_eq!(PayrollError::AccountNotSigner.code(), 3010);
    assert_eq!(PayrollError::AccountNotInitialized.code(), 3012);
}
