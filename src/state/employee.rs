use vstd::prelude::*;
use vstd::bytes::lemma_auto_spec_u64_to_from_le_bytes;
use vstd::string::StringSliceAdditionalSpecFns;
use crate::account::{
    and_next, check_discriminator, check_owner, discriminator_check, owner_status, status_of,
    AccountInfo,
};
use crate::codec::{
    bool_bytes, lemma_fixed_lens, lemma_string_bytes_injective, read_bool, read_key, read_string,
    read_u64, string_bytes, string_end, string_fits_at, u64_bytes, utf8_len, write_bool,
    write_key, write_string, write_u64,
};
use crate::discriminator::{discriminator, discriminator_of, DISCRIMINATOR_LEN};
use crate::error::PayrollError;
use crate::creation::{pad_to, padded};
use crate::key::Pubkey;

verus! {

/// Bytes allocated to an employee account: discriminator and record.
pub const EMPLOYEE_SPACE: usize = 205;

/// Length of an encoded employee record apart from the contents of its two strings.
pub const EMPLOYEE_FIXED_LEN: usize = 97;

/// An employee of the employer, with pay rate and running totals.
pub struct Employee {
    pub name: String,
    pub position: String,
    pub hourly_rate: u64,
    pub total_hours_worked: u64,
    pub total_paid: u64,
    pub authority: Pubkey,
    pub employee_wallet: Pubkey,
    pub is_active: bool,
}

/// The contents of an employee record.
pub struct EmployeeView {
    pub name: Seq<char>,
    pub position: Seq<char>,
    pub hourly_rate: u64,
    pub total_hours_worked: u64,
    pub total_paid: u64,
    pub authority: Seq<u8>,
    pub employee_wallet: Seq<u8>,
    pub is_active: bool,
}

impl View for Employee {
    type V = EmployeeView;

    open spec fn view(&self) -> EmployeeView {
        EmployeeView {
            name: self.name@,
            position: self.position@,
            hourly_rate: self.hourly_rate,
            total_hours_worked: self.total_hours_worked,
            total_paid: self.total_paid,
            authority: self.authority@,
            employee_wallet: self.employee_wallet@,
            is_active: self.is_active,
        }
    }
}

/// The fixed-width fields that follow the two strings.
pub open spec fn employee_tail(e: EmployeeView) -> Seq<u8> {
    u64_bytes(e.hourly_rate) + u64_bytes(e.total_hours_worked) + u64_bytes(e.total_paid)
        + e.authority + e.employee_wallet + bool_bytes(e.is_active)
}

/// The encoded record: the fields in declaration order.
pub open spec fn employee_body(e: EmployeeView) -> Seq<u8> {
    string_bytes(e.name) + string_bytes(e.position) + employee_tail(e)
}

/// Whether a record may be encoded at all: each string's length fits its 4-byte count.
pub open spec fn employee_encodable(e: EmployeeView) -> bool {
    utf8_len(e.name) <= u32::MAX && utf8_len(e.position) <= u32::MAX
}

/// Length of the encoded record.
pub open spec fn employee_body_len(e: EmployeeView) -> int {
    EMPLOYEE_FIXED_LEN + utf8_len(e.name) + utf8_len(e.position)
}

/// Whether the record fits its account behind the discriminator.
pub open spec fn employee_fits(e: EmployeeView) -> bool {
    8 + employee_body_len(e) <= EMPLOYEE_SPACE
}

/// Where the position string starts in a record that starts at `pos`.
pub open spec fn position_at(data: Seq<u8>, pos: int) -> int {
    string_end(data, pos)
}

/// Where the fixed-width fields start in a record that starts at `pos`.
pub open spec fn employee_tail_at(data: Seq<u8>, pos: int) -> int {
    string_end(data, position_at(data, pos))
}

/// Whether a valid employee record starts at `pos`.
pub open spec fn employee_parses_at(data: Seq<u8>, pos: int) -> bool {
    &&& string_fits_at(data, pos)
    &&& string_fits_at(data, position_at(data, pos))
    &&& employee_tail_at(data, pos) + 89 <= data.len()
    &&& data[employee_tail_at(data, pos) + 88] <= 1
}

/// Where a valid employee record that starts at `pos` ends.
pub open spec fn employee_end(data: Seq<u8>, pos: int) -> int {
    employee_tail_at(data, pos) + 89
}

impl Employee {
    /// The discriminator of employee accounts.
    pub open spec fn spec_discriminator() -> Seq<u8> {
        discriminator_of("Employee".spec_bytes())
    }

    /// Whether account data that must open with `disc` decodes, and if not, why.
    pub open spec fn decode_status(data: Seq<u8>, disc: Seq<u8>) -> Result<(), PayrollError> {
        and_next(
            discriminator_check(data, disc),
            if !employee_parses_at(data, 8) {
                Err(PayrollError::AccountDidNotDeserialize)
            } else {
                Ok(())
            },
        )
    }

    /// Decoding of an account holding an employee, given its discriminator:
    /// `Ok(e)` holds the record whose encoding follows the discriminator.
    pub open spec fn decodes(data: Seq<u8>, disc: Seq<u8>, r: Result<Employee, PayrollError>) -> bool {
        match Employee::decode_status(data, disc) {
            Err(e) => r == Err::<Employee, PayrollError>(e),
            Ok(_) => r matches Ok(e) && employee_body(e@) == data.subrange(8, employee_end(data, 8)),
        }
    }

    /// The record of a freshly created account: empty strings, every other field zero.
    pub fn zeroed() -> (r: Employee)
        ensures
            r@.name.len() == 0,
            r@.position.len() == 0,
            r.hourly_rate == 0,
            r.total_hours_worked == 0,
            r.total_paid == 0,
            r.authority@ == Seq::new(32, |_i: int| 0u8),
            r.employee_wallet@ == Seq::new(32, |_i: int| 0u8),
            !r.is_active,
    {
        Employee {
            name: String::new(),
            position: String::new(),
            hourly_rate: 0,
            total_hours_worked: 0,
            total_paid: 0,
            authority: Pubkey::zeroed(),
            employee_wallet: Pubkey::zeroed(),
            is_active: false,
        }
    }

    pub proof fn lemma_body_len(e: EmployeeView)
        requires
            e.authority.len() == 32,
            e.employee_wallet.len() == 32,
        ensures
            employee_tail(e).len() == 89,
            employee_tail(e)[88] <= 1,
            employee_body(e).len() == employee_body_len(e),
    {
        lemma_fixed_lens(e.hourly_rate, 0, e.is_active, utf8_len(e.name) as u32);
        lemma_fixed_lens(e.total_hours_worked, 0, e.is_active, utf8_len(e.position) as u32);
        lemma_fixed_lens(e.total_paid, 0, e.is_active, 0);
    }

    /// Two employees with the same encoding are the same record, so decoding an
    /// encoded record gives that record back.
    pub proof fn lemma_encoding_injective(a: EmployeeView, b: EmployeeView)
        requires
            employee_body(a) == employee_body(b),
            employee_encodable(a),
            employee_encodable(b),
            a.authority.len() == 32,
            a.employee_wallet.len() == 32,
            b.authority.len() == 32,
            b.employee_wallet.len() == 32,
        ensures
            a == b,
    {
        Employee::lemma_body_len(a);
        Employee::lemma_body_len(b);
        lemma_auto_spec_u64_to_from_le_bytes();
        let ra = string_bytes(a.position) + employee_tail(a);
        let rb = string_bytes(b.position) + employee_tail(b);
        assert(employee_body(a) =~= string_bytes(a.name) + ra);
        assert(employee_body(b) =~= string_bytes(b.name) + rb);
        lemma_string_bytes_injective(a.name, b.name, ra, rb);
        lemma_string_bytes_injective(a.position, b.position, employee_tail(a), employee_tail(b));
        let x = employee_tail(a);
        let y = employee_tail(b);
        assert(u64_bytes(a.hourly_rate) == x.subrange(0, 8));
        assert(u64_bytes(b.hourly_rate) == y.subrange(0, 8));
        assert(u64_bytes(a.total_hours_worked) == x.subrange(8, 16));
        assert(u64_bytes(b.total_hours_worked) == y.subrange(8, 16));
        assert(u64_bytes(a.total_paid) == x.subrange(16, 24));
        assert(u64_bytes(b.total_paid) == y.subrange(16, 24));
        assert(a.authority == x.subrange(24, 56));
        assert(b.authority == y.subrange(24, 56));
        assert(a.employee_wallet == x.subrange(56, 88));
        assert(b.employee_wallet == y.subrange(56, 88));
        assert(bool_bytes(a.is_active) == x.subrange(88, 89));
        assert(bool_bytes(b.is_active) == y.subrange(88, 89));
        assert(bool_bytes(a.is_active)[0] == bool_bytes(b.is_active)[0]);
    }

    /// An employee record fits its account exactly when its name and position
    /// together take at most 100 bytes of UTF-8.
    pub proof fn lemma_fits_iff_strings_short(e: EmployeeView)
        ensures
            employee_fits(e) <==> utf8_len(e.name) + utf8_len(e.position) <= 100,
    {
    }

    /// Whether the record fits its account behind the discriminator.
    pub fn fits_space(&self) -> (r: bool)
        ensures
            r == employee_fits(self@),
    {
        let n = self.name.as_str().as_bytes().len();
        let p = self.position.as_str().as_bytes().len();
        n <= EMPLOYEE_SPACE && p <= EMPLOYEE_SPACE && DISCRIMINATOR_LEN + EMPLOYEE_FIXED_LEN + n + p
            <= EMPLOYEE_SPACE
    }

    /// Appends the encoded record to `out`.
    pub fn serialize(&self, out: &mut Vec<u8>)
        requires
            employee_encodable(self@),
        ensures
            final(out)@ == old(out)@ + employee_body(self@),
    {
        write_string(out, &self.name);
        write_string(out, &self.position);
        write_u64(out, self.hourly_rate);
        write_u64(out, self.total_hours_worked);
        write_u64(out, self.total_paid);
        write_key(out, &self.authority);
        write_key(out, &self.employee_wallet);
        write_bool(out, self.is_active);
        assert(final(out)@ =~= old(out)@ + employee_body(self@));
    }

    /// Reads the record that starts at `pos` and the position after it.
    pub fn deserialize(data: &[u8], pos: usize) -> (r: Option<(Employee, usize)>)
        ensures
            r is Some <==> employee_parses_at(data@, pos as int),
            r matches Some((e, end)) ==> end == employee_end(data@, pos as int) && employee_body(e@)
                == data@.subrange(pos as int, end as int),
    {
        let (name, name_end) = match read_string(data, pos) {
            Some(x) => x,
            None => {
                return None;
            },
        };
        let (position, tail_at) = match read_string(data, name_end) {
            Some(x) => x,
            None => {
                return None;
            },
        };
        let n = data.len();
        if n - tail_at < 89 {
            return None;
        }
        let is_active = match read_bool(data, tail_at + 88) {
            Some(b) => b,
            None => {
                return None;
            },
        };
        let e = Employee {
            name,
            position,
            hourly_rate: read_u64(data, tail_at),
            total_hours_worked: read_u64(data, tail_at + 8),
            total_paid: read_u64(data, tail_at + 16),
            authority: read_key(data, tail_at + 24),
            employee_wallet: read_key(data, tail_at + 56),
            is_active,
        };
        assert(employee_body(e@) =~= data@.subrange(pos as int, tail_at + 89));
        Some((e, tail_at + 89))
    }

    /// Decodes account data that must open with `disc`.
    pub fn try_deserialize_with(data: &[u8], disc: &[u8]) -> (r: Result<Employee, PayrollError>)
        requires
            disc@.len() == 8,
        ensures
            Employee::decodes(data@, disc@, r),
    {
        match check_discriminator(data, disc) {
            Err(e) => Err(e),
            Ok(()) => match Employee::deserialize(data, DISCRIMINATOR_LEN) {
                Some((e, _)) => Ok(e),
                None => Err(PayrollError::AccountDidNotDeserialize),
            },
        }
    }

    /// Decodes the data of an employee account.
    pub fn try_deserialize(data: &[u8]) -> (r: Result<Employee, PayrollError>)
        ensures
            Employee::decodes(data@, Employee::spec_discriminator(), r),
    {
        let disc = discriminator("Employee");
        Employee::try_deserialize_with(data, disc.as_slice())
    }

    /// Encodes the record behind its discriminator, as stored in the account;
    /// fails where the strings are too long for the account's space.
    pub fn try_serialize(&self) -> (r: Result<Vec<u8>, PayrollError>)
        ensures
            r is Ok <==> employee_fits(self@),
            r matches Ok(v) ==> v@ == Employee::spec_discriminator() + employee_body(self@),
            r matches Ok(v) ==> v@.len() == DISCRIMINATOR_LEN + employee_body(self@).len(),
            r matches Err(e) ==> e == PayrollError::AccountDidNotSerialize,
    {
        if !self.fits_space() {
            return Err(PayrollError::AccountDidNotSerialize);
        }
        let mut out = discriminator("Employee");
        self.serialize(&mut out);
        Ok(out)
    }

    /// Whether account `a` holds an employee of this program, and if not, why.
    pub open spec fn load_status(a: AccountInfo, program_id: Seq<u8>) -> Result<(), PayrollError> {
        and_next(owner_status(a, program_id), Employee::decode_status(a.data@, Employee::spec_discriminator()))
    }

    /// Reads an employee from an account of this program.
    pub fn load(a: &AccountInfo, program_id: &Pubkey) -> (r: Result<Employee, PayrollError>)
        ensures
            status_of(r) == Employee::load_status(*a, program_id@),
            r matches Ok(v) ==> Employee::decodes(a.data@, Employee::spec_discriminator(), Ok(v)),
    {
        if let Err(e) = check_owner(a, program_id) {
            return Err(e);
        }
        Employee::try_deserialize(a.data.as_slice())
    }

    /// The contents of a record with empty strings and every other field zero.
    pub open spec fn zeroed_view() -> EmployeeView {
        EmployeeView {
            name: Seq::empty(),
            position: Seq::empty(),
            hourly_rate: 0,
            total_hours_worked: 0,
            total_paid: 0,
            authority: Seq::new(32, |_i: int| 0u8),
            employee_wallet: Seq::new(32, |_i: int| 0u8),
            is_active: false,
        }
    }

    /// The data of a newly created employee account: the discriminator and the
    /// zeroed record, then zero bytes up to the account's space.
    pub fn new_account_data() -> (r: Vec<u8>)
        ensures
            r@ == padded(Employee::spec_discriminator() + employee_body(Employee::zeroed_view()), EMPLOYEE_SPACE as int),
            r@.len() == EMPLOYEE_SPACE,
    {
        let e = Employee::zeroed();
        assert(e@.name =~= Seq::<char>::empty());
        assert(e@.position =~= Seq::<char>::empty());
        assert(e@ == Employee::zeroed_view());
        proof {
            Employee::lemma_body_len(e@);
            assert(utf8_len(Seq::<char>::empty()) == 0);
        }
        match e.try_serialize() {
            Ok(data) => pad_to(data, EMPLOYEE_SPACE),
            Err(_) => {
                assert(false);
                Vec::new()
            },
        }
    }
}

} // verus!
