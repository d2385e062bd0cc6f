use vstd::prelude::*;
use vstd::bytes::lemma_auto_spec_u64_to_from_le_bytes;
use vstd::string::StringSliceAdditionalSpecFns;
use crate::account::{
    and_next, check_discriminator, check_owner, discriminator_check, owner_status, status_of,
    AccountInfo,
};
use crate::codec::{
    bool_bytes, i64_bytes, lemma_fixed_lens, lemma_i64_bytes_injective, read_bool, read_i64, read_key, read_u64, u64_bytes,
    write_bool, write_i64, write_key, write_u64,
};
use crate::discriminator::{discriminator, discriminator_of, DISCRIMINATOR_LEN};
use crate::error::PayrollError;
use crate::creation::{pad_to, padded};
use crate::key::Pubkey;

verus! {

/// Bytes allocated to a work session account: discriminator and record.
pub const WORK_SESSION_SPACE: usize = 105;

/// Length of an encoded work session record.
pub const WORK_SESSION_LEN: usize = 97;

/// Offset of the `is_paid` byte in an encoded work session record.
pub const WORK_SESSION_PAID_AT: usize = 56;

/// One stretch of work by an employee, from check-in to check-out.
pub struct WorkSession {
    pub employee: Pubkey,
    pub check_in_time: i64,
    pub check_out_time: i64,
    pub duration: u64,
    pub is_paid: bool,
    pub authority: Pubkey,
    pub session_id: u64,
}

impl WorkSession {
    /// The encoded record: the fields in declaration order.
    pub open spec fn body(self) -> Seq<u8> {
        self.employee@ + i64_bytes(self.check_in_time) + i64_bytes(self.check_out_time) + u64_bytes(
            self.duration,
        ) + bool_bytes(self.is_paid) + self.authority@ + u64_bytes(self.session_id)
    }

    /// The discriminator of work session accounts.
    pub open spec fn spec_discriminator() -> Seq<u8> {
        discriminator_of("WorkSession".spec_bytes())
    }

    /// Whether account data that must open with `disc` decodes, and if not, why.
    pub open spec fn decode_status(data: Seq<u8>, disc: Seq<u8>) -> Result<(), PayrollError> {
        and_next(
            discriminator_check(data, disc),
            if data.len() < 8 + WORK_SESSION_LEN || data[8 + WORK_SESSION_PAID_AT] > 1 {
                Err(PayrollError::AccountDidNotDeserialize)
            } else {
                Ok(())
            },
        )
    }

    /// Decoding of an account holding a work session, given its discriminator:
    /// `Ok(w)` holds the record whose encoding follows the discriminator.
    pub open spec fn decodes(data: Seq<u8>, disc: Seq<u8>, r: Result<WorkSession, PayrollError>) -> bool {
        match WorkSession::decode_status(data, disc) {
            Err(e) => r == Err::<WorkSession, PayrollError>(e),
            Ok(_) => r matches Ok(w) && w.body() == data.subrange(8, 8 + WORK_SESSION_LEN),
        }
    }

    /// The record of a freshly created account: every field zero.
    pub fn zeroed() -> (r: WorkSession)
        ensures
            r.employee@ == Seq::new(32, |_i: int| 0u8),
            r.check_in_time == 0,
            r.check_out_time == 0,
            r.duration == 0,
            !r.is_paid,
            r.authority@ == Seq::new(32, |_i: int| 0u8),
            r.session_id == 0,
    {
        WorkSession {
            employee: Pubkey::zeroed(),
            check_in_time: 0,
            check_out_time: 0,
            duration: 0,
            is_paid: false,
            authority: Pubkey::zeroed(),
            session_id: 0,
        }
    }

    pub proof fn lemma_body_len(self)
        ensures
            self.body().len() == WORK_SESSION_LEN,
            self.body()[WORK_SESSION_PAID_AT as int] <= 1,
    {
        lemma_fixed_lens(self.duration, self.check_in_time, self.is_paid, 0);
        lemma_fixed_lens(self.session_id, self.check_out_time, self.is_paid, 0);
    }

    /// Two work sessions with the same encoding are the same record, so decoding
    /// an encoded record gives that record back.
    pub proof fn lemma_encoding_injective(a: WorkSession, b: WorkSession)
        requires
            a.body() == b.body(),
        ensures
            a == b,
    {
        a.lemma_body_len();
        b.lemma_body_len();
        lemma_auto_spec_u64_to_from_le_bytes();
        let x = a.body();
        let y = b.body();
        assert(a.employee@ == x.subrange(0, 32));
        assert(b.employee@ == y.subrange(0, 32));
        assert(i64_bytes(a.check_in_time) == x.subrange(32, 40));
        assert(i64_bytes(b.check_in_time) == y.subrange(32, 40));
        assert(i64_bytes(a.check_out_time) == x.subrange(40, 48));
        assert(i64_bytes(b.check_out_time) == y.subrange(40, 48));
        assert(u64_bytes(a.duration) == x.subrange(48, 56));
        assert(u64_bytes(b.duration) == y.subrange(48, 56));
        assert(bool_bytes(a.is_paid) == x.subrange(56, 57));
        assert(bool_bytes(b.is_paid) == y.subrange(56, 57));
        assert(a.authority@ == x.subrange(57, 89));
        assert(b.authority@ == y.subrange(57, 89));
        assert(u64_bytes(a.session_id) == x.subrange(89, 97));
        assert(u64_bytes(b.session_id) == y.subrange(89, 97));
        lemma_i64_bytes_injective(a.check_in_time, b.check_in_time);
        lemma_i64_bytes_injective(a.check_out_time, b.check_out_time);
        assert(a.employee.bytes == b.employee.bytes);
        assert(a.authority.bytes == b.authority.bytes);
        assert(bool_bytes(a.is_paid)[0] == bool_bytes(b.is_paid)[0]);
    }

    /// Appends the encoded record to `out`.
    pub fn serialize(&self, out: &mut Vec<u8>)
        ensures
            final(out)@ == old(out)@ + self.body(),
    {
        write_key(out, &self.employee);
        write_i64(out, self.check_in_time);
        write_i64(out, self.check_out_time);
        write_u64(out, self.duration);
        write_bool(out, self.is_paid);
        write_key(out, &self.authority);
        write_u64(out, self.session_id);
        assert(final(out)@ =~= old(out)@ + self.body());
    }

    /// Reads the record that starts at `pos`; `None` where the bytes run out or
    /// the `is_paid` byte is neither 0 nor 1.
    pub fn deserialize(data: &[u8], pos: usize) -> (r: Option<WorkSession>)
        ensures
            r is Some <==> pos + WORK_SESSION_LEN <= data@.len() && data@[pos + WORK_SESSION_PAID_AT] <= 1,
            r matches Some(w) ==> w.body() == data@.subrange(pos as int, pos + WORK_SESSION_LEN),
    {
        let n = data.len();
        if pos > n || n - pos < WORK_SESSION_LEN {
            return None;
        }
        let is_paid = match read_bool(data, pos + WORK_SESSION_PAID_AT) {
            Some(b) => b,
            None => {
                return None;
            },
        };
        let w = WorkSession {
            employee: read_key(data, pos),
            check_in_time: read_i64(data, pos + 32),
            check_out_time: read_i64(data, pos + 40),
            duration: read_u64(data, pos + 48),
            is_paid,
            authority: read_key(data, pos + 57),
            session_id: read_u64(data, pos + 89),
        };
        assert(w.body() =~= data@.subrange(pos as int, pos + WORK_SESSION_LEN));
        Some(w)
    }

    /// Decodes account data that must open with `disc`.
    pub fn try_deserialize_with(data: &[u8], disc: &[u8]) -> (r: Result<WorkSession, PayrollError>)
        requires
            disc@.len() == 8,
        ensures
            WorkSession::decodes(data@, disc@, r),
    {
        match check_discriminator(data, disc) {
            Err(e) => Err(e),
            Ok(()) => match WorkSession::deserialize(data, DISCRIMINATOR_LEN) {
                Some(w) => Ok(w),
                None => Err(PayrollError::AccountDidNotDeserialize),
            },
        }
    }

    /// Decodes the data of a work session account.
    pub fn try_deserialize(data: &[u8]) -> (r: Result<WorkSession, PayrollError>)
        ensures
            WorkSession::decodes(data@, WorkSession::spec_discriminator(), r),
    {
        let disc = discriminator("WorkSession");
        WorkSession::try_deserialize_with(data, disc.as_slice())
    }

    /// Encodes the record behind its discriminator, as stored in the account.
    pub fn try_serialize(&self) -> (r: Vec<u8>)
        ensures
            r@ == WorkSession::spec_discriminator() + self.body(),
            r@.len() == WORK_SESSION_SPACE,
    {
        let mut out = discriminator("WorkSession");
        self.serialize(&mut out);
        proof {
            self.lemma_body_len();
        }
        out
    }

    /// Whether account `a` holds a work session of this program, and if not, why.
    pub open spec fn load_status(a: AccountInfo, program_id: Seq<u8>) -> Result<(), PayrollError> {
        and_next(owner_status(a, program_id), WorkSession::decode_status(a.data@, WorkSession::spec_discriminator()))
    }

    /// Reads a work session from an account of this program.
    pub fn load(a: &AccountInfo, program_id: &Pubkey) -> (r: Result<WorkSession, PayrollError>)
        ensures
            status_of(r) == WorkSession::load_status(*a, program_id@),
            r matches Ok(v) ==> WorkSession::decodes(a.data@, WorkSession::spec_discriminator(), Ok(v)),
    {
        if let Err(e) = check_owner(a, program_id) {
            return Err(e);
        }
        WorkSession::try_deserialize(a.data.as_slice())
    }

    /// The encoding of a record whose fields are all zero.
    pub open spec fn zeroed_body() -> Seq<u8> {
        Seq::new(32, |_i: int| 0u8) + i64_bytes(0) + i64_bytes(0) + u64_bytes(0) + bool_bytes(false)
            + Seq::new(32, |_i: int| 0u8) + u64_bytes(0)
    }

    /// The data of a newly created work session account: the discriminator and
    /// the zeroed record, filling the account's space exactly.
    pub fn new_account_data() -> (r: Vec<u8>)
        ensures
            r@ == padded(WorkSession::spec_discriminator() + WorkSession::zeroed_body(), WORK_SESSION_SPACE as int),
            r@.len() == WORK_SESSION_SPACE,
    {
        let w = WorkSession::zeroed();
        let data = w.try_serialize();
        assert(w.body() =~= WorkSession::zeroed_body());
        pad_to(data, WORK_SESSION_SPACE)
    }
}

} // verus!
