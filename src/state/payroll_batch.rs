use vstd::prelude::*;
use vstd::bytes::lemma_auto_spec_u64_to_from_le_bytes;
use vstd::string::StringSliceAdditionalSpecFns;
use crate::account::{
    and_next, check_discriminator, check_owner, discriminator_check, owner_status, status_of,
    AccountInfo,
};
use crate::codec::{
    bool_bytes, i64_bytes, lemma_fixed_lens, lemma_i64_bytes_injective, read_bool, read_i64,
    read_key, read_u64, u64_bytes, write_bool, write_i64, write_key, write_u64,
};
use crate::discriminator::{discriminator, discriminator_of, DISCRIMINATOR_LEN};
use crate::error::PayrollError;
use crate::creation::{pad_to, padded};
use crate::key::Pubkey;

verus! {

/// Bytes allocated to a payroll batch account: discriminator and record.
pub const PAYROLL_BATCH_SPACE: usize = 73;

/// Length of an encoded payroll batch record.
pub const PAYROLL_BATCH_LEN: usize = 65;

/// Offset of the `is_processed` byte in an encoded payroll batch record.
pub const PAYROLL_BATCH_PROCESSED_AT: usize = 32;

/// A batch of payments, created at one time and processed at another.
pub struct PayrollBatch {
    pub batch_id: u64,
    pub total_amount: u64,
    pub created_at: i64,
    pub processed_at: i64,
    pub is_processed: bool,
    pub authority: Pubkey,
}

impl PayrollBatch {
    /// The encoded record: the fields in declaration order.
    pub open spec fn body(self) -> Seq<u8> {
        u64_bytes(self.batch_id) + u64_bytes(self.total_amount) + i64_bytes(self.created_at)
            + i64_bytes(self.processed_at) + bool_bytes(self.is_processed) + self.authority@
    }

    /// The discriminator of payroll batch accounts.
    pub open spec fn spec_discriminator() -> Seq<u8> {
        discriminator_of("PayrollBatch".spec_bytes())
    }

    /// Whether account data that must open with `disc` decodes, and if not, why.
    pub open spec fn decode_status(data: Seq<u8>, disc: Seq<u8>) -> Result<(), PayrollError> {
        and_next(
            discriminator_check(data, disc),
            if data.len() < 8 + PAYROLL_BATCH_LEN || data[8 + PAYROLL_BATCH_PROCESSED_AT] > 1 {
                Err(PayrollError::AccountDidNotDeserialize)
            } else {
                Ok(())
            },
        )
    }

    /// Decoding of an account holding a payroll batch, given its discriminator:
    /// `Ok(b)` holds the record whose encoding follows the discriminator.
    pub open spec fn decodes(data: Seq<u8>, disc: Seq<u8>, r: Result<PayrollBatch, PayrollError>) -> bool {
        match PayrollBatch::decode_status(data, disc) {
            Err(e) => r == Err::<PayrollBatch, PayrollError>(e),
            Ok(_) => r matches Ok(b) && b.body() == data.subrange(8, 8 + PAYROLL_BATCH_LEN),
        }
    }

    /// The record of a freshly created account: every field zero.
    pub fn zeroed() -> (r: PayrollBatch)
        ensures
            r.batch_id == 0,
            r.total_amount == 0,
            r.created_at == 0,
            r.processed_at == 0,
            !r.is_processed,
            r.authority@ == Seq::new(32, |_i: int| 0u8),
    {
        PayrollBatch {
            batch_id: 0,
            total_amount: 0,
            created_at: 0,
            processed_at: 0,
            is_processed: false,
            authority: Pubkey::zeroed(),
        }
    }

    pub proof fn lemma_body_len(self)
        ensures
            self.body().len() == PAYROLL_BATCH_LEN,
            self.body()[PAYROLL_BATCH_PROCESSED_AT as int] <= 1,
    {
        lemma_fixed_lens(self.batch_id, self.created_at, self.is_processed, 0);
        lemma_fixed_lens(self.total_amount, self.processed_at, self.is_processed, 0);
    }

    /// Two payroll batches with the same encoding are the same record, so
    /// decoding an encoded record gives that record back.
    pub proof fn lemma_encoding_injective(a: PayrollBatch, b: PayrollBatch)
        requires
            a.body() == b.body(),
        ensures
            a == b,
    {
        a.lemma_body_len();
        b.lemma_body_len();
        lemma_auto_spec_u64_to_from_le_bytes();
        let x = a.body();
        let y = b.body();
        assert(u64_bytes(a.batch_id) == x.subrange(0, 8));
        assert(u64_bytes(b.batch_id) == y.subrange(0, 8));
        assert(u64_bytes(a.total_amount) == x.subrange(8, 16));
        assert(u64_bytes(b.total_amount) == y.subrange(8, 16));
        assert(i64_bytes(a.created_at) == x.subrange(16, 24));
        assert(i64_bytes(b.created_at) == y.subrange(16, 24));
        assert(i64_bytes(a.processed_at) == x.subrange(24, 32));
        assert(i64_bytes(b.processed_at) == y.subrange(24, 32));
        assert(bool_bytes(a.is_processed) == x.subrange(32, 33));
        assert(bool_bytes(b.is_processed) == y.subrange(32, 33));
        assert(a.authority@ == x.subrange(33, 65));
        assert(b.authority@ == y.subrange(33, 65));
        lemma_i64_bytes_injective(a.created_at, b.created_at);
        lemma_i64_bytes_injective(a.processed_at, b.processed_at);
        assert(a.authority.bytes == b.authority.bytes);
        assert(bool_bytes(a.is_processed)[0] == bool_bytes(b.is_processed)[0]);
    }

    /// Appends the encoded record to `out`.
    pub fn serialize(&self, out: &mut Vec<u8>)
        ensures
            final(out)@ == old(out)@ + self.body(),
    {
        write_u64(out, self.batch_id);
        write_u64(out, self.total_amount);
        write_i64(out, self.created_at);
        write_i64(out, self.processed_at);
        write_bool(out, self.is_processed);
        write_key(out, &self.authority);
        assert(final(out)@ =~= old(out)@ + self.body());
    }

    /// Reads the record that starts at `pos`; `None` where the bytes run out or
    /// the `is_processed` byte is neither 0 nor 1.
    pub fn deserialize(data: &[u8], pos: usize) -> (r: Option<PayrollBatch>)
        ensures
            r is Some <==> pos + PAYROLL_BATCH_LEN <= data@.len() && data@[pos + PAYROLL_BATCH_PROCESSED_AT] <= 1,
            r matches Some(b) ==> b.body() == data@.subrange(pos as int, pos + PAYROLL_BATCH_LEN),
    {
        let n = data.len();
        if pos > n || n - pos < PAYROLL_BATCH_LEN {
            return None;
        }
        let is_processed = match read_bool(data, pos + PAYROLL_BATCH_PROCESSED_AT) {
            Some(b) => b,
            None => {
                return None;
            },
        };
        let b = PayrollBatch {
            batch_id: read_u64(data, pos),
            total_amount: read_u64(data, pos + 8),
            created_at: read_i64(data, pos + 16),
            processed_at: read_i64(data, pos + 24),
            is_processed,
            authority: read_key(data, pos + 33),
        };
        assert(b.body() =~= data@.subrange(pos as int, pos + PAYROLL_BATCH_LEN));
        Some(b)
    }

    /// Decodes account data that must open with `disc`.
    pub fn try_deserialize_with(data: &[u8], disc: &[u8]) -> (r: Result<PayrollBatch, PayrollError>)
        requires
            disc@.len() == 8,
        ensures
            PayrollBatch::decodes(data@, disc@, r),
    {
        match check_discriminator(data, disc) {
            Err(e) => Err(e),
            Ok(()) => match PayrollBatch::deserialize(data, DISCRIMINATOR_LEN) {
                Some(b) => Ok(b),
                None => Err(PayrollError::AccountDidNotDeserialize),
            },
        }
    }

    /// Decodes the data of a payroll batch account.
    pub fn try_deserialize(data: &[u8]) -> (r: Result<PayrollBatch, PayrollError>)
        ensures
            PayrollBatch::decodes(data@, PayrollBatch::spec_discriminator(), r),
    {
        let disc = discriminator("PayrollBatch");
        PayrollBatch::try_deserialize_with(data, disc.as_slice())
    }

    /// Encodes the record behind its discriminator, as stored in the account.
    pub fn try_serialize(&self) -> (r: Vec<u8>)
        ensures
            r@ == PayrollBatch::spec_discriminator() + self.body(),
            r@.len() == PAYROLL_BATCH_SPACE,
    {
        let mut out = discriminator("PayrollBatch");
        self.serialize(&mut out);
        proof {
            self.lemma_body_len();
        }
        out
    }

    /// Whether account `a` holds a payroll batch of this program, and if not, why.
    pub open spec fn load_status(a: AccountInfo, program_id: Seq<u8>) -> Result<(), PayrollError> {
        and_next(owner_status(a, program_id), PayrollBatch::decode_status(a.data@, PayrollBatch::spec_discriminator()))
    }

    /// Reads a payroll batch from an account of this program.
    pub fn load(a: &AccountInfo, program_id: &Pubkey) -> (r: Result<PayrollBatch, PayrollError>)
        ensures
            status_of(r) == PayrollBatch::load_status(*a, program_id@),
            r matches Ok(v) ==> PayrollBatch::decodes(a.data@, PayrollBatch::spec_discriminator(), Ok(v)),
    {
        if let Err(e) = check_owner(a, program_id) {
            return Err(e);
        }
        PayrollBatch::try_deserialize(a.data.as_slice())
    }

    /// The encoding of a record whose fields are all zero.
    pub open spec fn zeroed_body() -> Seq<u8> {
        u64_bytes(0) + u64_bytes(0) + i64_bytes(0) + i64_bytes(0) + bool_bytes(false) + Seq::new(
            32,
            |_i: int| 0u8,
        )
    }

    /// The data of a newly created payroll batch account: the discriminator and
    /// the zeroed record, filling the account's space exactly.
    pub fn new_account_data() -> (r: Vec<u8>)
        ensures
            r@ == padded(PayrollBatch::spec_discriminator() + PayrollBatch::zeroed_body(), PAYROLL_BATCH_SPACE as int),
            r@.len() == PAYROLL_BATCH_SPACE,
    {
        let b = PayrollBatch::zeroed();
        let data = b.try_serialize();
        assert(b.body() =~= PayrollBatch::zeroed_body());
        pad_to(data, PAYROLL_BATCH_SPACE)
    }
}

} // verus!
