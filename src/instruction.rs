//! Instruction data: an 8-byte tag naming the instruction, then its
//! arguments in the binary layout of [`crate::codec`].
use vstd::prelude::*;
use vstd::string::StringSliceAdditionalSpecFns;
use crate::account::status_of;
use crate::codec::{
    bool_at, bool_bytes, i64_at, i64_bytes, key_at, read_bool, read_i64, read_key, read_string,
    read_u64, string_at, string_bytes, string_end, string_fits_at, u32_at, u64_at, u64_bytes, utf8_len,
    write_bool, write_i64, write_key, write_string, write_u64, bytes_equal,
};
use crate::discriminator::{instruction_tag, instruction_tag_of, DISCRIMINATOR_LEN};
use crate::error::PayrollError;
use crate::key::Pubkey;
use crate::pda::seeds_view;

verus! {

/// Number of instructions of the program.
pub const INSTRUCTION_COUNT: usize = 8;

/// An instruction with its arguments.
pub enum PayrollInstruction {
    InitializeEmployer,
    RegisterEmployee { name: String, position: String, hourly_rate: u64, employee_wallet: Pubkey },
    UpdateEmployee {
        name: String,
        position: String,
        hourly_rate: u64,
        is_active: bool,
        employee_wallet: Pubkey,
    },
    CheckIn { employee_wallet: Pubkey, session_id: u64, timestamp: i64 },
    CheckOut { employee_wallet: Pubkey, session_id: u64, timestamp: i64 },
    CreatePayrollBatch { batch_id: u64, timestamp: i64 },
    ProcessPayroll { batch_id: u64, timestamp: i64 },
    MarkSessionPaid { employee_wallet: Pubkey, session_id: u64 },
}

/// The contents of an instruction.
pub enum InstructionView {
    InitializeEmployer,
    RegisterEmployee { name: Seq<char>, position: Seq<char>, hourly_rate: u64, employee_wallet: Seq<u8> },
    UpdateEmployee {
        name: Seq<char>,
        position: Seq<char>,
        hourly_rate: u64,
        is_active: bool,
        employee_wallet: Seq<u8>,
    },
    CheckIn { employee_wallet: Seq<u8>, session_id: u64, timestamp: i64 },
    CheckOut { employee_wallet: Seq<u8>, session_id: u64, timestamp: i64 },
    CreatePayrollBatch { batch_id: u64, timestamp: i64 },
    ProcessPayroll { batch_id: u64, timestamp: i64 },
    MarkSessionPaid { employee_wallet: Seq<u8>, session_id: u64 },
}

impl View for PayrollInstruction {
    type V = InstructionView;

    open spec fn view(&self) -> InstructionView {
        match self {
            PayrollInstruction::InitializeEmployer => InstructionView::InitializeEmployer,
            PayrollInstruction::RegisterEmployee { name, position, hourly_rate, employee_wallet } =>
                InstructionView::RegisterEmployee {
                name: name@,
                position: position@,
                hourly_rate: *hourly_rate,
                employee_wallet: employee_wallet@,
            },
            PayrollInstruction::UpdateEmployee {
                name,
                position,
                hourly_rate,
                is_active,
                employee_wallet,
            } => InstructionView::UpdateEmployee {
                name: name@,
                position: position@,
                hourly_rate: *hourly_rate,
                is_active: *is_active,
                employee_wallet: employee_wallet@,
            },
            PayrollInstruction::CheckIn { employee_wallet, session_id, timestamp } =>
                InstructionView::CheckIn {
                employee_wallet: employee_wallet@,
                session_id: *session_id,
                timestamp: *timestamp,
            },
            PayrollInstruction::CheckOut { employee_wallet, session_id, timestamp } =>
                InstructionView::CheckOut {
                employee_wallet: employee_wallet@,
                session_id: *session_id,
                timestamp: *timestamp,
            },
            PayrollInstruction::CreatePayrollBatch { batch_id, timestamp } =>
                InstructionView::CreatePayrollBatch { batch_id: *batch_id, timestamp: *timestamp },
            PayrollInstruction::ProcessPayroll { batch_id, timestamp } =>
                InstructionView::ProcessPayroll { batch_id: *batch_id, timestamp: *timestamp },
            PayrollInstruction::MarkSessionPaid { employee_wallet, session_id } =>
                InstructionView::MarkSessionPaid {
                employee_wallet: employee_wallet@,
                session_id: *session_id,
            },
        }
    }
}

/// The tags of the instructions, in the order of [`InstructionView`]'s variants.
pub open spec fn instruction_tags() -> Seq<Seq<u8>> {
    seq![
        instruction_tag_of("initialize_employer".spec_bytes()),
        instruction_tag_of("register_employee".spec_bytes()),
        instruction_tag_of("update_employee".spec_bytes()),
        instruction_tag_of("check_in".spec_bytes()),
        instruction_tag_of("check_out".spec_bytes()),
        instruction_tag_of("create_payroll_batch".spec_bytes()),
        instruction_tag_of("process_payroll".spec_bytes()),
        instruction_tag_of("mark_session_paid".spec_bytes()),
    ]
}

/// The position of the first tag from `i` on that equals `t`.
pub open spec fn tag_index_from(tags: Seq<Seq<u8>>, t: Seq<u8>, i: int) -> Option<int>
    decreases tags.len() - i,
{
    if i < 0 || i >= tags.len() {
        None
    } else if tags[i] == t {
        Some(i)
    } else {
        tag_index_from(tags, t, i + 1)
    }
}

/// The instruction that the tag opening `data` names, by its position in `tags`.
pub open spec fn tag_index(data: Seq<u8>, tags: Seq<Seq<u8>>) -> Option<int> {
    tag_index_from(tags, data.subrange(0, 8), 0)
}

/// Whether the arguments of instruction `k` decode from `data`, after its tag.
pub open spec fn args_ok(k: int, data: Seq<u8>) -> bool {
    let e1 = string_end(data, 8);
    let e2 = string_end(data, e1);
    if k == 1 {
        string_fits_at(data, 8) && string_fits_at(data, e1) && e2 + 40 <= data.len()
    } else if k == 2 {
        string_fits_at(data, 8) && string_fits_at(data, e1) && e2 + 41 <= data.len() && data[e2 + 8] <= 1
    } else if k == 3 || k == 4 {
        56 <= data.len()
    } else if k == 5 || k == 6 {
        24 <= data.len()
    } else if k == 7 {
        48 <= data.len()
    } else {
        true
    }
}

/// The instruction `k` with the arguments read from `data`, after its tag.
pub open spec fn args_of(k: int, data: Seq<u8>) -> InstructionView {
    let e1 = string_end(data, 8);
    let e2 = string_end(data, e1);
    if k == 1 {
        InstructionView::RegisterEmployee {
            name: string_at(data, 8),
            position: string_at(data, e1),
            hourly_rate: u64_at(data, e2),
            employee_wallet: key_at(data, e2 + 8),
        }
    } else if k == 2 {
        InstructionView::UpdateEmployee {
            name: string_at(data, 8),
            position: string_at(data, e1),
            hourly_rate: u64_at(data, e2),
            is_active: bool_at(data, e2 + 8),
            employee_wallet: key_at(data, e2 + 9),
        }
    } else if k == 3 {
        InstructionView::CheckIn {
            employee_wallet: key_at(data, 8),
            session_id: u64_at(data, 40),
            timestamp: i64_at(data, 48),
        }
    } else if k == 4 {
        InstructionView::CheckOut {
            employee_wallet: key_at(data, 8),
            session_id: u64_at(data, 40),
            timestamp: i64_at(data, 48),
        }
    } else if k == 5 {
        InstructionView::CreatePayrollBatch { batch_id: u64_at(data, 8), timestamp: i64_at(data, 16) }
    } else if k == 6 {
        InstructionView::ProcessPayroll { batch_id: u64_at(data, 8), timestamp: i64_at(data, 16) }
    } else if k == 7 {
        InstructionView::MarkSessionPaid { employee_wallet: key_at(data, 8), session_id: u64_at(data, 40) }
    } else {
        InstructionView::InitializeEmployer
    }
}

/// Whether instruction data decodes against `tags`, and if not, why.
pub open spec fn decode_status(data: Seq<u8>, tags: Seq<Seq<u8>>) -> Result<(), PayrollError> {
    if data.len() < 8 {
        Err(PayrollError::InstructionMissing)
    } else {
        match tag_index(data, tags) {
            None => Err(PayrollError::InstructionFallbackNotFound),
            Some(k) => if args_ok(k, data) {
                Ok(())
            } else {
                Err(PayrollError::InstructionDidNotDeserialize)
            },
        }
    }
}

/// The instruction that data which decodes against `tags` holds.
pub open spec fn decoded(data: Seq<u8>, tags: Seq<Seq<u8>>) -> InstructionView {
    args_of(tag_index(data, tags).unwrap(), data)
}

/// The position of instruction `v` among [`InstructionView`]'s variants.
pub open spec fn variant_index(v: InstructionView) -> int {
    match v {
        InstructionView::InitializeEmployer => 0,
        InstructionView::RegisterEmployee { .. } => 1,
        InstructionView::UpdateEmployee { .. } => 2,
        InstructionView::CheckIn { .. } => 3,
        InstructionView::CheckOut { .. } => 4,
        InstructionView::CreatePayrollBatch { .. } => 5,
        InstructionView::ProcessPayroll { .. } => 6,
        InstructionView::MarkSessionPaid { .. } => 7,
    }
}

/// The encoded arguments of instruction `v`, in declaration order.
pub open spec fn args_bytes(v: InstructionView) -> Seq<u8> {
    match v {
        InstructionView::InitializeEmployer => Seq::empty(),
        InstructionView::RegisterEmployee { name, position, hourly_rate, employee_wallet } =>
            string_bytes(name) + string_bytes(position) + u64_bytes(hourly_rate) + employee_wallet,
        InstructionView::UpdateEmployee {
            name,
            position,
            hourly_rate,
            is_active,
            employee_wallet,
        } => string_bytes(name) + string_bytes(position) + u64_bytes(hourly_rate) + bool_bytes(
            is_active,
        ) + employee_wallet,
        InstructionView::CheckIn { employee_wallet, session_id, timestamp } => employee_wallet
            + u64_bytes(session_id) + i64_bytes(timestamp),
        InstructionView::CheckOut { employee_wallet, session_id, timestamp } => employee_wallet
            + u64_bytes(session_id) + i64_bytes(timestamp),
        InstructionView::CreatePayrollBatch { batch_id, timestamp } => u64_bytes(batch_id)
            + i64_bytes(timestamp),
        InstructionView::ProcessPayroll { batch_id, timestamp } => u64_bytes(batch_id) + i64_bytes(
            timestamp,
        ),
        InstructionView::MarkSessionPaid { employee_wallet, session_id } => employee_wallet
            + u64_bytes(session_id),
    }
}

/// Whether instruction `v` can be encoded: keys of 32 bytes, and strings whose
/// length fits their 4-byte count.
pub open spec fn encodable(v: InstructionView) -> bool {
    match v {
        InstructionView::InitializeEmployer => true,
        InstructionView::RegisterEmployee { name, position, employee_wallet, .. } => utf8_len(name)
            <= u32::MAX && utf8_len(position) <= u32::MAX && employee_wallet.len() == 32,
        InstructionView::UpdateEmployee { name, position, employee_wallet, .. } => utf8_len(name)
            <= u32::MAX && utf8_len(position) <= u32::MAX && employee_wallet.len() == 32,
        InstructionView::CheckIn { employee_wallet, .. } => employee_wallet.len() == 32,
        InstructionView::CheckOut { employee_wallet, .. } => employee_wallet.len() == 32,
        InstructionView::CreatePayrollBatch { .. } => true,
        InstructionView::ProcessPayroll { .. } => true,
        InstructionView::MarkSessionPaid { employee_wallet, .. } => employee_wallet.len() == 32,
    }
}

/// Whether the tags can tell every instruction apart: 8 bytes each, no two equal.
pub open spec fn tags_distinct(tags: Seq<Seq<u8>>) -> bool {
    &&& tags.len() == INSTRUCTION_COUNT
    &&& forall|i: int| 0 <= i < tags.len() ==> #[trigger] tags[i].len() == 8
    &&& forall|i: int, j: int| 0 <= i < tags.len() && 0 <= j < tags.len() && i != j ==> tags[i] != tags[j]
}

proof fn lemma_tag_found(tags: Seq<Seq<u8>>, t: Seq<u8>, i: int, k: int)
    requires
        0 <= i <= k < tags.len(),
        tags[k] == t,
        forall|j: int| i <= j < k ==> tags[j] != t,
    ensures
        tag_index_from(tags, t, i) == Some(k),
    decreases k - i,
{
    if i < k {
        lemma_tag_found(tags, t, i + 1, k);
    }
}

proof fn lemma_suffix_at(data: Seq<u8>, off: int, a: Seq<u8>)
    requires
        0 <= off <= data.len(),
        data.subrange(off, data.len() as int) == a,
    ensures
        data.len() == off + a.len(),
        forall|i: int| 0 <= i < a.len() ==> data[off + i] == #[trigger] a[i],
{
    assert forall|i: int| 0 <= i < a.len() implies data[off + i] == #[trigger] a[i] by {
        assert(data.subrange(off, data.len() as int)[i] == data[off + i]);
    }
}

proof fn lemma_string_read_back(data: Seq<u8>, pos: int, s: Seq<char>, rest: Seq<u8>)
    requires
        0 <= pos <= data.len(),
        utf8_len(s) <= u32::MAX,
        data.subrange(pos, data.len() as int) == string_bytes(s) + rest,
    ensures
        string_fits_at(data, pos),
        string_end(data, pos) == pos + 4 + utf8_len(s),
        string_at(data, pos) == s,
        data.subrange(string_end(data, pos), data.len() as int) == rest,
{
    vstd::bytes::lemma_auto_spec_u32_to_from_le_bytes();
    vstd::utf8::encode_utf8_valid_utf8(s);
    vstd::utf8::encode_utf8_decode_utf8(s);
    let n = utf8_len(s) as u32;
    let m: int = utf8_len(s) as int;
    let enc = string_bytes(s) + rest;
    let len_bytes = vstd::bytes::spec_u32_to_le_bytes(n);
    assert(len_bytes.len() == 4);
    lemma_suffix_at(data, pos, enc);
    assert(data.subrange(pos, pos + 4) =~= len_bytes);
    assert(u32_at(data, pos) == m);
    let tail = data.subrange(pos, data.len() as int);
    assert(string_end(data, pos) == pos + 4 + utf8_len(s));
    assert(data.subrange(pos + 4, string_end(data, pos)) =~= tail.subrange(4, 4 + m));
    assert(tail.subrange(4, 4 + m) == vstd::utf8::encode_utf8(s));
    assert(data.subrange(string_end(data, pos), data.len() as int) =~= tail.subrange(4 + m, tail.len() as int));
    assert(tail.subrange(4 + m, tail.len() as int) =~= rest);
}

proof fn lemma_fixed_read_back(data: Seq<u8>, pos: int, x: u64, y: i64)
    requires
        0 <= pos,
        pos + 8 <= data.len(),
    ensures
        data.subrange(pos, pos + 8) == u64_bytes(x) ==> u64_at(data, pos) == x,
        data.subrange(pos, pos + 8) == i64_bytes(y) ==> i64_at(data, pos) == y,
{
    vstd::bytes::lemma_auto_spec_u64_to_from_le_bytes();
    let u = y as u64;
    assert((u as i64) == y) by (bit_vector)
        requires
            u == y as u64,
    ;
}

proof fn lemma_employee_args_read_back(v: InstructionView, data: Seq<u8>)
    requires
        v is RegisterEmployee || v is UpdateEmployee,
        encodable(v),
        data.len() >= 8,
        data.subrange(8, data.len() as int) == args_bytes(v),
    ensures
        args_ok(variant_index(v), data),
        args_of(variant_index(v), data) == v,
{
    let a = args_bytes(v);
    lemma_suffix_at(data, 8, a);
    match v {
        InstructionView::RegisterEmployee { name, position, hourly_rate, employee_wallet } => {
            let rest2 = u64_bytes(hourly_rate) + employee_wallet;
            let rest1 = string_bytes(position) + rest2;
            assert(a =~= string_bytes(name) + rest1);
            lemma_string_read_back(data, 8, name, rest1);
            let e1 = string_end(data, 8);
            lemma_string_read_back(data, e1, position, rest2);
            let e2 = string_end(data, e1);
            crate::codec::lemma_fixed_lens(hourly_rate, 0, false, 0);
            assert(data.subrange(e2, e2 + 8) =~= rest2.subrange(0, 8));
            assert(rest2.subrange(0, 8) =~= u64_bytes(hourly_rate));
            assert(data.subrange(e2 + 8, e2 + 40) =~= rest2.subrange(8, 40));
            assert(rest2.subrange(8, 40) =~= employee_wallet);
            lemma_fixed_read_back(data, e2, hourly_rate, 0);
        },
        InstructionView::UpdateEmployee { name, position, hourly_rate, is_active, employee_wallet } => {
            let rest2 = u64_bytes(hourly_rate) + bool_bytes(is_active) + employee_wallet;
            let rest1 = string_bytes(position) + rest2;
            assert(a =~= string_bytes(name) + rest1);
            lemma_string_read_back(data, 8, name, rest1);
            let e1 = string_end(data, 8);
            lemma_string_read_back(data, e1, position, rest2);
            let e2 = string_end(data, e1);
            crate::codec::lemma_fixed_lens(hourly_rate, 0, is_active, 0);
            assert(data.subrange(e2, e2 + 8) =~= rest2.subrange(0, 8));
            assert(rest2.subrange(0, 8) =~= u64_bytes(hourly_rate));
            assert(data[e2 + 8] == rest2[8]);
            assert(data.subrange(e2 + 9, e2 + 41) =~= rest2.subrange(9, 41));
            assert(rest2.subrange(9, 41) =~= employee_wallet);
            lemma_fixed_read_back(data, e2, hourly_rate, 0);
        },
        _ => {},
    }
}

proof fn lemma_key_u64_i64_read_back(data: Seq<u8>, w: Seq<u8>, x: u64, y: i64)
    requires
        data.len() >= 8,
        w.len() == 32,
        data.subrange(8, data.len() as int) == w + u64_bytes(x) + i64_bytes(y),
    ensures
        data.len() == 56,
        key_at(data, 8) == w,
        u64_at(data, 40) == x,
        i64_at(data, 48) == y,
{
    crate::codec::lemma_fixed_lens(x, y, false, 0);
    let a = w + u64_bytes(x) + i64_bytes(y);
    lemma_suffix_at(data, 8, a);
    assert(a.subrange(0, 32) =~= w);
    assert(a.subrange(32, 40) =~= u64_bytes(x));
    assert(a.subrange(40, 48) =~= i64_bytes(y));
    assert(data.subrange(8, 40) =~= a.subrange(0, 32));
    assert(data.subrange(40, 48) =~= a.subrange(32, 40));
    assert(data.subrange(48, 56) =~= a.subrange(40, 48));
    lemma_fixed_read_back(data, 40, x, 0);
    lemma_fixed_read_back(data, 48, 0, y);
}

proof fn lemma_u64_i64_read_back(data: Seq<u8>, x: u64, y: i64)
    requires
        data.len() >= 8,
        data.subrange(8, data.len() as int) == u64_bytes(x) + i64_bytes(y),
    ensures
        data.len() == 24,
        u64_at(data, 8) == x,
        i64_at(data, 16) == y,
{
    crate::codec::lemma_fixed_lens(x, y, false, 0);
    let a = u64_bytes(x) + i64_bytes(y);
    lemma_suffix_at(data, 8, a);
    assert(a.subrange(0, 8) =~= u64_bytes(x));
    assert(a.subrange(8, 16) =~= i64_bytes(y));
    assert(data.subrange(8, 16) =~= a.subrange(0, 8));
    assert(data.subrange(16, 24) =~= a.subrange(8, 16));
    lemma_fixed_read_back(data, 8, x, 0);
    lemma_fixed_read_back(data, 16, 0, y);
}

proof fn lemma_key_u64_read_back(data: Seq<u8>, w: Seq<u8>, x: u64)
    requires
        data.len() >= 8,
        w.len() == 32,
        data.subrange(8, data.len() as int) == w + u64_bytes(x),
    ensures
        data.len() == 48,
        key_at(data, 8) == w,
        u64_at(data, 40) == x,
{
    crate::codec::lemma_fixed_lens(x, 0, false, 0);
    let a = w + u64_bytes(x);
    lemma_suffix_at(data, 8, a);
    assert(a.subrange(0, 32) =~= w);
    assert(a.subrange(32, 40) =~= u64_bytes(x));
    assert(data.subrange(8, 40) =~= a.subrange(0, 32));
    assert(data.subrange(40, 48) =~= a.subrange(32, 40));
    lemma_fixed_read_back(data, 40, x, 0);
}

proof fn lemma_fixed_args_read_back(v: InstructionView, data: Seq<u8>)
    requires
        !(v is RegisterEmployee || v is UpdateEmployee),
        encodable(v),
        data.len() >= 8,
        data.subrange(8, data.len() as int) == args_bytes(v),
    ensures
        args_ok(variant_index(v), data),
        args_of(variant_index(v), data) == v,
{
    match v {
        InstructionView::CheckIn { employee_wallet, session_id, timestamp } => {
            lemma_key_u64_i64_read_back(data, employee_wallet, session_id, timestamp);
        },
        InstructionView::CheckOut { employee_wallet, session_id, timestamp } => {
            lemma_key_u64_i64_read_back(data, employee_wallet, session_id, timestamp);
        },
        InstructionView::CreatePayrollBatch { batch_id, timestamp } => {
            lemma_u64_i64_read_back(data, batch_id, timestamp);
        },
        InstructionView::ProcessPayroll { batch_id, timestamp } => {
            lemma_u64_i64_read_back(data, batch_id, timestamp);
        },
        InstructionView::MarkSessionPaid { employee_wallet, session_id } => {
            lemma_key_u64_read_back(data, employee_wallet, session_id);
        },
        _ => {},
    }
}

/// Decoding the data of an instruction gives that instruction back, under
/// tags that tell the instructions apart.
pub proof fn lemma_data_round_trip(v: InstructionView, tags: Seq<Seq<u8>>)
    requires
        tags_distinct(tags),
        encodable(v),
    ensures
        decode_status(tags[variant_index(v)] + args_bytes(v), tags) == Ok::<(), PayrollError>(()),
        decoded(tags[variant_index(v)] + args_bytes(v), tags) == v,
{
    let k = variant_index(v);
    let data = tags[k] + args_bytes(v);
    assert(data.subrange(0, 8) =~= tags[k]);
    lemma_tag_found(tags, tags[k], 0, k);
    assert(data.subrange(8, data.len() as int) =~= args_bytes(v));
    if v is RegisterEmployee || v is UpdateEmployee {
        lemma_employee_args_read_back(v, data);
    } else {
        lemma_fixed_args_read_back(v, data);
    }
}

/// Computes the tags of the instructions.
pub fn instruction_tags_of() -> (r: Vec<Vec<u8>>)
    ensures
        seeds_view(r@) == instruction_tags(),
        r@.len() == INSTRUCTION_COUNT,
{
    let mut r: Vec<Vec<u8>> = Vec::new();
    r.push(instruction_tag("initialize_employer"));
    r.push(instruction_tag("register_employee"));
    r.push(instruction_tag("update_employee"));
    r.push(instruction_tag("check_in"));
    r.push(instruction_tag("check_out"));
    r.push(instruction_tag("create_payroll_batch"));
    r.push(instruction_tag("process_payroll"));
    r.push(instruction_tag("mark_session_paid"));
    assert(seeds_view(r@) =~= instruction_tags());
    r
}

/// Finds the instruction named by the tag that opens `data`.
fn find_tag(data: &[u8], tags: &Vec<Vec<u8>>) -> (r: Option<usize>)
    requires
        data@.len() >= 8,
    ensures
        r matches Some(k) ==> tag_index(data@, seeds_view(tags@)) == Some(k as int),
        r is None ==> tag_index(data@, seeds_view(tags@)) is None,
{
    let _n = data.len();
    let t = vstd::slice::slice_subrange(data, 0, DISCRIMINATOR_LEN);
    let ghost tv = seeds_view(tags@);
    let mut i: usize = 0;
    while i < tags.len()
        invariant
            i <= tags@.len(),
            tv == seeds_view(tags@),
            t@ == data@.subrange(0, 8),
            tag_index_from(tv, t@, 0) == tag_index_from(tv, t@, i as int),
        decreases tags@.len() - i,
    {
        if bytes_equal(tags[i].as_slice(), t) {
            return Some(i);
        }
        i = i + 1;
    }
    None
}

impl PayrollInstruction {
    /// Appends the encoded arguments to `out`.
    pub fn write_args(&self, out: &mut Vec<u8>)
        requires
            encodable(self@),
        ensures
            final(out)@ == old(out)@ + args_bytes(self@),
    {
        match self {
            PayrollInstruction::InitializeEmployer => {
                assert(final(out)@ =~= old(out)@ + args_bytes(self@));
            },
            PayrollInstruction::RegisterEmployee { name, position, hourly_rate, employee_wallet } => {
                write_string(out, name);
                write_string(out, position);
                write_u64(out, *hourly_rate);
                write_key(out, employee_wallet);
                assert(final(out)@ =~= old(out)@ + args_bytes(self@));
            },
            PayrollInstruction::UpdateEmployee {
                name,
                position,
                hourly_rate,
                is_active,
                employee_wallet,
            } => {
                write_string(out, name);
                write_string(out, position);
                write_u64(out, *hourly_rate);
                write_bool(out, *is_active);
                write_key(out, employee_wallet);
                assert(final(out)@ =~= old(out)@ + args_bytes(self@));
            },
            PayrollInstruction::CheckIn { employee_wallet, session_id, timestamp } => {
                write_key(out, employee_wallet);
                write_u64(out, *session_id);
                write_i64(out, *timestamp);
                assert(final(out)@ =~= old(out)@ + args_bytes(self@));
            },
            PayrollInstruction::CheckOut { employee_wallet, session_id, timestamp } => {
                write_key(out, employee_wallet);
                write_u64(out, *session_id);
                write_i64(out, *timestamp);
                assert(final(out)@ =~= old(out)@ + args_bytes(self@));
            },
            PayrollInstruction::CreatePayrollBatch { batch_id, timestamp } => {
                write_u64(out, *batch_id);
                write_i64(out, *timestamp);
                assert(final(out)@ =~= old(out)@ + args_bytes(self@));
            },
            PayrollInstruction::ProcessPayroll { batch_id, timestamp } => {
                write_u64(out, *batch_id);
                write_i64(out, *timestamp);
                assert(final(out)@ =~= old(out)@ + args_bytes(self@));
            },
            PayrollInstruction::MarkSessionPaid { employee_wallet, session_id } => {
                write_key(out, employee_wallet);
                write_u64(out, *session_id);
                assert(final(out)@ =~= old(out)@ + args_bytes(self@));
            },
        }
    }

    /// The position of the instruction among [`InstructionView`]'s variants.
    pub fn index(&self) -> (r: usize)
        ensures
            r == variant_index(self@),
    {
        match self {
            PayrollInstruction::InitializeEmployer => 0,
            PayrollInstruction::RegisterEmployee { .. } => 1,
            PayrollInstruction::UpdateEmployee { .. } => 2,
            PayrollInstruction::CheckIn { .. } => 3,
            PayrollInstruction::CheckOut { .. } => 4,
            PayrollInstruction::CreatePayrollBatch { .. } => 5,
            PayrollInstruction::ProcessPayroll { .. } => 6,
            PayrollInstruction::MarkSessionPaid { .. } => 7,
        }
    }

    /// The instruction data under `tags`: the instruction's tag, then its arguments.
    pub fn to_data_with(&self, tags: &Vec<Vec<u8>>) -> (r: Vec<u8>)
        requires
            tags@.len() == INSTRUCTION_COUNT,
            encodable(self@),
        ensures
            r@ == seeds_view(tags@)[variant_index(self@)] + args_bytes(self@),
    {
        let k = self.index();
        let mut out: Vec<u8> = Vec::new();
        let t = &tags[k];
        crate::codec::append_bytes(&mut out, t.as_slice());
        self.write_args(&mut out);
        out
    }

    /// The instruction data: the instruction's tag, then its arguments.
    pub fn data(&self) -> (r: Vec<u8>)
        requires
            encodable(self@),
        ensures
            r@ == instruction_tags()[variant_index(self@)] + args_bytes(self@),
    {
        let tags = instruction_tags_of();
        self.to_data_with(&tags)
    }
}

/// Decodes instruction data whose tags are `tags`, in the order of
/// [`InstructionView`]'s variants.
pub fn decode_with(data: &[u8], tags: &Vec<Vec<u8>>) -> (r: Result<PayrollInstruction, PayrollError>)
    requires
        tags@.len() == INSTRUCTION_COUNT,
    ensures
        status_of(r) == decode_status(data@, seeds_view(tags@)),
        r matches Ok(ix) ==> ix@ == decoded(data@, seeds_view(tags@)),
{
    if data.len() < DISCRIMINATOR_LEN {
        return Err(PayrollError::InstructionMissing);
    }
    let k = match find_tag(data, tags) {
        Some(k) => k,
        None => {
            return Err(PayrollError::InstructionFallbackNotFound);
        },
    };
    let n = data.len();
    if k == 1 || k == 2 {
        let (name, name_end) = match read_string(data, 8) {
            Some(x) => x,
            None => {
                return Err(PayrollError::InstructionDidNotDeserialize);
            },
        };
        let (position, tail_at) = match read_string(data, name_end) {
            Some(x) => x,
            None => {
                return Err(PayrollError::InstructionDidNotDeserialize);
            },
        };
        if k == 1 {
            if n - tail_at < 40 {
                return Err(PayrollError::InstructionDidNotDeserialize);
            }
            let ix = PayrollInstruction::RegisterEmployee {
                name,
                position,
                hourly_rate: read_u64(data, tail_at),
                employee_wallet: read_key(data, tail_at + 8),
            };
            Ok(ix)
        } else {
            if n - tail_at < 41 {
                return Err(PayrollError::InstructionDidNotDeserialize);
            }
            let is_active = match read_bool(data, tail_at + 8) {
                Some(b) => b,
                None => {
                    return Err(PayrollError::InstructionDidNotDeserialize);
                },
            };
            let ix = PayrollInstruction::UpdateEmployee {
                name,
                position,
                hourly_rate: read_u64(data, tail_at),
                is_active,
                employee_wallet: read_key(data, tail_at + 9),
            };
            Ok(ix)
        }
    } else if k == 3 || k == 4 {
        if n < 56 {
            return Err(PayrollError::InstructionDidNotDeserialize);
        }
        let employee_wallet = read_key(data, 8);
        let session_id = read_u64(data, 40);
        let timestamp = read_i64(data, 48);
        if k == 3 {
            Ok(PayrollInstruction::CheckIn { employee_wallet, session_id, timestamp })
        } else {
            Ok(PayrollInstruction::CheckOut { employee_wallet, session_id, timestamp })
        }
    } else if k == 5 || k == 6 {
        if n < 24 {
            return Err(PayrollError::InstructionDidNotDeserialize);
        }
        let batch_id = read_u64(data, 8);
        let timestamp = read_i64(data, 16);
        if k == 5 {
            Ok(PayrollInstruction::CreatePayrollBatch { batch_id, timestamp })
        } else {
            Ok(PayrollInstruction::ProcessPayroll { batch_id, timestamp })
        }
    } else if k == 7 {
        if n < 48 {
            return Err(PayrollError::InstructionDidNotDeserialize);
        }
        Ok(PayrollInstruction::MarkSessionPaid { employee_wallet: read_key(data, 8), session_id: read_u64(data, 40) })
    } else {
        Ok(PayrollInstruction::InitializeEmployer)
    }
}

/// Decodes instruction data.
pub fn decode(data: &[u8]) -> (r: Result<PayrollInstruction, PayrollError>)
    ensures
        status_of(r) == decode_status(data@, instruction_tags()),
        r matches Ok(ix) ==> ix@ == decoded(data@, instruction_tags()),
{
    let tags = instruction_tags_of();
    decode_with(data, &tags)
}

} // verus!
