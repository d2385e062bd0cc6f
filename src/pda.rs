//! Program derived addresses: the seeds of each account kind, and the check
//! that an account sits at the address its seeds derive.
use vstd::prelude::*;
use vstd::slice::slice_to_vec;
use vstd::string::StringSliceAdditionalSpecFns;
use crate::codec::{u64_bytes, write_u64};
use crate::error::PayrollError;
use crate::key::Pubkey;

verus! {

/// Most seeds that an address may be derived from, the bump seed included.
pub const MAX_SEEDS: usize = 16;

/// Longest seed, in bytes.
pub const MAX_SEED_LEN: usize = 32;

/// The address and bump seed that the canonical search derives from `seeds`
/// under `program_id`, or `None` where the search finds none.
pub uninterp spec fn program_address_of(seeds: Seq<Seq<u8>>, program_id: Seq<u8>) -> Option<(Seq<u8>, u8)>;

/// Whether the seeds are within the limits of address derivation: room for
/// the bump seed, and no seed over 32 bytes.
pub open spec fn seeds_within_limits(seeds: Seq<Seq<u8>>) -> bool {
    seeds.len() < MAX_SEEDS && forall|i: int| 0 <= i < seeds.len() ==> #[trigger] seeds[i].len() <= MAX_SEED_LEN
}

/// Relies on Pubkey::try_find_program_address: a search that depends on the
/// seeds and program id alone, gives `None` where the seeds are outside the
/// limits, and otherwise tries bump seeds from 255 down to 1.
#[verifier::external_body]
fn find_program_address(seeds: &Vec<Vec<u8>>, program_id: &Pubkey) -> (r: Option<(Pubkey, u8)>)
    ensures
        r is None <==> program_address_of(seeds_view(seeds@), program_id@) is None,
        r matches Some((k, b)) ==> program_address_of(seeds_view(seeds@), program_id@) == Some((k@, b)),
        r matches Some((_, b)) ==> b >= 1,
        !seeds_within_limits(seeds_view(seeds@)) ==> r is None,
{
    let slices: Vec<&[u8]> = seeds.iter().map(|s| s.as_slice()).collect();
    let id = anchor_lang::prelude::Pubkey::new_from_array(program_id.bytes);
    anchor_lang::prelude::Pubkey::try_find_program_address(&slices, &id).map(
        |(k, b)| (Pubkey { bytes: k.to_bytes() }, b),
    )
}

/// The byte strings held by a list of seeds.
pub open spec fn seeds_view(seeds: Seq<Vec<u8>>) -> Seq<Seq<u8>> {
    seeds.map_values(|s: Vec<u8>| s@)
}

pub open spec fn employee_seeds(employee_wallet: Seq<u8>) -> Seq<Seq<u8>> {
    seq!["employee".spec_bytes(), employee_wallet]
}

pub open spec fn work_session_seeds(employee_wallet: Seq<u8>, session_id: u64) -> Seq<Seq<u8>> {
    seq!["work_session".spec_bytes(), employee_wallet, u64_bytes(session_id)]
}

pub open spec fn payroll_batch_seeds(batch_id: u64) -> Seq<Seq<u8>> {
    seq!["payroll_batch".spec_bytes(), u64_bytes(batch_id)]
}

/// Seeds of the employee account of a wallet.
pub fn employee_seeds_of(employee_wallet: &Pubkey) -> (r: Vec<Vec<u8>>)
    ensures
        seeds_view(r@) == employee_seeds(employee_wallet@),
{
    let mut r: Vec<Vec<u8>> = Vec::new();
    r.push(slice_to_vec("employee".as_bytes()));
    r.push(employee_wallet.to_vec());
    assert(seeds_view(r@) =~= employee_seeds(employee_wallet@));
    r
}

/// Seeds of the account of one work session of a wallet.
pub fn work_session_seeds_of(employee_wallet: &Pubkey, session_id: u64) -> (r: Vec<Vec<u8>>)
    ensures
        seeds_view(r@) == work_session_seeds(employee_wallet@, session_id),
{
    let mut r: Vec<Vec<u8>> = Vec::new();
    r.push(slice_to_vec("work_session".as_bytes()));
    r.push(employee_wallet.to_vec());
    let mut id: Vec<u8> = Vec::new();
    write_u64(&mut id, session_id);
    r.push(id);
    assert(seeds_view(r@) =~= work_session_seeds(employee_wallet@, session_id));
    r
}

/// Seeds of the account of a payroll batch.
pub fn payroll_batch_seeds_of(batch_id: u64) -> (r: Vec<Vec<u8>>)
    ensures
        seeds_view(r@) == payroll_batch_seeds(batch_id),
{
    let mut r: Vec<Vec<u8>> = Vec::new();
    r.push(slice_to_vec("payroll_batch".as_bytes()));
    let mut id: Vec<u8> = Vec::new();
    write_u64(&mut id, batch_id);
    r.push(id);
    assert(seeds_view(r@) =~= payroll_batch_seeds(batch_id));
    r
}

/// The outcome of the seeds check of an account at `key`, given what the
/// address search found: the bump seed where the account sits at the found address.
pub open spec fn seeds_outcome(key: Seq<u8>, found: Option<(Seq<u8>, u8)>) -> Result<u8, PayrollError> {
    match found {
        Some((address, bump)) => if address == key {
            Ok(bump)
        } else {
            Err(PayrollError::ConstraintSeeds)
        },
        None => Err(PayrollError::ConstraintSeeds),
    }
}

/// The outcome of the seeds check of an account at `key`, without the bump seed.
pub open spec fn seeds_status(key: Seq<u8>, seeds: Seq<Seq<u8>>, program_id: Seq<u8>) -> Result<(), PayrollError> {
    match seeds_outcome(key, program_address_of(seeds, program_id)) {
        Ok(_) => Ok(()),
        Err(e) => Err(e),
    }
}

/// Decides the seeds check of an account at `key` from the result of the address search.
pub fn check_found_address(key: &Pubkey, found: Option<(Pubkey, u8)>) -> (r: Result<u8, PayrollError>)
    ensures
        r == seeds_outcome(
            key@,
            match found {
                Some((k, b)) => Some((k@, b)),
                None => None,
            },
        ),
{
    match found {
        Some((address, bump)) => if address.same_as(key) {
            Ok(bump)
        } else {
            Err(PayrollError::ConstraintSeeds)
        },
        None => Err(PayrollError::ConstraintSeeds),
    }
}

/// Checks that the account at `key` sits at the address derived from `seeds`
/// under `program_id`, and gives the bump seed.
pub fn check_seeds(key: &Pubkey, seeds: &Vec<Vec<u8>>, program_id: &Pubkey) -> (r: Result<u8, PayrollError>)
    ensures
        r == seeds_outcome(key@, program_address_of(seeds_view(seeds@), program_id@)),
{
    let found = find_program_address(seeds, program_id);
    check_found_address(key, found)
}

/// Seeds of accounts of different kinds never coincide, so no two such
/// accounts can share an address.
pub proof fn lemma_seed_kinds_distinct(wallet: Seq<u8>, session_id: u64, batch_id: u64)
    ensures
        employee_seeds(wallet) != work_session_seeds(wallet, session_id),
        employee_seeds(wallet) != payroll_batch_seeds(batch_id),
        work_session_seeds(wallet, session_id) != payroll_batch_seeds(batch_id),
{
    assert(employee_seeds(wallet).len() != work_session_seeds(wallet, session_id).len());
    assert(work_session_seeds(wallet, session_id).len() != payroll_batch_seeds(batch_id).len());
    broadcast use vstd::string::is_ascii_spec_bytes;

    reveal_strlit("employee");
    reveal_strlit("payroll_batch");
    assert(vstd::string::is_ascii("employee"));
    assert(vstd::string::is_ascii("payroll_batch"));
    assert(employee_seeds(wallet)[0].len() != payroll_batch_seeds(batch_id)[0].len());
}

} // verus!
