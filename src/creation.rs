//! Accounts that an instruction opens: what the system program is asked to
//! create, and the bytes the new account holds once the instruction is done.
use vstd::prelude::*;
use crate::error::PayrollError;
use crate::key::Pubkey;
use crate::pda::seeds_view;

verus! {

/// An account to create: at `address`, funded by `payer`, owned by `owner`,
/// with `space` bytes of data that end up holding `data`. A derived address
/// signs its creation with `signer_seeds`, its seeds followed by the bump seed;
/// an ordinary address signs itself and has no seeds.
pub struct AccountCreation {
    pub address: Pubkey,
    pub payer: Pubkey,
    pub owner: Pubkey,
    pub space: usize,
    pub signer_seeds: Vec<Vec<u8>>,
    pub data: Vec<u8>,
}

/// `n` zero bytes.
pub open spec fn zeros(n: int) -> Seq<u8> {
    Seq::new(n as nat, |_i: int| 0u8)
}

/// `prefix` followed by zero bytes up to `space` bytes.
pub open spec fn padded(prefix: Seq<u8>, space: int) -> Seq<u8> {
    prefix + zeros(space - prefix.len())
}

/// The seeds followed by the one-byte bump seed.
pub open spec fn with_bump(seeds: Seq<Seq<u8>>, bump: u8) -> Seq<Seq<u8>> {
    seeds.push(seq![bump])
}

/// The value a successful check gives.
pub open spec fn ok_value(r: Result<u8, PayrollError>) -> u8 {
    match r {
        Ok(b) => b,
        Err(_) => 0,
    }
}

/// Pads `prefix` with zero bytes up to `space` bytes.
pub fn pad_to(prefix: Vec<u8>, space: usize) -> (r: Vec<u8>)
    requires
        prefix@.len() <= space,
    ensures
        r@ == padded(prefix@, space as int),
        r@.len() == space,
{
    let mut r = prefix;
    let ghost start = r@;
    while r.len() < space
        invariant
            start.len() <= r@.len() <= space,
            r@ == start + zeros(r@.len() - start.len()),
        decreases space - r@.len(),
    {
        r.push(0u8);
        assert(r@ =~= start + zeros(r@.len() - start.len()));
    }
    r
}

/// Appends the bump seed to `seeds`.
pub fn push_bump(seeds: Vec<Vec<u8>>, bump: u8) -> (r: Vec<Vec<u8>>)
    ensures
        seeds_view(r@) == with_bump(seeds_view(seeds@), bump),
{
    let mut r = seeds;
    let ghost before = r@;
    let b: Vec<u8> = vec![bump];
    assert(b@ =~= seq![bump]);
    r.push(b);
    assert(seeds_view(r@) =~= with_bump(seeds_view(before), bump));
    r
}

} // verus!
