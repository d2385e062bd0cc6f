//! The 8-byte tags that identify account types and instructions: the first
//! bytes of the SHA-256 digest of `account:<TypeName>` or `global:<instruction>`.
use vstd::prelude::*;
use vstd::string::StringSliceAdditionalSpecFns;
use vstd::array::array_as_slice;
use vstd::slice::slice_subrange;
use crate::codec::append_bytes;

verus! {

/// Length of an account discriminator or instruction tag.
pub const DISCRIMINATOR_LEN: usize = 8;

/// The SHA-256 digest of a byte string.
pub uninterp spec fn sha256_of(data: Seq<u8>) -> Seq<u8>;

/// Relies on solana_program::hash::hash: the SHA-256 digest of the bytes.
#[verifier::external_body]
fn sha256(data: &[u8]) -> (r: [u8; 32])
    ensures
        r@ == sha256_of(data@),
{
    anchor_lang::solana_program::hash::hash(data).to_bytes()
}

/// The bytes `account:` that prefix an account type name in the digest input.
pub open spec fn account_prefix() -> Seq<u8> {
    seq![97u8, 99u8, 99u8, 111u8, 117u8, 110u8, 116u8, 58u8]
}

/// The bytes `global:` that prefix an instruction name in the digest input.
pub open spec fn global_prefix() -> Seq<u8> {
    seq![103u8, 108u8, 111u8, 98u8, 97u8, 108u8, 58u8]
}

/// The first 8 bytes of the digest of `prefix` followed by `name`.
pub open spec fn tag_of(prefix: Seq<u8>, name: Seq<u8>) -> Seq<u8> {
    sha256_of(prefix + name).subrange(0, 8)
}

/// Discriminator of the account type whose name has the given UTF-8 bytes.
pub open spec fn discriminator_of(account_name: Seq<u8>) -> Seq<u8> {
    tag_of(account_prefix(), account_name)
}

/// Tag of the instruction whose name has the given UTF-8 bytes.
pub open spec fn instruction_tag_of(instruction_name: Seq<u8>) -> Seq<u8> {
    tag_of(global_prefix(), instruction_name)
}

fn tag(prefix: &[u8], name: &str) -> (r: Vec<u8>)
    ensures
        r@ == tag_of(prefix@, name.spec_bytes()),
        r@.len() == DISCRIMINATOR_LEN,
{
    let mut preimage: Vec<u8> = Vec::new();
    append_bytes(&mut preimage, prefix);
    append_bytes(&mut preimage, name.as_bytes());
    let digest = sha256(preimage.as_slice());
    let mut r: Vec<u8> = Vec::new();
    append_bytes(&mut r, slice_subrange(array_as_slice(&digest), 0, DISCRIMINATOR_LEN));
    r
}

/// Computes the discriminator of the account type named by `account_name`.
pub fn discriminator(account_name: &str) -> (r: Vec<u8>)
    ensures
        r@ == discriminator_of(account_name.spec_bytes()),
        r@.len() == DISCRIMINATOR_LEN,
{
    let prefix: Vec<u8> = vec![97u8, 99u8, 99u8, 111u8, 117u8, 110u8, 116u8, 58u8];
    assert(prefix@ =~= account_prefix());
    tag(prefix.as_slice(), account_name)
}

/// Computes the tag of the instruction named by `instruction_name`.
pub fn instruction_tag(instruction_name: &str) -> (r: Vec<u8>)
    ensures
        r@ == instruction_tag_of(instruction_name.spec_bytes()),
        r@.len() == DISCRIMINATOR_LEN,
{
    let prefix: Vec<u8> = vec![103u8, 108u8, 111u8, 98u8, 97u8, 108u8, 58u8];
    assert(prefix@ =~= global_prefix());
    tag(prefix.as_slice(), instruction_name)
}

} // verus!
