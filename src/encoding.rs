//! Payloads of the pool module's entry points: an eight-byte selector
//! followed by each integer argument in eight little-endian bytes.
use vstd::prelude::*;
use vstd::string::StringSliceAdditionalSpecFns;

verus! {

/// The `n` low bytes of `v`, least significant first.
pub open spec fn le_bytes(v: nat, n: nat) -> Seq<u8>
    decreases n,
{
    if n == 0 {
        seq![]
    } else {
        seq![(v % 256) as u8] + le_bytes(v / 256, (n - 1) as nat)
    }
}

/// Appends the eight little-endian bytes of `v`.
pub fn push_u64_le(out: &mut Vec<u8>, v: u64)
    ensures
        final(out)@ == old(out)@ + le_bytes(v as nat, 8),
{
    let mut x: u64 = v;
    let mut i: usize = 0;
    while i < 8
        invariant
            0 <= i <= 8,
            old(out)@ + le_bytes(v as nat, 8) == out@ + le_bytes(x as nat, (8 - i) as nat),
        decreases 8 - i,
    {
        assert(le_bytes(x as nat, (8 - i) as nat) == seq![(x % 256) as u8] + le_bytes(
            (x / 256) as nat,
            (8 - i - 1) as nat,
        ));
        out.push((x % 256) as u8);
        x = x / 256;
        i = i + 1;
        assert(out@ + le_bytes(x as nat, (8 - i) as nat) =~= old(out)@ + le_bytes(v as nat, 8));
    }
    assert(le_bytes(x as nat, 0) =~= seq![]);
    assert(out@ =~= old(out)@ + le_bytes(v as nat, 8));
}

/// The SHA-256 digest of a byte string.
pub uninterp spec fn sha256_of(data: Seq<u8>) -> Seq<u8>;

/// Relies on anchor_lang::solana_program::hash::hash: the SHA-256 digest of
/// the bytes, which depends on them alone.
#[verifier::external_body]
fn sha256_digest(data: &Vec<u8>) -> (r: [u8; 32])
    ensures
        r@ == sha256_of(data@),
{
    anchor_lang::solana_program::hash::hash(data.as_slice()).to_bytes()
}

/// Appends `bytes`.
fn append_bytes(out: &mut Vec<u8>, bytes: &[u8])
    ensures
        final(out)@ == old(out)@ + bytes@,
{
    let mut i: usize = 0;
    while i < bytes.len()
        invariant
            0 <= i <= bytes@.len(),
            out@ == old(out)@ + bytes@.subrange(0, i as int),
        decreases bytes@.len() - i,
    {
        out.push(bytes[i]);
        i = i + 1;
        assert(out@ =~= old(out)@ + bytes@.subrange(0, i as int));
    }
    assert(bytes@.subrange(0, i as int) =~= bytes@);
}

/// The bytes of `namespace:name`, whose digest selects an entry point.
pub open spec fn selector_preimage(namespace: Seq<u8>, name: Seq<u8>) -> Seq<u8> {
    namespace + seq![58u8] + name
}

/// The selector of entry point `name` in `namespace`: the first eight bytes
/// of the SHA-256 digest of `namespace:name`.
pub fn get_function_hash(namespace: &str, name: &str) -> (r: Vec<u8>)
    ensures
        r@ == sha256_of(selector_preimage(namespace.spec_bytes(), name.spec_bytes())).subrange(0, 8),
{
    let mut preimage: Vec<u8> = Vec::new();
    append_bytes(&mut preimage, namespace.as_bytes());
    preimage.push(58u8);
    append_bytes(&mut preimage, name.as_bytes());
    assert(preimage@ =~= selector_preimage(namespace.spec_bytes(), name.spec_bytes()));
    let digest = sha256_digest(&preimage);
    let mut r: Vec<u8> = Vec::new();
    let mut i: usize = 0;
    while i < 8
        invariant
            0 <= i <= 8,
            digest@.len() == 32,
            r@ == digest@.subrange(0, i as int),
        decreases 8 - i,
    {
        r.push(digest[i]);
        i = i + 1;
        assert(r@ =~= digest@.subrange(0, i as int));
    }
    r
}

fn selector_bytes(selector: &[u8]) -> (r: Vec<u8>)
    ensures
        r@ == selector@,
{
    let mut r: Vec<u8> = Vec::new();
    append_bytes(&mut r, selector);
    assert(r@ =~= selector@);
    r
}

/// The payload that creates a pool with `token_a_amount` of the base asset
/// and `token_b_amount` of the token.
pub fn get_pool_create_ix_data(selector: &[u8], token_a_amount: u64, token_b_amount: u64) -> (r:
    Vec<u8>)
    ensures
        r@ == selector@ + le_bytes(token_a_amount as nat, 8) + le_bytes(token_b_amount as nat, 8),
{
    let mut r = selector_bytes(selector);
    push_u64_le(&mut r, token_a_amount);
    push_u64_le(&mut r, token_b_amount);
    r
}

/// The payload that locks `amount` liquidity units in an escrow.
pub fn get_lock_lp_ix_data(selector: &[u8], amount: u64) -> (r: Vec<u8>)
    ensures
        r@ == selector@ + le_bytes(amount as nat, 8),
{
    let mut r = selector_bytes(selector);
    push_u64_le(&mut r, amount);
    r
}

} // verus!
