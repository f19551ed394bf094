//! Deterministic child-address derivation: the salt of each launch's pair
//! and market-maker contract is built from the launch's sequence number, so
//! the addresses are predictable before creation. The hashing itself is the
//! hosting platform's and is relied on through a trusted wrapper.
use vstd::prelude::*;
use crate::error::ContractError;

verus! {

/// The decimal digits of a non-negative number, most significant first, as
/// ASCII bytes.
pub open spec fn dec_digits(n: int) -> Seq<u8>
    decreases n,
{
    if n < 10 {
        seq![(48 + n) as u8]
    } else {
        dec_digits(n / 10) + seq![(48 + n % 10) as u8]
    }
}

/// Writes a number in decimal ASCII.
pub fn to_dec(n: u128) -> (r: Vec<u8>)
    ensures
        r@ == dec_digits(n as int),
    decreases n,
{
    if n < 10 {
        let mut v: Vec<u8> = Vec::new();
        v.push(48 + n as u8);
        proof {
            assert(v@ =~= dec_digits(n as int));
        }
        v
    } else {
        let mut v = to_dec(n / 10);
        v.push(48 + (n % 10) as u8);
        proof {
            assert(v@ =~= dec_digits(n as int));
        }
        v
    }
}

/// The salt bytes of a launch's trading-pair contract.
pub open spec fn fin_salt_spec(idx: u128) -> Seq<u8> {
    seq![
        'k' as u8,
        'e' as u8,
        'i' as u8,
        'k' as u8,
        'o' as u8,
        '_' as u8,
        'f' as u8,
        'i' as u8,
        'n' as u8,
        '_' as u8,
    ] + dec_digits(idx as int)
}

/// The salt bytes of a launch's market-maker contract.
pub open spec fn bow_salt_spec(idx: u128) -> Seq<u8> {
    seq![
        'k' as u8,
        'e' as u8,
        'i' as u8,
        'k' as u8,
        'o' as u8,
        '_' as u8,
        'b' as u8,
        'o' as u8,
        'w' as u8,
        '_' as u8,
    ] + dec_digits(idx as int)
}

/// Builds the trading-pair salt of a launch.
pub fn fin_salt(idx: u128) -> (r: Vec<u8>)
    ensures
        r@ == fin_salt_spec(idx),
{
    let mut v: Vec<u8> = Vec::new();
    v.push('k' as u8);
    v.push('e' as u8);
    v.push('i' as u8);
    v.push('k' as u8);
    v.push('o' as u8);
    v.push('_' as u8);
    v.push('f' as u8);
    v.push('i' as u8);
    v.push('n' as u8);
    v.push('_' as u8);
    let mut d = to_dec(idx);
    v.append(&mut d);
    proof {
        assert(v@ =~= fin_salt_spec(idx));
    }
    v
}

/// Builds the market-maker salt of a launch.
pub fn bow_salt(idx: u128) -> (r: Vec<u8>)
    ensures
        r@ == bow_salt_spec(idx),
{
    let mut v: Vec<u8> = Vec::new();
    v.push('k' as u8);
    v.push('e' as u8);
    v.push('i' as u8);
    v.push('k' as u8);
    v.push('o' as u8);
    v.push('_' as u8);
    v.push('b' as u8);
    v.push('o' as u8);
    v.push('w' as u8);
    v.push('_' as u8);
    let mut d = to_dec(idx);
    v.append(&mut d);
    proof {
        assert(v@ =~= bow_salt_spec(idx));
    }
    v
}

/// The deterministic child address the platform derives from a code
/// checksum, a creator address and a salt.
pub uninterp spec fn instantiate2_addr_of(checksum: Seq<u8>, creator: Seq<u8>, salt: Seq<u8>) -> Seq<
    u8,
>;

/// Relies on `cosmwasm_std::instantiate2_address`: a pure function of the
/// checksum, the creator's canonical address and the salt; it succeeds
/// exactly for a 32-byte checksum and a salt of 1 to 64 bytes, and its
/// result is a 32-byte hash.
#[verifier::external_body]
fn instantiate2_canonical(checksum: &Vec<u8>, creator: &Vec<u8>, salt: &Vec<u8>) -> (r: Option<
    Vec<u8>,
>)
    ensures
        r is Some <==> (checksum@.len() == 32 && 1 <= salt@.len() <= 64),
        r is Some ==> r->Some_0@ == instantiate2_addr_of(checksum@, creator@, salt@)
            && r->Some_0@.len() == 32,
{
    let creator_addr = cosmwasm_std::CanonicalAddr::from(creator.as_slice());
    match cosmwasm_std::instantiate2_address(checksum.as_slice(), &creator_addr, salt.as_slice()) {
        Ok(addr) => Some(addr.as_slice().to_vec()),
        Err(_) => None,
    }
}

/// Derives the canonical addresses the launch's trading pair and market
/// maker will be created under, from the code checksum and the
/// orchestrator's own canonical address.
pub fn derive_pair_addresses(checksum: &Vec<u8>, creator: &Vec<u8>, idx: u128) -> (r: Result<
    (Vec<u8>, Vec<u8>),
    ContractError,
>)
    ensures
        r is Ok <==> (checksum@.len() == 32 && 1 <= fin_salt_spec(idx).len() <= 64 && 1
            <= bow_salt_spec(idx).len() <= 64),
        r is Ok ==> r->Ok_0.0@ == instantiate2_addr_of(checksum@, creator@, fin_salt_spec(idx))
            && r->Ok_0.1@ == instantiate2_addr_of(checksum@, creator@, bow_salt_spec(idx)),
        r is Err ==> r->Err_0 is Std,
{
    let fs = fin_salt(idx);
    let bs = bow_salt(idx);
    let fin = instantiate2_canonical(checksum, creator, &fs);
    let bow = instantiate2_canonical(checksum, creator, &bs);
    match (fin, bow) {
        (Some(f), Some(b)) => Ok((f, b)),
        _ => Err(ContractError::Std { msg: "address derivation failed".to_owned() }),
    }
}

/// The lower-case form of a string; the result depends on the characters
/// alone.
pub uninterp spec fn lower_of(s: Seq<char>) -> Seq<char>;

/// Relies on `str::to_lowercase`: a pure function of the characters; an
/// empty string stays empty.
#[verifier::external_body]
pub(crate) fn lowercase(s: &str) -> (r: String)
    ensures
        r@ == lower_of(s@),
        s@.len() == 0 ==> r@.len() == 0,
{
    s.to_lowercase()
}

} // verus!
