//! Deterministic, domain-separated derivation of every storage address the
//! engine references: the per-owner record, its two custody vaults, the
//! schedule trigger, and the tick arrays bracketing the pool price.

use vstd::prelude::*;

use crate::address::Address;

verus! {

/// What `Pubkey::try_find_program_address` returns for given seeds and
/// program namespace: the derived address, or nothing when no derivation
/// exists. The value depends on the arguments alone.
pub uninterp spec fn program_address_of(seeds: Seq<Seq<u8>>, program_id: Seq<u8>) -> Option<
    Seq<u8>,
>;

/// What `get_associated_token_address` returns for a wallet and a mint: the
/// custody address for that asset under that wallet. The value depends on the
/// arguments alone.
pub uninterp spec fn associated_token_address_of(wallet: Seq<u8>, mint: Seq<u8>) -> Seq<u8>;

/// What `solana_program::hash::hash` returns: the SHA-256 digest of the input
/// bytes, a value that depends on the input alone.
pub uninterp spec fn sha256_of(data: Seq<u8>) -> Seq<u8>;

/// Relies on `solana_program::pubkey::Pubkey::try_find_program_address`: a
/// pure search over the seed bytes and the program id that returns the
/// derived address and bump, or `None` when no bump is viable, and never
/// fails otherwise. The bump is dropped; callers only ever use the address.
#[verifier::external_body]
fn try_find_program_address(seeds: &Vec<Vec<u8>>, program_id: &Address) -> (r: Option<Address>)
    ensures
        r is Some <==> program_address_of(seeds.deep_view(), program_id@) is Some,
        r matches Some(a) ==> Some(a@) == program_address_of(seeds.deep_view(), program_id@),
{
    let seed_refs: Vec<&[u8]> = seeds.iter().map(|s| s.as_slice()).collect();
    let pk = solana_program::pubkey::Pubkey::new_from_array(program_id.bytes);
    solana_program::pubkey::Pubkey::try_find_program_address(&seed_refs, &pk).map(
        |found: (solana_program::pubkey::Pubkey, u8)|
            Address { bytes: found.0.to_bytes() },
    )
}

/// Relies on `spl_associated_token_account::get_associated_token_address`:
/// the custody address for one asset under one wallet, a pure function of the
/// wallet and mint addresses (the token program namespace is fixed inside the
/// crate), with a viable derivation for every input.
#[verifier::external_body]
fn associated_token_address(wallet: &Address, mint: &Address) -> (r: Address)
    ensures
        r@ == associated_token_address_of(wallet@, mint@),
{
    let w = solana_program::pubkey::Pubkey::new_from_array(wallet.bytes);
    let m = solana_program::pubkey::Pubkey::new_from_array(mint.bytes);
    Address {
        bytes: spl_associated_token_account::get_associated_token_address(&w, &m).to_bytes(),
    }
}

/// Relies on `solana_program::hash::hash`: the 32-byte SHA-256 digest of the
/// input bytes.
#[verifier::external_body]
pub(crate) fn sha256(data: &Vec<u8>) -> (r: Vec<u8>)
    ensures
        r@ == sha256_of(data@),
        r@.len() == 32,
{
    solana_program::hash::hash(data.as_slice()).to_bytes().to_vec()
}

/// Seed tag of the per-owner record: the ASCII bytes of "dca".
pub open spec fn spec_record_tag() -> Seq<u8> {
    seq![100u8, 99u8, 97u8]
}

/// Seed tag of a schedule trigger: the ASCII bytes of "thread".
pub open spec fn spec_thread_tag() -> Seq<u8> {
    seq![116u8, 104u8, 114u8, 101u8, 97u8, 100u8]
}

/// Seed tag of a tick array: the ASCII bytes of "tick_array".
pub open spec fn spec_tick_array_tag() -> Seq<u8> {
    seq![116u8, 105u8, 99u8, 107u8, 95u8, 97u8, 114u8, 114u8, 97u8, 121u8]
}

fn record_tag() -> (v: Vec<u8>)
    ensures
        v@ == spec_record_tag(),
{
    let mut v: Vec<u8> = Vec::new();
    v.push(100);
    v.push(99);
    v.push(97);
    proof {
        assert(v@ =~= spec_record_tag());
    }
    v
}

fn thread_tag() -> (v: Vec<u8>)
    ensures
        v@ == spec_thread_tag(),
{
    let mut v: Vec<u8> = Vec::new();
    v.push(116);
    v.push(104);
    v.push(114);
    v.push(101);
    v.push(97);
    v.push(100);
    proof {
        assert(v@ =~= spec_thread_tag());
    }
    v
}

fn tick_array_tag() -> (v: Vec<u8>)
    ensures
        v@ == spec_tick_array_tag(),
{
    let mut v: Vec<u8> = Vec::new();
    v.push(116);
    v.push(105);
    v.push(99);
    v.push(107);
    v.push(95);
    v.push(97);
    v.push(114);
    v.push(114);
    v.push(97);
    v.push(121);
    proof {
        assert(v@ =~= spec_tick_array_tag());
    }
    v
}

/// ASCII decimal digits of `n`, most significant first, no leading zeros.
pub open spec fn spec_decimal_digits(n: nat) -> Seq<u8>
    decreases n,
{
    if n < 10 {
        seq![(48 + n) as u8]
    } else {
        spec_decimal_digits(n / 10).push((48 + n % 10) as u8)
    }
}

/// ASCII decimal encoding of a signed index, with a leading minus sign for
/// negative values.
pub open spec fn spec_decimal(n: int) -> Seq<u8> {
    if n < 0 {
        seq![45u8] + spec_decimal_digits((-n) as nat)
    } else {
        spec_decimal_digits(n as nat)
    }
}

fn push_decimal_digits(out: &mut Vec<u8>, m: u32)
    ensures
        final(out)@ == old(out)@ + spec_decimal_digits(m as nat),
    decreases m,
{
    if m >= 10 {
        push_decimal_digits(out, m / 10);
    }
    out.push(48 + (m % 10) as u8);
}

/// The ASCII decimal encoding of a tick index, the textual seed segment that
/// separates one tick array from its neighbours.
pub fn decimal_seed(n: i32) -> (v: Vec<u8>)
    ensures
        v@ == spec_decimal(n as int),
{
    let mut out: Vec<u8> = Vec::new();
    if n < 0 {
        out.push(45);
        let m: u32 = (-(n as i64)) as u32;
        push_decimal_digits(&mut out, m);
    } else {
        push_decimal_digits(&mut out, n as u32);
    }
    out
}

/// Seeds of the per-owner record address: tag, owner, and the two asset
/// mints, in that order.
pub open spec fn spec_record_seeds(owner: Seq<u8>, mint_a: Seq<u8>, mint_b: Seq<u8>) -> Seq<
    Seq<u8>,
> {
    seq![spec_record_tag(), owner, mint_a, mint_b]
}

/// Seeds of a schedule trigger address: tag, owner, and the trigger's
/// human-readable identifier.
pub open spec fn spec_thread_seeds(owner: Seq<u8>, thread_id: Seq<u8>) -> Seq<Seq<u8>> {
    seq![spec_thread_tag(), owner, thread_id]
}

/// Seeds of a tick array address: tag, pool address, and the decimal encoding
/// of the bracket's start index.
pub open spec fn spec_tick_array_seeds(whirlpool: Seq<u8>, start_tick_index: int) -> Seq<Seq<u8>> {
    seq![spec_tick_array_tag(), whirlpool, spec_decimal(start_tick_index)]
}

/// Address of the one record an owner may hold for an asset pair, derived
/// from the owner and the pair alone under the program namespace.
pub fn derive_record_address(program_id: &Address, owner: &Address, mint_a: &Address, mint_b:
    &Address) -> (r: Option<Address>)
    ensures
        r is Some <==> program_address_of(
            spec_record_seeds(owner@, mint_a@, mint_b@),
            program_id@,
        ) is Some,
        r matches Some(a) ==> Some(a@) == program_address_of(
            spec_record_seeds(owner@, mint_a@, mint_b@),
            program_id@,
        ),
{
    let mut seeds: Vec<Vec<u8>> = Vec::new();
    seeds.push(record_tag());
    seeds.push(owner.to_seed());
    seeds.push(mint_a.to_seed());
    seeds.push(mint_b.to_seed());
    proof {
        assert(seeds.deep_view() =~~= spec_record_seeds(owner@, mint_a@, mint_b@));
    }
    try_find_program_address(&seeds, program_id)
}

/// Address of the schedule trigger an owner may arm under an identifier,
/// derived from the owner and the identifier alone under the trigger-network
/// namespace.
pub fn derive_thread_address(thread_program_id: &Address, owner: &Address, thread_id: &Vec<u8>)
    -> (r: Option<Address>)
    ensures
        r is Some <==> program_address_of(
            spec_thread_seeds(owner@, thread_id@),
            thread_program_id@,
        ) is Some,
        r matches Some(a) ==> Some(a@) == program_address_of(
            spec_thread_seeds(owner@, thread_id@),
            thread_program_id@,
        ),
{
    let mut seeds: Vec<Vec<u8>> = Vec::new();
    seeds.push(thread_tag());
    seeds.push(owner.to_seed());
    let mut id: Vec<u8> = Vec::new();
    let mut i: usize = 0;
    while i < thread_id.len()
        invariant
            0 <= i <= thread_id.len(),
            id@ == thread_id@.subrange(0, i as int),
        decreases thread_id.len() - i,
    {
        id.push(thread_id[i]);
        proof {
            assert(id@ =~= thread_id@.subrange(0, i + 1));
        }
        i = i + 1;
    }
    proof {
        assert(id@ =~= thread_id@);
    }
    seeds.push(id);
    proof {
        assert(seeds.deep_view() =~~= spec_thread_seeds(owner@, thread_id@));
    }
    try_find_program_address(&seeds, thread_program_id)
}

/// Custody address of one asset under one authority (an owner's own wallet
/// vault, or a record's vault when the record address is the authority).
pub fn derive_vault_address(authority: &Address, mint: &Address) -> (r: Address)
    ensures
        r@ == associated_token_address_of(authority@, mint@),
{
    associated_token_address(authority, mint)
}

/// Address of the tick array whose bracket begins at `start_tick_index`,
/// derived from the pool address and the decimal encoding of the index under
/// the pool program namespace.
pub fn derive_tick_array_address(whirlpool_program_id: &Address, whirlpool: &Address,
    start_tick_index: i32) -> (r: Option<Address>)
    ensures
        r is Some <==> program_address_of(
            spec_tick_array_seeds(whirlpool@, start_tick_index as int),
            whirlpool_program_id@,
        ) is Some,
        r matches Some(a) ==> Some(a@) == program_address_of(
            spec_tick_array_seeds(whirlpool@, start_tick_index as int),
            whirlpool_program_id@,
        ),
{
    let mut seeds: Vec<Vec<u8>> = Vec::new();
    seeds.push(tick_array_tag());
    seeds.push(whirlpool.to_seed());
    seeds.push(decimal_seed(start_tick_index));
    proof {
        assert(seeds.deep_view() =~~= spec_tick_array_seeds(whirlpool@, start_tick_index as int));
    }
    try_find_program_address(&seeds, whirlpool_program_id)
}

/// Law: record-address derivation is deterministic. Two derivations from the
/// same owner, asset pair and program namespace agree, both in whether an
/// address exists and in the address itself.
pub proof fn lemma_record_address_deterministic(
    owner: Seq<u8>,
    mint_a: Seq<u8>,
    mint_b: Seq<u8>,
    program_id: Seq<u8>,
    r1: Option<Seq<u8>>,
    r2: Option<Seq<u8>>,
)
    requires
        r1 == program_address_of(spec_record_seeds(owner, mint_a, mint_b), program_id),
        r2 == program_address_of(spec_record_seeds(owner, mint_a, mint_b), program_id),
    ensures
        r1 == r2,
{
}

} // verus!
