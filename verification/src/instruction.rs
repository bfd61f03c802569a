//! Planned instructions: target program, ordered account list, and call data,
//! with the byte-exact encodings of the engine's three entry points.

use vstd::prelude::*;

use crate::address::Address;
use crate::derivation::sha256_of;

verus! {

/// One account a planned instruction references, with its access flags.
#[derive(Clone, Copy, Debug)]
pub struct AccountRef {
    pub address: Address,
    pub is_signer: bool,
    pub is_writable: bool,
}

impl View for AccountRef {
    type V = (Seq<u8>, bool, bool);

    open spec fn view(&self) -> (Seq<u8>, bool, bool) {
        (self.address@, self.is_signer, self.is_writable)
    }
}

/// A fully-specified instruction a runtime can execute: the target program,
/// the ordered accounts it touches, and its opaque call data.
#[derive(Clone, Debug)]
pub struct InstructionPlan {
    pub program: Address,
    pub accounts: Vec<AccountRef>,
    pub data: Vec<u8>,
}

impl InstructionPlan {
    /// Ordered views of the referenced accounts.
    pub open spec fn accounts_view(&self) -> Seq<(Seq<u8>, bool, bool)> {
        self.accounts@.map_values(|a: AccountRef| a@)
    }
}

/// Caller-facing swap configuration, fixed at record creation.
#[derive(Clone, Copy, Debug)]
pub struct SwapParams {
    /// Amount moved per firing.
    pub amount: u64,
    /// Slippage bound on the non-fixed side.
    pub other_amount_threshold: u64,
    /// Price-limit threshold for the swap.
    pub sqrt_price_limit: u128,
    /// Whether `amount` fixes the input side rather than the output side.
    pub amount_specified_is_input: bool,
    /// Swap direction.
    pub a_to_b: bool,
}

/// Discriminator prefix shared by every entry point: the ASCII bytes of
/// "global:".
pub open spec fn spec_global_prefix() -> Seq<u8> {
    seq![103u8, 108u8, 111u8, 98u8, 97u8, 108u8, 58u8]
}

/// Eight-byte entry-point discriminator: the head of the digest of the
/// prefixed method name.
pub open spec fn spec_sighash(name: Seq<u8>) -> Seq<u8> {
    sha256_of(spec_global_prefix() + name).take(8)
}

/// Method name of record creation: the ASCII bytes of "dca_create".
pub open spec fn spec_create_method() -> Seq<u8> {
    seq![100u8, 99u8, 97u8, 95u8, 99u8, 114u8, 101u8, 97u8, 116u8, 101u8]
}

/// Method name of record deletion: the ASCII bytes of "dca_delete".
pub open spec fn spec_delete_method() -> Seq<u8> {
    seq![100u8, 99u8, 97u8, 95u8, 100u8, 101u8, 108u8, 101u8, 116u8, 101u8]
}

/// Method name of the kickoff entry point: the ASCII bytes of
/// "get_tick_arrays".
pub open spec fn spec_kickoff_method() -> Seq<u8> {
    seq![
        103u8,
        101u8,
        116u8,
        95u8,
        116u8,
        105u8,
        99u8,
        107u8,
        95u8,
        97u8,
        114u8,
        114u8,
        97u8,
        121u8,
        115u8,
    ]
}

/// Byte encoding of a flag.
pub open spec fn spec_bool_byte(b: bool) -> u8 {
    if b {
        1u8
    } else {
        0u8
    }
}

/// Little-endian, fixed-width encoding of the swap configuration, in field
/// order: the two amounts, the price limit, then the two flags.
pub open spec fn spec_swap_params_bytes(p: SwapParams) -> Seq<u8> {
    vstd::bytes::spec_u64_to_le_bytes(p.amount) + vstd::bytes::spec_u64_to_le_bytes(
        p.other_amount_threshold,
    ) + vstd::bytes::spec_u128_to_le_bytes(p.sqrt_price_limit) + seq![
        spec_bool_byte(p.amount_specified_is_input),
        spec_bool_byte(p.a_to_b),
    ]
}

/// Call data of record creation: discriminator, then the encoded parameters.
pub open spec fn spec_create_data(p: SwapParams) -> Seq<u8> {
    spec_sighash(spec_create_method()) + spec_swap_params_bytes(p)
}

/// Call data of record deletion: the discriminator alone.
pub open spec fn spec_delete_data() -> Seq<u8> {
    spec_sighash(spec_delete_method())
}

/// Call data of a kickoff firing: the discriminator alone.
pub open spec fn spec_kickoff_data() -> Seq<u8> {
    spec_sighash(spec_kickoff_method())
}

/// Append the bytes of `src` to `out`.
pub fn extend_bytes(out: &mut Vec<u8>, src: &Vec<u8>)
    ensures
        final(out)@ == old(out)@ + src@,
{
    let mut i: usize = 0;
    while i < src.len()
        invariant
            0 <= i <= src@.len(),
            out@ == old(out)@ + src@.subrange(0, i as int),
        decreases src@.len() - i,
    {
        out.push(src[i]);
        proof {
            assert(old(out)@ + src@.subrange(0, i + 1) =~= (old(out)@ + src@.subrange(
                0,
                i as int,
            )).push(src@[i as int]));
        }
        i = i + 1;
    }
    proof {
        assert(src@.subrange(0, src@.len() as int) =~= src@);
    }
}

fn create_method() -> (v: Vec<u8>)
    ensures
        v@ == spec_create_method(),
{
    let mut v: Vec<u8> = Vec::new();
    v.push(100);
    v.push(99);
    v.push(97);
    v.push(95);
    v.push(99);
    v.push(114);
    v.push(101);
    v.push(97);
    v.push(116);
    v.push(101);
    proof {
        assert(v@ =~= spec_create_method());
    }
    v
}

fn delete_method() -> (v: Vec<u8>)
    ensures
        v@ == spec_delete_method(),
{
    let mut v: Vec<u8> = Vec::new();
    v.push(100);
    v.push(99);
    v.push(97);
    v.push(95);
    v.push(100);
    v.push(101);
    v.push(108);
    v.push(101);
    v.push(116);
    v.push(101);
    proof {
        assert(v@ =~= spec_delete_method());
    }
    v
}

fn kickoff_method() -> (v: Vec<u8>)
    ensures
        v@ == spec_kickoff_method(),
{
    let mut v: Vec<u8> = Vec::new();
    v.push(103);
    v.push(101);
    v.push(116);
    v.push(95);
    v.push(116);
    v.push(105);
    v.push(99);
    v.push(107);
    v.push(95);
    v.push(97);
    v.push(114);
    v.push(114);
    v.push(97);
    v.push(121);
    v.push(115);
    proof {
        assert(v@ =~= spec_kickoff_method());
    }
    v
}

/// The eight-byte discriminator of a method name.
pub fn sighash(name: &Vec<u8>) -> (r: Vec<u8>)
    ensures
        r@ == spec_sighash(name@),
{
    let mut preimage: Vec<u8> = Vec::new();
    preimage.push(103);
    preimage.push(108);
    preimage.push(111);
    preimage.push(98);
    preimage.push(97);
    preimage.push(108);
    preimage.push(58);
    proof {
        assert(preimage@ =~= spec_global_prefix());
    }
    extend_bytes(&mut preimage, name);
    let digest = crate::derivation::sha256(&preimage);
    let mut r: Vec<u8> = Vec::new();
    let mut i: usize = 0;
    while i < 8
        invariant
            0 <= i <= 8,
            digest@ == sha256_of(spec_global_prefix() + name@),
            digest@.len() == 32,
            r@ == digest@.subrange(0, i as int),
        decreases 8 - i,
    {
        r.push(digest[i]);
        proof {
            assert(r@ =~= digest@.subrange(0, i + 1));
        }
        i = i + 1;
    }
    proof {
        assert(digest@.subrange(0, 8) =~= digest@.take(8));
    }
    r
}

/// Call data of the record-creation instruction for given parameters.
pub fn encode_create_data(p: &SwapParams) -> (r: Vec<u8>)
    ensures
        r@ == spec_create_data(*p),
{
    let mut r = sighash(&create_method());
    let amount_bytes = vstd::bytes::u64_to_le_bytes(p.amount);
    extend_bytes(&mut r, &amount_bytes);
    let threshold_bytes = vstd::bytes::u64_to_le_bytes(p.other_amount_threshold);
    extend_bytes(&mut r, &threshold_bytes);
    let limit_bytes = vstd::bytes::u128_to_le_bytes(p.sqrt_price_limit);
    extend_bytes(&mut r, &limit_bytes);
    if p.amount_specified_is_input {
        r.push(1);
    } else {
        r.push(0);
    }
    if p.a_to_b {
        r.push(1);
    } else {
        r.push(0);
    }
    proof {
        assert(r@ =~= spec_create_data(*p));
    }
    r
}

/// Call data of the record-deletion instruction.
pub fn encode_delete_data() -> (r: Vec<u8>)
    ensures
        r@ == spec_delete_data(),
{
    sighash(&delete_method())
}

/// Call data of a kickoff firing.
pub fn encode_kickoff_data() -> (r: Vec<u8>)
    ensures
        r@ == spec_kickoff_data(),
{
    sighash(&kickoff_method())
}

} // verus!
