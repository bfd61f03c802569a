//! Resolution of the three tick-array addresses a swap must reference, from
//! the pool's live price state alone.

use vstd::prelude::*;

use crate::address::Address;
use crate::derivation::{derive_tick_array_address, program_address_of, spec_tick_array_seeds};
use crate::tick_math::{
    get_start_tick_indexes, spec_start_tick_index, spec_window_in_bounds, spec_window_offset,
};

verus! {

/// Why a window could not be resolved to addresses.
#[derive(Clone, Copy, PartialEq, Eq, Structural, Debug)]
pub enum TickArrayError {
    /// A bracket of the window leaves the legal price domain.
    StartIndexOutOfRange,
    /// A bracket has no viable address derivation.
    AddressUnavailable,
}

/// The address the `i`-th bracket of the window resolves to, if any.
pub open spec fn spec_tick_array_address(
    program_id: Seq<u8>,
    whirlpool: Seq<u8>,
    tick_current_index: int,
    tick_spacing: int,
    a_to_b: bool,
    i: int,
) -> Option<Seq<u8>> {
    program_address_of(
        spec_tick_array_seeds(
            whirlpool,
            spec_start_tick_index(tick_current_index, tick_spacing, spec_window_offset(a_to_b, i)),
        ),
        program_id,
    )
}

/// Addresses of the three brackets covering the current price and its
/// look-ahead (or look-behind), in near-to-far order. Fails closed, with no
/// addresses at all, when the window leaves the legal price domain.
pub fn get_tick_array_pubkeys(
    tick_current_index: i32,
    tick_spacing: u16,
    a_to_b: bool,
    program_id: &Address,
    whirlpool_pubkey: &Address,
) -> (r: Result<[Address; 3], TickArrayError>)
    requires
        1 <= tick_spacing,
    ensures
        r == Err::<[Address; 3], TickArrayError>(TickArrayError::StartIndexOutOfRange)
            <==> !spec_window_in_bounds(tick_current_index as int, tick_spacing as int, a_to_b),
        r matches Ok(v) ==> forall|i: int|
            0 <= i < 3 ==> Some(#[trigger] v[i]@) == spec_tick_array_address(
                program_id@,
                whirlpool_pubkey@,
                tick_current_index as int,
                tick_spacing as int,
                a_to_b,
                i,
            ),
        (spec_window_in_bounds(tick_current_index as int, tick_spacing as int, a_to_b)
            && forall|i: int|
            0 <= i < 3 ==> (#[trigger] spec_tick_array_address(
                program_id@,
                whirlpool_pubkey@,
                tick_current_index as int,
                tick_spacing as int,
                a_to_b,
                i,
            )) is Some) ==> r is Ok,
{
    let starts = match get_start_tick_indexes(tick_current_index, tick_spacing, a_to_b) {
        Ok(s) => s,
        Err(e) => {
            return Err(TickArrayError::StartIndexOutOfRange);
        },
    };
    proof {
        assert(starts[0int] == spec_start_tick_index(
            tick_current_index as int,
            tick_spacing as int,
            spec_window_offset(a_to_b, 0),
        ));
        assert(starts[1int] == spec_start_tick_index(
            tick_current_index as int,
            tick_spacing as int,
            spec_window_offset(a_to_b, 1),
        ));
        assert(starts[2int] == spec_start_tick_index(
            tick_current_index as int,
            tick_spacing as int,
            spec_window_offset(a_to_b, 2),
        ));
    }
    let a0 = match derive_tick_array_address(program_id, whirlpool_pubkey, starts[0]) {
        Some(a) => a,
        None => {
            proof {
                assert(spec_tick_array_address(
                    program_id@,
                    whirlpool_pubkey@,
                    tick_current_index as int,
                    tick_spacing as int,
                    a_to_b,
                    0,
                ) is None);
            }
            return Err(TickArrayError::AddressUnavailable);
        },
    };
    let a1 = match derive_tick_array_address(program_id, whirlpool_pubkey, starts[1]) {
        Some(a) => a,
        None => {
            proof {
                assert(spec_tick_array_address(
                    program_id@,
                    whirlpool_pubkey@,
                    tick_current_index as int,
                    tick_spacing as int,
                    a_to_b,
                    1,
                ) is None);
            }
            return Err(TickArrayError::AddressUnavailable);
        },
    };
    let a2 = match derive_tick_array_address(program_id, whirlpool_pubkey, starts[2]) {
        Some(a) => a,
        None => {
            proof {
                assert(spec_tick_array_address(
                    program_id@,
                    whirlpool_pubkey@,
                    tick_current_index as int,
                    tick_spacing as int,
                    a_to_b,
                    2,
                ) is None);
            }
            return Err(TickArrayError::AddressUnavailable);
        },
    };
    let v: [Address; 3] = [a0, a1, a2];
    proof {
        assert(v@ =~= seq![a0, a1, a2]);
        assert(starts@[0] == starts[0] && starts@[1] == starts[1] && starts@[2] == starts[2]);
    }
    Ok(v)
}

} // verus!
