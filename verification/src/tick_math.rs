//! Integer arithmetic over the discretized price lattice: floor division,
//! bracket (tick-array) start indices, and the legal-domain bounds check.

use vstd::prelude::*;

verus! {

/// Largest legal discretized price index.
pub const MAX_TICK_INDEX: i32 = 443636;

/// Smallest legal discretized price index.
pub const MIN_TICK_INDEX: i32 = -443636;

/// Number of lattice steps stored in one tick array.
pub const TICK_ARRAY_SIZE: i32 = 88;

/// Width of one bracket on the lattice: the array size scaled by the pool's
/// price granularity.
pub open spec fn spec_ticks_in_array(tick_spacing: int) -> int {
    TICK_ARRAY_SIZE * tick_spacing
}

/// Start index of the bracket `offset` brackets away from the one containing
/// `tick_current_index`. Spec-level `/` on `int` with a positive divisor is
/// floor division, which is the required rounding toward negative infinity.
pub open spec fn spec_start_tick_index(
    tick_current_index: int,
    tick_spacing: int,
    offset: int,
) -> int {
    (tick_current_index / spec_ticks_in_array(tick_spacing) + offset)
        * spec_ticks_in_array(tick_spacing)
}

/// A bracket is legal when it lies entirely inside the price domain.
pub open spec fn spec_start_index_in_bounds(start: int, tick_spacing: int) -> bool {
    MIN_TICK_INDEX <= start && start + spec_ticks_in_array(tick_spacing) <= MAX_TICK_INDEX
}

/// A window whose computed start index would leave the legal price domain.
#[derive(Clone, Copy, PartialEq, Eq, Structural, Debug)]
pub enum WindowError {
    StartIndexOutOfRange,
}

/// Floor division: the quotient rounded toward negative infinity, exactly
/// `a / b` of the mathematical integers for a positive divisor.
pub fn div_floor(a: i32, b: i32) -> (r: i32)
    requires
        b > 0,
    ensures
        r == a as int / b as int,
{
    let q: i32 = a / b;
    if a < 0 && a % b != 0 {
        proof {
            let na = -(a as int);
            let bi = b as int;
            vstd::arithmetic::div_mod::lemma_fundamental_div_mod(na, bi);
            vstd::arithmetic::div_mod::lemma_mod_bound(na, bi);
            assert(na % bi != 0);
            assert(bi >= 2);
            assert(na / bi <= 0x40000000) by (nonlinear_arith)
                requires
                    na == bi * (na / bi) + na % bi,
                    0 <= na % bi,
                    bi >= 2,
                    na <= 0x80000000,
            ;
            lemma_truncated_vs_floor_div(a as int, bi);
        }
        q - 1
    } else {
        proof {
            if a >= 0 {
            } else {
                lemma_truncated_vs_floor_div(a as int, b as int);
            }
        }
        q
    }
}

/// Law: `div_floor` computes the mathematical floor of the quotient. For a
/// positive divisor the result is the unique integer at or below the exact
/// quotient, so a negative dividend not evenly divisible rounds away from
/// zero, never toward it.
pub proof fn lemma_div_floor_is_floor(a: int, b: int)
    requires
        b > 0,
    ensures
        b * (a / b) <= a < b * (a / b + 1),
{
    vstd::arithmetic::div_mod::lemma_fundamental_div_mod(a, b);
    vstd::arithmetic::div_mod::lemma_mod_bound(a, b);
    assert(b * (a / b) <= a < b * (a / b + 1)) by (nonlinear_arith)
        requires
            a == b * (a / b) + a % b,
            0 <= a % b < b,
            b > 0,
    ;
}

/// Start index of one bracket of the window, `offset` brackets away from the
/// bracket containing the current price. Fails, rather than clamping, exactly
/// when the bracket would leave the legal price domain.
pub fn get_start_tick_index(tick_current_index: i32, tick_spacing: u16, offset: i32) -> (r: Result<
    i32,
    WindowError,
>)
    requires
        1 <= tick_spacing,
        -2 <= offset <= 2,
    ensures
        r matches Ok(s) ==> s == spec_start_tick_index(
            tick_current_index as int,
            tick_spacing as int,
            offset as int,
        ),
        r is Ok <==> spec_start_index_in_bounds(
            spec_start_tick_index(tick_current_index as int, tick_spacing as int, offset as int),
            tick_spacing as int,
        ),
        r is Err ==> r == Err::<i32, WindowError>(WindowError::StartIndexOutOfRange),
{
    let ticks_in_array: i32 = TICK_ARRAY_SIZE * (tick_spacing as i32);
    let real_index: i32 = div_floor(tick_current_index, ticks_in_array);
    proof {
        lemma_real_index_bounds(tick_current_index as int, ticks_in_array as int);
        lemma_start_product_bounds(real_index as int, offset as int, ticks_in_array as int);
    }
    let start_wide: i64 = (real_index as i64 + offset as i64) * (ticks_in_array as i64);
    if (MIN_TICK_INDEX as i64) <= start_wide && start_wide + (ticks_in_array as i64)
        <= (MAX_TICK_INDEX as i64) {
        Ok(start_wide as i32)
    } else {
        Err(WindowError::StartIndexOutOfRange)
    }
}

/// Offset of the window's `i`-th bracket: look-ahead for a forward swap,
/// look-behind for a backward one.
pub open spec fn spec_window_offset(a_to_b: bool, i: int) -> int {
    if a_to_b {
        -i
    } else {
        i
    }
}

/// The whole three-bracket window lies inside the legal price domain.
pub open spec fn spec_window_in_bounds(
    tick_current_index: int,
    tick_spacing: int,
    a_to_b: bool,
) -> bool {
    forall|i: int|
        0 <= i < 3 ==> spec_start_index_in_bounds(
            #[trigger] spec_start_tick_index(
                tick_current_index,
                tick_spacing,
                spec_window_offset(a_to_b, i),
            ),
            tick_spacing,
        )
}

/// Start indices of the three brackets covering the current price plus two
/// brackets of look-ahead (forward) or look-behind (backward), near to far.
/// Fails exactly when some bracket of the window would leave the legal domain.
pub fn get_start_tick_indexes(tick_current_index: i32, tick_spacing: u16, a_to_b: bool) -> (r:
    Result<[i32; 3], WindowError>)
    requires
        1 <= tick_spacing,
    ensures
        r matches Ok(v) ==> forall|i: int|
            0 <= i < 3 ==> #[trigger] v[i] == spec_start_tick_index(
                tick_current_index as int,
                tick_spacing as int,
                spec_window_offset(a_to_b, i),
            ),
        r is Ok <==> spec_window_in_bounds(tick_current_index as int, tick_spacing as int, a_to_b),
        r is Err ==> r == Err::<[i32; 3], WindowError>(WindowError::StartIndexOutOfRange),
{
    let step: i32 = if a_to_b {
        -1
    } else {
        1
    };
    proof {
        assert(spec_window_offset(a_to_b, 0) == 0);
        assert(spec_window_offset(a_to_b, 1) == step as int);
        assert(spec_window_offset(a_to_b, 2) == 2 * step as int);
    }
    let s0 = match get_start_tick_index(tick_current_index, tick_spacing, 0) {
        Ok(s) => s,
        Err(e) => {
            return Err(e);
        },
    };
    let s1 = match get_start_tick_index(tick_current_index, tick_spacing, step) {
        Ok(s) => s,
        Err(e) => {
            return Err(e);
        },
    };
    let s2 = match get_start_tick_index(tick_current_index, tick_spacing, 2 * step) {
        Ok(s) => s,
        Err(e) => {
            return Err(e);
        },
    };
    let v: [i32; 3] = [s0, s1, s2];
    proof {
        assert(v@ =~= seq![s0, s1, s2]);
    }
    Ok(v)
}

/// Law: the three bracket start indices of a resolved window step by exactly
/// one bracket width in the swap direction, so they are strictly monotonic
/// (decreasing for a backward swap, increasing for a forward one) and each
/// pair of adjacent brackets abuts without overlap.
pub proof fn lemma_bracket_ordering(tick_current_index: int, tick_spacing: int, a_to_b: bool)
    requires
        1 <= tick_spacing,
    ensures
        forall|i: int|
            0 <= i < 2 ==> #[trigger] spec_start_tick_index(
                tick_current_index,
                tick_spacing,
                spec_window_offset(a_to_b, i + 1),
            ) == spec_start_tick_index(
                tick_current_index,
                tick_spacing,
                spec_window_offset(a_to_b, i),
            ) + (if a_to_b {
                -1
            } else {
                1
            }) * spec_ticks_in_array(tick_spacing),
{
    let q = tick_current_index / spec_ticks_in_array(tick_spacing);
    let w = spec_ticks_in_array(tick_spacing);
    assert forall|i: int| 0 <= i < 2 implies #[trigger] spec_start_tick_index(
        tick_current_index,
        tick_spacing,
        spec_window_offset(a_to_b, i + 1),
    ) == spec_start_tick_index(
        tick_current_index,
        tick_spacing,
        spec_window_offset(a_to_b, i),
    ) + (if a_to_b {
        -1
    } else {
        1
    }) * w by {
        let d: int = if a_to_b {
            -1
        } else {
            1
        };
        assert((q + d * (i + 1)) * w == (q + d * i) * w + d * w) by (nonlinear_arith);
        assert(d * (i + 1) == d * i + d) by (nonlinear_arith);
    }
}

/// A floor quotient is no larger in magnitude than the dividend.
proof fn lemma_real_index_bounds(a: int, b: int)
    requires
        b >= 1,
        -0x80000000 <= a < 0x80000000,
    ensures
        -0x80000001 <= a / b < 0x80000000,
{
    vstd::arithmetic::div_mod::lemma_fundamental_div_mod(a, b);
    vstd::arithmetic::div_mod::lemma_mod_bound(a, b);
    assert(-0x80000001 <= a / b < 0x80000000) by (nonlinear_arith)
        requires
            a == b * (a / b) + a % b,
            0 <= a % b < b,
            b >= 1,
            -0x80000000 <= a < 0x80000000,
    ;
}

/// The widened product defining a bracket start index stays well inside `i64`.
proof fn lemma_start_product_bounds(q: int, offset: int, w: int)
    requires
        -0x80000001 <= q < 0x80000000,
        -2 <= offset <= 2,
        1 <= w <= 0x580000,
    ensures
        -0x4000000000000000 <= (q + offset) * w <= 0x4000000000000000,
{
    assert(-0x4000000000000000 <= (q + offset) * w <= 0x4000000000000000) by (nonlinear_arith)
        requires
            -0x80000001 <= q < 0x80000000,
            -2 <= offset <= 2,
            1 <= w <= 0x580000,
    ;
}

/// For a negative dividend and positive divisor, truncating division differs
/// from floor division by one exactly when the divisor does not divide the
/// dividend.
proof fn lemma_truncated_vs_floor_div(a: int, b: int)
    requires
        a < 0,
        b > 0,
    ensures
        (-a) % b == 0 ==> a / b == -((-a) / b),
        (-a) % b != 0 ==> a / b == -((-a) / b) - 1,
{
    let m = (-a) / b;
    let r = (-a) % b;
    vstd::arithmetic::div_mod::lemma_fundamental_div_mod(-a, b);
    vstd::arithmetic::div_mod::lemma_mod_bound(-a, b);
    if r == 0 {
        assert(a == b * (-m) + 0) by (nonlinear_arith)
            requires
                -a == b * m + r,
                r == 0,
        ;
        vstd::arithmetic::div_mod::lemma_fundamental_div_mod_converse(a, b, -m, 0);
    } else {
        assert(a == b * (-m - 1) + (b - r)) by (nonlinear_arith)
            requires
                -a == b * m + r,
        ;
        vstd::arithmetic::div_mod::lemma_fundamental_div_mod_converse(a, b, -m - 1, b - r);
    }
}

} // verus!
