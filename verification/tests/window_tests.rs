use solana_program::pubkey::Pubkey;
use whirlpool_dca::address::Address;
use whirlpool_dca::derivation::{
    decimal_seed, derive_record_address, derive_thread_address, derive_tick_array_address,
    derive_vault_address,
};
use whirlpool_dca::tick_math::{div_floor, get_start_tick_index, get_start_tick_indexes, WindowError};
use whirlpool_dca::window::{get_tick_array_pubkeys, TickArrayError};

fn addr(seed: u8) -> Address {
    Address { bytes: [seed; 32] }
}

#[test]
fn floor_division_matches_mathematical_floor() {
    assert_eq!(div_floor(-1, 88), -1);
    assert_eq!(div_floor(-89, 88), -2);
    assert_eq!(div_floor(0, 88), 0);
    assert_eq!(div_floor(-5, 3), -2);
    assert_eq!(div_floor(5, 3), 1);
    assert_eq!(div_floor(-88, 88), -1);
    assert_eq!(div_floor(87, 88), 0);
    assert_eq!(div_floor(88, 88), 1);
    assert_eq!(div_floor(i32::MIN, 1), i32::MIN);
    assert_eq!(div_floor(i32::MIN, 2), -1073741824);
    assert_eq!(div_floor(i32::MIN + 1, 2), -1073741824);
    assert_eq!(div_floor(i32::MAX, 7), 306783378);
}

#[test]
fn start_index_at_small_positive_price() {
    // granularity 64 gives a bracket width of 88 * 64 = 5632
    assert_eq!(get_start_tick_index(100, 64, 0), Ok(0));
    assert_eq!(get_start_tick_index(100, 64, 1), Ok(5632));
    assert_eq!(get_start_tick_index(100, 64, 2), Ok(11264));
    assert_eq!(get_start_tick_index(100, 64, -1), Ok(-5632));
    assert_eq!(get_start_tick_index(-100, 64, 0), Ok(-5632));
}

#[test]
fn window_is_ordered_and_spaced_by_bracket_width() {
    let forward = get_start_tick_indexes(100, 64, false).unwrap();
    assert_eq!(forward, [0, 5632, 11264]);
    let backward = get_start_tick_indexes(100, 64, true).unwrap();
    assert_eq!(backward, [0, -5632, -11264]);
    let w = 88 * 7;
    let fw = get_start_tick_indexes(-1, 7, false).unwrap();
    assert_eq!(fw, [-w, 0, w]);
    assert_eq!(fw[1] - fw[0], w);
    assert_eq!(fw[2] - fw[1], w);
}

#[test]
fn window_near_domain_edge_fails_closed() {
    // width 5632: the last bracket fully inside the domain starts at 437888
    assert_eq!(
        get_start_tick_indexes(443000, 64, false),
        Err(WindowError::StartIndexOutOfRange)
    );
    assert_eq!(
        get_start_tick_indexes(-443000, 64, true),
        Err(WindowError::StartIndexOutOfRange)
    );
    // a huge granularity leaves no legal window at all
    assert_eq!(
        get_start_tick_indexes(0, 32768, false),
        Err(WindowError::StartIndexOutOfRange)
    );
    // near the edge the forward look-ahead overruns the domain while the
    // backward window still fits
    assert_eq!(
        get_start_tick_indexes(430000, 64, false),
        Err(WindowError::StartIndexOutOfRange)
    );
    assert_eq!(
        get_start_tick_indexes(430000, 64, true),
        Ok([428032, 422400, 416768])
    );
}

#[test]
fn record_address_is_deterministic() {
    let program = addr(9);
    let owner = addr(1);
    let mint_a = addr(2);
    let mint_b = addr(3);
    let r1 = derive_record_address(&program, &owner, &mint_a, &mint_b).unwrap();
    let r2 = derive_record_address(&program, &owner, &mint_a, &mint_b).unwrap();
    assert_eq!(r1, r2);
    // the derivation is a one-way hash, not an echo of any input
    assert_ne!(r1, owner);
    assert_ne!(r1, program);
    let other = derive_record_address(&program, &addr(4), &mint_a, &mint_b).unwrap();
    assert_ne!(r1, other);
}

#[test]
fn record_address_matches_runtime_derivation() {
    let program = addr(9);
    let owner = addr(1);
    let mint_a = addr(2);
    let mint_b = addr(3);
    let ours = derive_record_address(&program, &owner, &mint_a, &mint_b).unwrap();
    let (expected, _bump) = Pubkey::find_program_address(
        &[b"dca", &owner.bytes, &mint_a.bytes, &mint_b.bytes],
        &Pubkey::new_from_array(program.bytes),
    );
    assert_eq!(ours.bytes, expected.to_bytes());
}

#[test]
fn thread_address_matches_runtime_derivation() {
    let thread_program = addr(11);
    let owner = addr(1);
    let id = b"BONK_USDC_WP_DCA".to_vec();
    let ours = derive_thread_address(&thread_program, &owner, &id).unwrap();
    let (expected, _bump) = Pubkey::find_program_address(
        &[b"thread", &owner.bytes, b"BONK_USDC_WP_DCA"],
        &Pubkey::new_from_array(thread_program.bytes),
    );
    assert_eq!(ours.bytes, expected.to_bytes());
}

#[test]
fn vault_address_matches_associated_token_derivation() {
    let owner = addr(1);
    let mint = addr(2);
    let ours = derive_vault_address(&owner, &mint);
    let expected = spl_associated_token_account::get_associated_token_address(
        &Pubkey::new_from_array(owner.bytes),
        &Pubkey::new_from_array(mint.bytes),
    );
    assert_eq!(ours.bytes, expected.to_bytes());
    assert_ne!(ours, owner);
}

#[test]
fn decimal_seed_encodes_indices() {
    assert_eq!(decimal_seed(0), b"0".to_vec());
    assert_eq!(decimal_seed(5632), b"5632".to_vec());
    assert_eq!(decimal_seed(-5632), b"-5632".to_vec());
    assert_eq!(decimal_seed(i32::MIN), b"-2147483648".to_vec());
    assert_eq!(decimal_seed(i32::MAX), b"2147483647".to_vec());
}

#[test]
fn tick_array_address_matches_runtime_derivation() {
    let whirlpool_program = addr(7);
    let whirlpool = addr(8);
    for start in [0i32, 5632, -5632, 443520] {
        let ours = derive_tick_array_address(&whirlpool_program, &whirlpool, start).unwrap();
        let (expected, _bump) = Pubkey::find_program_address(
            &[
                b"tick_array",
                &whirlpool.bytes,
                start.to_string().as_bytes(),
            ],
            &Pubkey::new_from_array(whirlpool_program.bytes),
        );
        assert_eq!(ours.bytes, expected.to_bytes());
    }
}

#[test]
fn window_addresses_cover_the_resolved_brackets() {
    let whirlpool_program = addr(7);
    let whirlpool = addr(8);
    let window = get_tick_array_pubkeys(100, 64, false, &whirlpool_program, &whirlpool).unwrap();
    for (i, start) in [0i32, 5632, 11264].iter().enumerate() {
        let direct = derive_tick_array_address(&whirlpool_program, &whirlpool, *start).unwrap();
        assert_eq!(window[i], direct);
    }
    assert_eq!(
        get_tick_array_pubkeys(443000, 64, false, &whirlpool_program, &whirlpool),
        Err(TickArrayError::StartIndexOutOfRange)
    );
}
