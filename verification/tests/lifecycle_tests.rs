use solana_program::hash::hash;
use whirlpool_dca::address::Address;
use whirlpool_dca::instruction::{encode_create_data, encode_kickoff_data, SwapParams};
use whirlpool_dca::kickoff::{handler, GetTickArrays, PoolPrice};
use whirlpool_dca::lifecycle::{
    plan_arm_trigger, plan_create, plan_delete, LifecycleError, ProgramConfig,
};
use whirlpool_dca::store::{AccountStore, BatchError, StoreOp};

fn addr(seed: u8) -> Address {
    Address { bytes: [seed; 32] }
}

fn config() -> ProgramConfig {
    ProgramConfig {
        dca_program: addr(101),
        whirlpool_program: addr(102),
        thread_program: addr(103),
        system_program: addr(104),
        token_program: addr(105),
        associated_token_program: addr(106),
    }
}

fn swap_params() -> SwapParams {
    SwapParams {
        amount: 100000,
        other_amount_threshold: 0,
        sqrt_price_limit: 79226673515401279992447579055u128,
        amount_specified_is_input: false,
        a_to_b: false,
    }
}

#[test]
fn batch_application_is_all_or_nothing() {
    let mut store = AccountStore::new();
    let a = addr(1);
    let b = addr(2);
    // a duplicate creation partway through must leave nothing behind
    let bad = vec![StoreOp::Create(a), StoreOp::Create(b), StoreOp::Create(a)];
    assert_eq!(store.apply_batch(&bad), Err(BatchError::Rejected));
    assert!(!store.is_live(&a));
    assert!(!store.is_live(&b));
    // funding an absent account rejects the whole batch too
    let bad2 = vec![
        StoreOp::Create(a),
        StoreOp::Fund { to: b, amount: 5 },
    ];
    assert_eq!(store.apply_batch(&bad2), Err(BatchError::Rejected));
    assert!(!store.is_live(&a));
    // delegating to an absent authority rejects the whole batch
    let bad3 = vec![
        StoreOp::Create(a),
        StoreOp::Delegate { vault: addr(9), to: b },
    ];
    assert_eq!(store.apply_batch(&bad3), Err(BatchError::Rejected));
    assert!(!store.is_live(&a));
    let good = vec![
        StoreOp::Create(a),
        StoreOp::Create(b),
        StoreOp::Delegate { vault: addr(9), to: a },
    ];
    assert_eq!(store.apply_batch(&good), Ok(()));
    assert!(store.is_live(&a));
    assert!(store.is_live(&b));
}

#[test]
fn create_is_exclusive_per_owner_and_pair() {
    let cfg = config();
    let mut store = AccountStore::new();
    let owner = addr(1);
    let mint_a = addr(2);
    let mint_b = addr(3);
    let whirlpool = addr(4);
    let params = swap_params();

    let plan = plan_create(&store, &cfg, &owner, &mint_a, &mint_b, &whirlpool, &params).unwrap();
    store.apply_batch(&plan.ops).unwrap();
    assert!(store.is_live(&plan.dca));
    assert!(store.is_live(&plan.dca_a_vault));
    assert!(store.is_live(&plan.dca_b_vault));

    // a second creation for the same owner and pair is rejected
    let again = plan_create(&store, &cfg, &owner, &mint_a, &mint_b, &whirlpool, &params);
    assert!(matches!(again, Err(LifecycleError::RecordExists)));

    // a different pair is a different record and is accepted
    let other = plan_create(&store, &cfg, &owner, &mint_b, &mint_a, &whirlpool, &params);
    assert!(other.is_ok());

    // after deletion the same pair can be created again
    let thread_id = b"BONK_USDC_WP_DCA".to_vec();
    let arm = plan_arm_trigger(
        &store, &cfg, &owner, &mint_a, &mint_b, &whirlpool, &addr(5), &thread_id,
        &b"*/15 * * * * *".to_vec(), true, 100000000,
    )
    .unwrap();
    store.apply_batch(&arm.ops).unwrap();
    let del = plan_delete(&store, &cfg, &owner, &mint_a, &mint_b, &thread_id, &owner).unwrap();
    store.apply_batch(&del.ops).unwrap();
    assert!(!store.is_live(&plan.dca));
    let recreated = plan_create(&store, &cfg, &owner, &mint_a, &mint_b, &whirlpool, &params);
    assert!(recreated.is_ok());
}

#[test]
fn lifecycle_preconditions_are_reported() {
    let cfg = config();
    let mut store = AccountStore::new();
    let owner = addr(1);
    let mint_a = addr(2);
    let mint_b = addr(3);
    let whirlpool = addr(4);
    let oracle = addr(5);
    let thread_id = b"T".to_vec();
    let schedule = b"*/15 * * * * *".to_vec();

    // arming before creation: the record is missing
    let arm = plan_arm_trigger(
        &store, &cfg, &owner, &mint_a, &mint_b, &whirlpool, &oracle, &thread_id, &schedule,
        true, 7,
    );
    assert!(matches!(arm, Err(LifecycleError::RecordMissing)));
    // deleting before creation: the record is missing
    let del = plan_delete(&store, &cfg, &owner, &mint_a, &mint_b, &thread_id, &owner);
    assert!(matches!(del, Err(LifecycleError::RecordMissing)));

    let plan = plan_create(&store, &cfg, &owner, &mint_a, &mint_b, &whirlpool, &swap_params())
        .unwrap();
    store.apply_batch(&plan.ops).unwrap();

    // deleting before arming: the trigger is missing
    let del = plan_delete(&store, &cfg, &owner, &mint_a, &mint_b, &thread_id, &owner);
    assert!(matches!(del, Err(LifecycleError::TriggerMissing)));

    let arm = plan_arm_trigger(
        &store, &cfg, &owner, &mint_a, &mint_b, &whirlpool, &oracle, &thread_id, &schedule,
        true, 7,
    )
    .unwrap();
    assert_eq!(
        arm.ops,
        vec![
            StoreOp::Create(arm.thread),
            StoreOp::Fund { to: arm.thread, amount: 7 },
        ]
    );
    store.apply_batch(&arm.ops).unwrap();

    // arming twice under the same identifier is rejected
    let rearm = plan_arm_trigger(
        &store, &cfg, &owner, &mint_a, &mint_b, &whirlpool, &oracle, &thread_id, &schedule,
        true, 7,
    );
    assert!(matches!(rearm, Err(LifecycleError::TriggerExists)));
}

#[test]
fn create_data_encodes_discriminator_and_parameters() {
    let params = swap_params();
    let data = encode_create_data(&params);
    let digest = hash(b"global:dca_create");
    assert_eq!(&data[0..8], &digest.to_bytes()[0..8]);
    assert_eq!(&data[8..16], &100000u64.to_le_bytes());
    assert_eq!(&data[16..24], &0u64.to_le_bytes());
    assert_eq!(
        &data[24..40],
        &79226673515401279992447579055u128.to_le_bytes()
    );
    assert_eq!(&data[40..], &[0u8, 0u8]);
    let kickoff = encode_kickoff_data();
    let kickoff_digest = hash(b"global:get_tick_arrays");
    assert_eq!(kickoff, kickoff_digest.to_bytes()[0..8].to_vec());
    assert_ne!(kickoff, b"global:g".to_vec());
}

#[test]
fn kickoff_resolves_fresh_window_and_returns_continuation() {
    let cfg = config();
    let acc = GetTickArrays {
        authority_a_vault: addr(21),
        authority_b_vault: addr(22),
        dca: addr(23),
        dca_a_vault: addr(24),
        dca_b_vault: addr(25),
        dca_thread: addr(26),
        oracle: addr(27),
        whirlpool: addr(28),
    };
    let pool = PoolPrice { tick_current_index: 100, tick_spacing: 64 };
    let resp = handler(&cfg, &acc, &pool, false).unwrap();
    assert!(resp.kickoff_instruction.is_none());
    let ins = resp.next_instruction.unwrap();
    assert_eq!(ins.program, cfg.dca_program);
    assert_eq!(ins.data, encode_kickoff_data());
    assert_eq!(ins.accounts.len(), 13);
    assert_eq!(ins.accounts[2].address, acc.dca);
    assert_eq!(ins.accounts[5].address, acc.dca_thread);
    assert!(ins.accounts[5].is_signer);
    let expected_window = whirlpool_dca::window::get_tick_array_pubkeys(
        100, 64, false, &cfg.whirlpool_program, &acc.whirlpool,
    )
    .unwrap();
    assert_eq!(ins.accounts[10].address, expected_window[0]);
    assert_eq!(ins.accounts[11].address, expected_window[1]);
    assert_eq!(ins.accounts[12].address, expected_window[2]);

    // a retried firing against unchanged price state resolves the same window
    let retry = handler(&cfg, &acc, &pool, false).unwrap();
    let retry_ins = retry.next_instruction.unwrap();
    for i in 10..13 {
        assert_eq!(retry_ins.accounts[i].address, ins.accounts[i].address);
    }

    // at a domain edge the firing fails closed with no continuation
    let edge = PoolPrice { tick_current_index: 443000, tick_spacing: 64 };
    assert!(handler(&cfg, &acc, &edge, false).is_err());
}

#[test]
fn end_to_end_schedule_setup_and_teardown() {
    let cfg = config();
    let mut store = AccountStore::new();
    let owner = addr(1);
    let mint_a = addr(2);
    let mint_b = addr(3);
    let whirlpool = addr(4);
    let oracle = addr(5);
    let thread_id = b"BONK_USDC_WP_DCA".to_vec();
    let schedule = b"*/15 * * * * *".to_vec();

    let create = plan_create(&store, &cfg, &owner, &mint_a, &mint_b, &whirlpool, &swap_params())
        .unwrap();
    store.apply_batch(&create.ops).unwrap();
    let arm = plan_arm_trigger(
        &store, &cfg, &owner, &mint_a, &mint_b, &whirlpool, &oracle, &thread_id, &schedule,
        true, 100000000,
    )
    .unwrap();
    assert_eq!(arm.schedule, schedule);
    assert!(arm.skippable);
    store.apply_batch(&arm.ops).unwrap();

    // first firing: the price is unchanged, the continuation references the
    // brackets starting at 0, 5632 and 11264 plus the two record vaults
    let acc = GetTickArrays {
        authority_a_vault: create.authority_a_vault,
        authority_b_vault: create.authority_b_vault,
        dca: create.dca,
        dca_a_vault: create.dca_a_vault,
        dca_b_vault: create.dca_b_vault,
        dca_thread: arm.thread,
        oracle,
        whirlpool,
    };
    let pool = PoolPrice { tick_current_index: 100, tick_spacing: 64 };
    let resp = handler(&cfg, &acc, &pool, false).unwrap();
    let ins = resp.next_instruction.unwrap();
    let starts =
        whirlpool_dca::tick_math::get_start_tick_indexes(100, 64, false).unwrap();
    assert_eq!(starts, [0, 5632, 11264]);
    for (i, start) in starts.iter().enumerate() {
        let direct = whirlpool_dca::derivation::derive_tick_array_address(
            &cfg.whirlpool_program,
            &whirlpool,
            *start,
        )
        .unwrap();
        assert_eq!(ins.accounts[10 + i].address, direct);
    }
    assert_eq!(ins.accounts[3].address, create.dca_a_vault);
    assert_eq!(ins.accounts[4].address, create.dca_b_vault);

    // teardown: both the record and the trigger stop resolving to live state
    let del = plan_delete(&store, &cfg, &owner, &mint_a, &mint_b, &thread_id, &owner).unwrap();
    store.apply_batch(&del.ops).unwrap();
    assert!(!store.is_live(&create.dca));
    assert!(!store.is_live(&arm.thread));
    // the vaults deliberately stay open so custody is never dropped in teardown
    assert!(store.is_live(&create.dca_a_vault));
    assert!(store.is_live(&create.dca_b_vault));
}
