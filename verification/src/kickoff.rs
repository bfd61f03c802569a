//! The recurring-trigger continuation protocol: each scheduled firing
//! re-resolves the price window from live pool state and returns a
//! fully-specified next instruction, never performing the swap itself.

use vstd::prelude::*;

use crate::address::Address;
use crate::instruction::{encode_kickoff_data, AccountRef, InstructionPlan, spec_kickoff_data};
use crate::lifecycle::ProgramConfig;
use crate::window::{get_tick_array_pubkeys, spec_tick_array_address, TickArrayError};

verus! {

/// The pool's live price state: the current discretized price index and the
/// lattice granularity, read fresh at every firing.
#[derive(Clone, Copy, Debug)]
pub struct PoolPrice {
    pub tick_current_index: i32,
    pub tick_spacing: u16,
}

/// The accounts a kickoff firing operates over: the record, its custody
/// vaults and the owner's, the trigger, the pool, and its price oracle.
#[derive(Clone, Copy, Debug)]
pub struct GetTickArrays {
    pub authority_a_vault: Address,
    pub authority_b_vault: Address,
    pub dca: Address,
    pub dca_a_vault: Address,
    pub dca_b_vault: Address,
    pub dca_thread: Address,
    pub oracle: Address,
    pub whirlpool: Address,
}

/// What a firing hands back to the trigger network: no replacement kickoff,
/// and the continuation instruction to execute next, if any.
#[derive(Clone, Debug)]
pub struct ThreadResponse {
    pub kickoff_instruction: Option<InstructionPlan>,
    pub next_instruction: Option<InstructionPlan>,
}

/// The account list of the kickoff entry point as armed: everything a firing
/// needs before the window is known.
pub open spec fn spec_kickoff_base_accounts(cfg: ProgramConfig, acc: GetTickArrays) -> Seq<
    (Seq<u8>, bool, bool),
> {
    seq![
        (acc.authority_a_vault@, false, true),
        (acc.authority_b_vault@, false, true),
        (acc.dca@, false, true),
        (acc.dca_a_vault@, false, true),
        (acc.dca_b_vault@, false, true),
        (acc.dca_thread@, true, true),
        (acc.oracle@, false, false),
        (cfg.system_program@, false, false),
        (cfg.token_program@, false, false),
        (acc.whirlpool@, false, true),
    ]
}

/// The account list of the continuation a firing returns: the armed list
/// followed by the three freshly resolved bracket addresses, near to far.
pub open spec fn spec_continuation_accounts(
    cfg: ProgramConfig,
    acc: GetTickArrays,
    t0: Seq<u8>,
    t1: Seq<u8>,
    t2: Seq<u8>,
) -> Seq<(Seq<u8>, bool, bool)> {
    spec_kickoff_base_accounts(cfg, acc) + seq![
        (t0, false, true),
        (t1, false, true),
        (t2, false, true),
    ]
}

/// The kickoff instruction as it is bound to the trigger at arm time.
pub fn build_kickoff_instruction(cfg: &ProgramConfig, acc: &GetTickArrays) -> (r: InstructionPlan)
    ensures
        r.program == cfg.dca_program,
        r.data@ == spec_kickoff_data(),
        r.accounts_view() == spec_kickoff_base_accounts(*cfg, *acc),
{
    let mut accounts: Vec<AccountRef> = Vec::new();
    accounts.push(AccountRef { address: acc.authority_a_vault, is_signer: false, is_writable: true });
    accounts.push(AccountRef { address: acc.authority_b_vault, is_signer: false, is_writable: true });
    accounts.push(AccountRef { address: acc.dca, is_signer: false, is_writable: true });
    accounts.push(AccountRef { address: acc.dca_a_vault, is_signer: false, is_writable: true });
    accounts.push(AccountRef { address: acc.dca_b_vault, is_signer: false, is_writable: true });
    accounts.push(AccountRef { address: acc.dca_thread, is_signer: true, is_writable: true });
    accounts.push(AccountRef { address: acc.oracle, is_signer: false, is_writable: false });
    accounts.push(AccountRef { address: cfg.system_program, is_signer: false, is_writable: false });
    accounts.push(AccountRef { address: cfg.token_program, is_signer: false, is_writable: false });
    accounts.push(AccountRef { address: acc.whirlpool, is_signer: false, is_writable: true });
    let r = InstructionPlan { program: cfg.dca_program, accounts, data: encode_kickoff_data() };
    proof {
        assert(r.accounts_view() =~= spec_kickoff_base_accounts(*cfg, *acc));
    }
    r
}

/// One firing of the trigger: re-resolve the window from the live price and
/// return the continuation referencing the fresh bracket addresses and the
/// vaults. Fails closed, returning no continuation at all, when the window
/// leaves the legal price domain. The result depends only on the live price
/// state and the configured accounts, so a retried firing resolves the same
/// continuation as long as the price has not moved.
pub fn handler(cfg: &ProgramConfig, acc: &GetTickArrays, pool: &PoolPrice, a_to_b: bool) -> (r:
    Result<ThreadResponse, TickArrayError>)
    requires
        1 <= pool.tick_spacing,
    ensures
        r == Err::<ThreadResponse, TickArrayError>(TickArrayError::StartIndexOutOfRange)
            <==> !crate::tick_math::spec_window_in_bounds(
            pool.tick_current_index as int,
            pool.tick_spacing as int,
            a_to_b,
        ),
        r is Ok ==> crate::tick_math::spec_window_in_bounds(
            pool.tick_current_index as int,
            pool.tick_spacing as int,
            a_to_b,
        ),
        r matches Ok(resp) ==> resp.kickoff_instruction is None && resp.next_instruction is Some,
        r matches Ok(resp) ==> (resp.next_instruction matches Some(ins) && ins.program
            == cfg.dca_program && ins.data@ == spec_kickoff_data() && ins.accounts_view()
            == spec_continuation_accounts(
            *cfg,
            *acc,
            spec_tick_array_address(
                cfg.whirlpool_program@,
                acc.whirlpool@,
                pool.tick_current_index as int,
                pool.tick_spacing as int,
                a_to_b,
                0,
            ).unwrap(),
            spec_tick_array_address(
                cfg.whirlpool_program@,
                acc.whirlpool@,
                pool.tick_current_index as int,
                pool.tick_spacing as int,
                a_to_b,
                1,
            ).unwrap(),
            spec_tick_array_address(
                cfg.whirlpool_program@,
                acc.whirlpool@,
                pool.tick_current_index as int,
                pool.tick_spacing as int,
                a_to_b,
                2,
            ).unwrap(),
        )),
        (crate::tick_math::spec_window_in_bounds(
            pool.tick_current_index as int,
            pool.tick_spacing as int,
            a_to_b,
        ) && forall|i: int|
            0 <= i < 3 ==> (#[trigger] spec_tick_array_address(
                cfg.whirlpool_program@,
                acc.whirlpool@,
                pool.tick_current_index as int,
                pool.tick_spacing as int,
                a_to_b,
                i,
            )) is Some) ==> r is Ok,
{
    let ticks = match get_tick_array_pubkeys(
        pool.tick_current_index,
        pool.tick_spacing,
        a_to_b,
        &cfg.whirlpool_program,
        &acc.whirlpool,
    ) {
        Ok(t) => t,
        Err(e) => {
            return Err(e);
        },
    };
    let base = build_kickoff_instruction(cfg, acc);
    let mut accounts = base.accounts;
    accounts.push(AccountRef { address: ticks[0], is_signer: false, is_writable: true });
    accounts.push(AccountRef { address: ticks[1], is_signer: false, is_writable: true });
    accounts.push(AccountRef { address: ticks[2], is_signer: false, is_writable: true });
    let ins = InstructionPlan { program: base.program, accounts, data: base.data };
    proof {
        assert(ticks[0int]@ == spec_tick_array_address(
            cfg.whirlpool_program@,
            acc.whirlpool@,
            pool.tick_current_index as int,
            pool.tick_spacing as int,
            a_to_b,
            0,
        ).unwrap());
        assert(ins.accounts_view() =~= spec_continuation_accounts(
            *cfg,
            *acc,
            ticks[0int]@,
            ticks[1int]@,
            ticks[2int]@,
        ));
    }
    Ok(ThreadResponse { kickoff_instruction: None, next_instruction: Some(ins) })
}

/// Law: window resolution is idempotent. The bracket addresses a firing
/// resolves are a function of the live price state and the pool identity
/// alone, so recomputing the window for an unchanged price yields the same
/// addresses, whether on a retry or on the next firing.
pub proof fn lemma_window_resolution_deterministic(
    whirlpool_program: Seq<u8>,
    whirlpool: Seq<u8>,
    tick_current_index: int,
    tick_spacing: int,
    a_to_b: bool,
    i: int,
    r1: Option<Seq<u8>>,
    r2: Option<Seq<u8>>,
)
    requires
        r1 == spec_tick_array_address(
            whirlpool_program,
            whirlpool,
            tick_current_index,
            tick_spacing,
            a_to_b,
            i,
        ),
        r2 == spec_tick_array_address(
            whirlpool_program,
            whirlpool,
            tick_current_index,
            tick_spacing,
            a_to_b,
            i,
        ),
    ensures
        r1 == r2,
{
}

} // verus!
