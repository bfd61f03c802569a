//! The per-owner record lifecycle: planning the atomic batches that create a
//! record with its vaults, arm and fund its schedule trigger, and tear both
//! down, with the preconditions each step owes.

use vstd::prelude::*;

use crate::address::Address;
use crate::derivation::{
    associated_token_address_of, derive_record_address, derive_thread_address,
    derive_vault_address, program_address_of, spec_record_seeds, spec_thread_seeds,
};
use crate::instruction::{
    encode_create_data, encode_delete_data, AccountRef, InstructionPlan, spec_create_data,
    spec_delete_data, SwapParams,
};
use crate::kickoff::{build_kickoff_instruction, GetTickArrays};
use crate::store::{AccountStore, StoreOp};

verus! {

/// The program namespaces every derivation and instruction is made under,
/// supplied by the caller rather than compiled in.
#[derive(Clone, Copy, Debug)]
pub struct ProgramConfig {
    /// Namespace of the recurring-swap program owning records and vault authority.
    pub dca_program: Address,
    /// Namespace of the pool program owning tick arrays.
    pub whirlpool_program: Address,
    /// Namespace of the trigger network owning schedule threads.
    pub thread_program: Address,
    /// The runtime's account-creation program.
    pub system_program: Address,
    /// The runtime's asset-custody program.
    pub token_program: Address,
    /// The runtime's custody-address program.
    pub associated_token_program: Address,
}

/// Why a lifecycle step was rejected. Every rejection happens before any
/// state mutation.
#[derive(Clone, Copy, PartialEq, Eq, Structural, Debug)]
pub enum LifecycleError {
    /// A record already lives for this owner and pair.
    RecordExists,
    /// No record lives for this owner and pair.
    RecordMissing,
    /// A trigger is already armed under this identifier.
    TriggerExists,
    /// No trigger is armed under this identifier.
    TriggerMissing,
    /// A required address has no viable derivation.
    DerivationUnavailable,
}

/// The account list of the record-creation instruction.
pub open spec fn spec_create_accounts(
    cfg: ProgramConfig,
    owner: Address,
    mint_a: Address,
    mint_b: Address,
    dca: Address,
    authority_a_vault: Address,
    authority_b_vault: Address,
    dca_a_vault: Address,
    dca_b_vault: Address,
    whirlpool: Address,
) -> Seq<(Seq<u8>, bool, bool)> {
    seq![
        (cfg.associated_token_program@, false, false),
        (owner@, true, true),
        (authority_a_vault@, false, true),
        (mint_a@, false, false),
        (authority_b_vault@, false, true),
        (mint_b@, false, false),
        (dca@, false, true),
        (dca_a_vault@, false, true),
        (dca_b_vault@, false, true),
        (cfg.system_program@, false, false),
        (cfg.token_program@, false, false),
        (whirlpool@, false, false),
    ]
}

/// The account list of the record-deletion instruction.
pub open spec fn spec_delete_accounts(owner: Address, close_to: Address, dca: Address) -> Seq<
    (Seq<u8>, bool, bool),
> {
    seq![(owner@, true, true), (close_to@, false, true), (dca@, false, true)]
}

/// Everything a successful creation step hands back: the record address, the
/// four custody addresses, the instruction to submit, and the batch's effect
/// on the account store.
pub struct CreatePlan {
    pub dca: Address,
    pub authority_a_vault: Address,
    pub authority_b_vault: Address,
    pub dca_a_vault: Address,
    pub dca_b_vault: Address,
    pub instruction: InstructionPlan,
    pub ops: Vec<StoreOp>,
}

/// Plan the atomic record-creation batch: the record, both of its vaults, and
/// the delegation instruction, all created together or not at all. Rejected
/// before any effect when a record already lives for this owner and pair.
pub fn plan_create(
    store: &AccountStore,
    cfg: &ProgramConfig,
    owner: &Address,
    mint_a: &Address,
    mint_b: &Address,
    whirlpool: &Address,
    params: &SwapParams,
) -> (r: Result<CreatePlan, LifecycleError>)
    ensures
        r == Err::<CreatePlan, LifecycleError>(LifecycleError::DerivationUnavailable)
            <==> program_address_of(spec_record_seeds(owner@, mint_a@, mint_b@), cfg.dca_program@)
            is None,
        r == Err::<CreatePlan, LifecycleError>(LifecycleError::RecordExists)
            <==> (program_address_of(
            spec_record_seeds(owner@, mint_a@, mint_b@),
            cfg.dca_program@,
        ) matches Some(rec) && store@.contains(rec)),
        r is Ok <==> (program_address_of(
            spec_record_seeds(owner@, mint_a@, mint_b@),
            cfg.dca_program@,
        ) matches Some(rec) && !store@.contains(rec)),
        r matches Ok(p) ==> {
            &&& Some(p.dca@) == program_address_of(
                spec_record_seeds(owner@, mint_a@, mint_b@),
                cfg.dca_program@,
            )
            &&& p.authority_a_vault@ == associated_token_address_of(owner@, mint_a@)
            &&& p.authority_b_vault@ == associated_token_address_of(owner@, mint_b@)
            &&& p.dca_a_vault@ == associated_token_address_of(p.dca@, mint_a@)
            &&& p.dca_b_vault@ == associated_token_address_of(p.dca@, mint_b@)
            &&& p.instruction.program == cfg.dca_program
            &&& p.instruction.data@ == spec_create_data(*params)
            &&& p.instruction.accounts_view() == spec_create_accounts(
                *cfg,
                *owner,
                *mint_a,
                *mint_b,
                p.dca,
                p.authority_a_vault,
                p.authority_b_vault,
                p.dca_a_vault,
                p.dca_b_vault,
                *whirlpool,
            )
            &&& p.ops@ == seq![
                StoreOp::Create(p.dca),
                StoreOp::Create(p.dca_a_vault),
                StoreOp::Create(p.dca_b_vault),
                StoreOp::Delegate { vault: p.authority_a_vault, to: p.dca },
            ]
        },
{
    let dca = match derive_record_address(&cfg.dca_program, owner, mint_a, mint_b) {
        Some(a) => a,
        None => {
            return Err(LifecycleError::DerivationUnavailable);
        },
    };
    if store.is_live(&dca) {
        return Err(LifecycleError::RecordExists);
    }
    let authority_a_vault = derive_vault_address(owner, mint_a);
    let authority_b_vault = derive_vault_address(owner, mint_b);
    let dca_a_vault = derive_vault_address(&dca, mint_a);
    let dca_b_vault = derive_vault_address(&dca, mint_b);
    let mut accounts: Vec<AccountRef> = Vec::new();
    accounts.push(
        AccountRef { address: cfg.associated_token_program, is_signer: false, is_writable: false },
    );
    accounts.push(AccountRef { address: *owner, is_signer: true, is_writable: true });
    accounts.push(AccountRef { address: authority_a_vault, is_signer: false, is_writable: true });
    accounts.push(AccountRef { address: *mint_a, is_signer: false, is_writable: false });
    accounts.push(AccountRef { address: authority_b_vault, is_signer: false, is_writable: true });
    accounts.push(AccountRef { address: *mint_b, is_signer: false, is_writable: false });
    accounts.push(AccountRef { address: dca, is_signer: false, is_writable: true });
    accounts.push(AccountRef { address: dca_a_vault, is_signer: false, is_writable: true });
    accounts.push(AccountRef { address: dca_b_vault, is_signer: false, is_writable: true });
    accounts.push(AccountRef { address: cfg.system_program, is_signer: false, is_writable: false });
    accounts.push(AccountRef { address: cfg.token_program, is_signer: false, is_writable: false });
    accounts.push(AccountRef { address: *whirlpool, is_signer: false, is_writable: false });
    let instruction = InstructionPlan {
        program: cfg.dca_program,
        accounts,
        data: encode_create_data(params),
    };
    let mut ops: Vec<StoreOp> = Vec::new();
    ops.push(StoreOp::Create(dca));
    ops.push(StoreOp::Create(dca_a_vault));
    ops.push(StoreOp::Create(dca_b_vault));
    ops.push(StoreOp::Delegate { vault: authority_a_vault, to: dca });
    let p = CreatePlan {
        dca,
        authority_a_vault,
        authority_b_vault,
        dca_a_vault,
        dca_b_vault,
        instruction,
        ops,
    };
    proof {
        assert(p.instruction.accounts_view() =~= spec_create_accounts(
            *cfg,
            *owner,
            *mint_a,
            *mint_b,
            p.dca,
            p.authority_a_vault,
            p.authority_b_vault,
            p.dca_a_vault,
            p.dca_b_vault,
            *whirlpool,
        ));
        assert(p.ops@ =~= seq![
            StoreOp::Create(p.dca),
            StoreOp::Create(p.dca_a_vault),
            StoreOp::Create(p.dca_b_vault),
            StoreOp::Delegate { vault: p.authority_a_vault, to: p.dca },
        ]);
    }
    Ok(p)
}

/// The account list the kickoff instruction is armed with, written over the
/// derivation names of the record and its vaults.
pub open spec fn spec_armed_kickoff_accounts(
    cfg: ProgramConfig,
    rec: Seq<u8>,
    owner: Seq<u8>,
    mint_a: Seq<u8>,
    mint_b: Seq<u8>,
    thread: Seq<u8>,
    oracle: Seq<u8>,
    whirlpool: Seq<u8>,
) -> Seq<(Seq<u8>, bool, bool)> {
    seq![
        (associated_token_address_of(owner, mint_a), false, true),
        (associated_token_address_of(owner, mint_b), false, true),
        (rec, false, true),
        (associated_token_address_of(rec, mint_a), false, true),
        (associated_token_address_of(rec, mint_b), false, true),
        (thread, true, true),
        (oracle, false, false),
        (cfg.system_program@, false, false),
        (cfg.token_program@, false, false),
        (whirlpool, false, true),
    ]
}

/// Everything a successful arming step hands back: the trigger address, the
/// kickoff instruction it is bound to, the cadence, the budget transfer, and
/// the batch's effect on the account store.
pub struct ArmPlan {
    pub thread: Address,
    pub kickoff_instruction: InstructionPlan,
    pub schedule: Vec<u8>,
    pub skippable: bool,
    pub fund_amount: u64,
    pub ops: Vec<StoreOp>,
}

/// Plan the atomic trigger-arming batch: create the trigger bound to the
/// kickoff instruction with the given cadence, and fund its execution budget,
/// in one batch so a trigger is never armed with zero budget. Rejected when
/// the record is missing or a trigger is already armed under the identifier.
pub fn plan_arm_trigger(
    store: &AccountStore,
    cfg: &ProgramConfig,
    owner: &Address,
    mint_a: &Address,
    mint_b: &Address,
    whirlpool: &Address,
    oracle: &Address,
    thread_id: &Vec<u8>,
    schedule: &Vec<u8>,
    skippable: bool,
    fund_amount: u64,
) -> (r: Result<ArmPlan, LifecycleError>)
    ensures
        r == Err::<ArmPlan, LifecycleError>(LifecycleError::DerivationUnavailable)
            <==> (program_address_of(spec_record_seeds(owner@, mint_a@, mint_b@), cfg.dca_program@)
            is None || (program_address_of(
            spec_record_seeds(owner@, mint_a@, mint_b@),
            cfg.dca_program@,
        ) matches Some(rec) && store@.contains(rec) && program_address_of(
            spec_thread_seeds(owner@, thread_id@),
            cfg.thread_program@,
        ) is None)),
        r == Err::<ArmPlan, LifecycleError>(LifecycleError::RecordMissing)
            <==> (program_address_of(
            spec_record_seeds(owner@, mint_a@, mint_b@),
            cfg.dca_program@,
        ) matches Some(rec) && !store@.contains(rec)),
        r == Err::<ArmPlan, LifecycleError>(LifecycleError::TriggerExists)
            <==> (program_address_of(
            spec_record_seeds(owner@, mint_a@, mint_b@),
            cfg.dca_program@,
        ) matches Some(rec) && store@.contains(rec) && (program_address_of(
            spec_thread_seeds(owner@, thread_id@),
            cfg.thread_program@,
        ) matches Some(th) && store@.contains(th))),
        r is Ok <==> (program_address_of(
            spec_record_seeds(owner@, mint_a@, mint_b@),
            cfg.dca_program@,
        ) matches Some(rec) && store@.contains(rec) && (program_address_of(
            spec_thread_seeds(owner@, thread_id@),
            cfg.thread_program@,
        ) matches Some(th) && !store@.contains(th))),
        r matches Ok(p) ==> {
            &&& Some(p.thread@) == program_address_of(
                spec_thread_seeds(owner@, thread_id@),
                cfg.thread_program@,
            )
            &&& p.kickoff_instruction.program == cfg.dca_program
            &&& p.kickoff_instruction.data@ == crate::instruction::spec_kickoff_data()
            &&& (program_address_of(
                spec_record_seeds(owner@, mint_a@, mint_b@),
                cfg.dca_program@,
            ) matches Some(rec) && p.kickoff_instruction.accounts_view()
                == spec_armed_kickoff_accounts(
                *cfg,
                rec,
                owner@,
                mint_a@,
                mint_b@,
                p.thread@,
                oracle@,
                whirlpool@,
            ))
            &&& p.schedule@ == schedule@
            &&& p.skippable == skippable
            &&& p.fund_amount == fund_amount
            &&& p.ops@ == seq![
                StoreOp::Create(p.thread),
                StoreOp::Fund { to: p.thread, amount: fund_amount },
            ]
        },
{
    let dca = match derive_record_address(&cfg.dca_program, owner, mint_a, mint_b) {
        Some(a) => a,
        None => {
            return Err(LifecycleError::DerivationUnavailable);
        },
    };
    if !store.is_live(&dca) {
        return Err(LifecycleError::RecordMissing);
    }
    let thread = match derive_thread_address(&cfg.thread_program, owner, thread_id) {
        Some(a) => a,
        None => {
            return Err(LifecycleError::DerivationUnavailable);
        },
    };
    if store.is_live(&thread) {
        return Err(LifecycleError::TriggerExists);
    }
    let acc = GetTickArrays {
        authority_a_vault: derive_vault_address(owner, mint_a),
        authority_b_vault: derive_vault_address(owner, mint_b),
        dca,
        dca_a_vault: derive_vault_address(&dca, mint_a),
        dca_b_vault: derive_vault_address(&dca, mint_b),
        dca_thread: thread,
        oracle: *oracle,
        whirlpool: *whirlpool,
    };
    let kickoff_instruction = build_kickoff_instruction(cfg, &acc);
    let mut sched: Vec<u8> = Vec::new();
    crate::instruction::extend_bytes(&mut sched, schedule);
    let mut ops: Vec<StoreOp> = Vec::new();
    ops.push(StoreOp::Create(thread));
    ops.push(StoreOp::Fund { to: thread, amount: fund_amount });
    let p = ArmPlan {
        thread,
        kickoff_instruction,
        schedule: sched,
        skippable,
        fund_amount,
        ops,
    };
    proof {
        assert(p.ops@ =~= seq![
            StoreOp::Create(p.thread),
            StoreOp::Fund { to: p.thread, amount: fund_amount },
        ]);
        assert(p.schedule@ =~= schedule@);
        assert(p.kickoff_instruction.accounts_view() =~= spec_armed_kickoff_accounts(
            *cfg,
            dca@,
            owner@,
            mint_a@,
            mint_b@,
            p.thread@,
            oracle@,
            whirlpool@,
        ));
    }
    Ok(p)
}

/// Everything a successful deletion step hands back: the instruction that
/// closes the record, and the batch's effect on the account store. The two
/// vaults are deliberately left open: custody is withdrawn through a
/// separate, explicit path so an automated teardown cannot lose funds.
pub struct DeletePlan {
    pub dca: Address,
    pub thread: Address,
    pub instruction: InstructionPlan,
    pub ops: Vec<StoreOp>,
}

/// Plan the atomic teardown batch: delete the trigger, refunding its unused
/// budget, and close the record, refunding its rent to `close_to`, together.
/// Rejected when the record or the trigger is not live.
pub fn plan_delete(
    store: &AccountStore,
    cfg: &ProgramConfig,
    owner: &Address,
    mint_a: &Address,
    mint_b: &Address,
    thread_id: &Vec<u8>,
    close_to: &Address,
) -> (r: Result<DeletePlan, LifecycleError>)
    ensures
        r == Err::<DeletePlan, LifecycleError>(LifecycleError::DerivationUnavailable)
            <==> (program_address_of(spec_record_seeds(owner@, mint_a@, mint_b@), cfg.dca_program@)
            is None || (program_address_of(
            spec_record_seeds(owner@, mint_a@, mint_b@),
            cfg.dca_program@,
        ) matches Some(rec) && store@.contains(rec) && program_address_of(
            spec_thread_seeds(owner@, thread_id@),
            cfg.thread_program@,
        ) is None)),
        r == Err::<DeletePlan, LifecycleError>(LifecycleError::RecordMissing)
            <==> (program_address_of(
            spec_record_seeds(owner@, mint_a@, mint_b@),
            cfg.dca_program@,
        ) matches Some(rec) && !store@.contains(rec)),
        r == Err::<DeletePlan, LifecycleError>(LifecycleError::TriggerMissing)
            <==> (program_address_of(
            spec_record_seeds(owner@, mint_a@, mint_b@),
            cfg.dca_program@,
        ) matches Some(rec) && store@.contains(rec) && (program_address_of(
            spec_thread_seeds(owner@, thread_id@),
            cfg.thread_program@,
        ) matches Some(th) && !store@.contains(th))),
        r is Ok <==> (program_address_of(
            spec_record_seeds(owner@, mint_a@, mint_b@),
            cfg.dca_program@,
        ) matches Some(rec) && store@.contains(rec) && (program_address_of(
            spec_thread_seeds(owner@, thread_id@),
            cfg.thread_program@,
        ) matches Some(th) && store@.contains(th))),
        r matches Ok(p) ==> {
            &&& Some(p.dca@) == program_address_of(
                spec_record_seeds(owner@, mint_a@, mint_b@),
                cfg.dca_program@,
            )
            &&& Some(p.thread@) == program_address_of(
                spec_thread_seeds(owner@, thread_id@),
                cfg.thread_program@,
            )
            &&& p.instruction.program == cfg.dca_program
            &&& p.instruction.data@ == spec_delete_data()
            &&& p.instruction.accounts_view() == spec_delete_accounts(*owner, *close_to, p.dca)
            &&& p.ops@ == seq![StoreOp::Close(p.thread), StoreOp::Close(p.dca)]
        },
{
    let dca = match derive_record_address(&cfg.dca_program, owner, mint_a, mint_b) {
        Some(a) => a,
        None => {
            return Err(LifecycleError::DerivationUnavailable);
        },
    };
    if !store.is_live(&dca) {
        return Err(LifecycleError::RecordMissing);
    }
    let thread = match derive_thread_address(&cfg.thread_program, owner, thread_id) {
        Some(a) => a,
        None => {
            return Err(LifecycleError::DerivationUnavailable);
        },
    };
    if !store.is_live(&thread) {
        return Err(LifecycleError::TriggerMissing);
    }
    let mut accounts: Vec<AccountRef> = Vec::new();
    accounts.push(AccountRef { address: *owner, is_signer: true, is_writable: true });
    accounts.push(AccountRef { address: *close_to, is_signer: false, is_writable: true });
    accounts.push(AccountRef { address: dca, is_signer: false, is_writable: true });
    let instruction = InstructionPlan {
        program: cfg.dca_program,
        accounts,
        data: encode_delete_data(),
    };
    let mut ops: Vec<StoreOp> = Vec::new();
    ops.push(StoreOp::Close(thread));
    ops.push(StoreOp::Close(dca));
    let p = DeletePlan { dca, thread, instruction, ops };
    proof {
        assert(p.instruction.accounts_view() =~= spec_delete_accounts(*owner, *close_to, p.dca));
        assert(p.ops@ =~= seq![StoreOp::Close(p.thread), StoreOp::Close(p.dca)]);
    }
    Ok(p)
}

/// Law: a committed creation batch makes the record live, and it cannot have
/// been live before, so a second creation for the same owner and pair is
/// rejected by `plan_create` until the record is deleted.
pub proof fn lemma_create_makes_record_live(
    s: Set<Seq<u8>>,
    dca: Address,
    dca_a_vault: Address,
    dca_b_vault: Address,
    authority_a_vault: Address,
    s1: Set<Seq<u8>>,
)
    requires
        Some(s1) == crate::store::spec_apply_batch(
            s,
            seq![
                StoreOp::Create(dca),
                StoreOp::Create(dca_a_vault),
                StoreOp::Create(dca_b_vault),
                StoreOp::Delegate { vault: authority_a_vault, to: dca },
            ],
        ),
    ensures
        s1.contains(dca@),
        !s.contains(dca@),
{
    reveal_with_fuel(crate::store::spec_apply_batch, 6);
    let ops = seq![
        StoreOp::Create(dca),
        StoreOp::Create(dca_a_vault),
        StoreOp::Create(dca_b_vault),
        StoreOp::Delegate { vault: authority_a_vault, to: dca },
    ];
    assert(ops.skip(1) =~= seq![
        StoreOp::Create(dca_a_vault),
        StoreOp::Create(dca_b_vault),
        StoreOp::Delegate { vault: authority_a_vault, to: dca },
    ]);
    assert(ops.skip(1).skip(1) =~= seq![
        StoreOp::Create(dca_b_vault),
        StoreOp::Delegate { vault: authority_a_vault, to: dca },
    ]);
    assert(ops.skip(1).skip(1).skip(1) =~= seq![
        StoreOp::Delegate { vault: authority_a_vault, to: dca },
    ]);
    assert(ops.skip(1).skip(1).skip(1).skip(1) =~= Seq::<StoreOp>::empty());
}

/// Law: a committed teardown batch leaves neither the record nor the trigger
/// live, so the pair is free for a fresh creation and arming afterwards.
pub proof fn lemma_delete_frees_record(s: Set<Seq<u8>>, thread: Address, dca: Address, s1: Set<
    Seq<u8>,
>)
    requires
        Some(s1) == crate::store::spec_apply_batch(
            s,
            seq![StoreOp::Close(thread), StoreOp::Close(dca)],
        ),
    ensures
        !s1.contains(dca@),
        !s1.contains(thread@),
{
    reveal_with_fuel(crate::store::spec_apply_batch, 4);
    let ops = seq![StoreOp::Close(thread), StoreOp::Close(dca)];
    assert(ops.skip(1) =~= seq![StoreOp::Close(dca)]);
    assert(ops.skip(1).skip(1) =~= Seq::<StoreOp>::empty());
}

} // verus!
