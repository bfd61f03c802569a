//! A model of the runtime's account store: the set of live storage addresses,
//! and atomic all-or-nothing application of an instruction batch against it.

use vstd::prelude::*;

use crate::address::Address;

verus! {

/// One effect an instruction batch has on the account store.
#[derive(Clone, Copy, PartialEq, Eq, Debug)]
pub enum StoreOp {
    /// Bring an account to life at an address; fails if one already lives there.
    Create(Address),
    /// Close the account at an address; fails if none lives there.
    Close(Address),
    /// Move execution budget to a live account; fails if the target is absent.
    Fund { to: Address, amount: u64 },
    /// Delegate transfer authority over a custody address to a live account;
    /// fails if the new authority is absent.
    Delegate { vault: Address, to: Address },
}

/// The set of addresses a sequence of account values occupies.
pub open spec fn spec_addr_set(s: Seq<Address>) -> Set<Seq<u8>> {
    Set::new(|a: Seq<u8>| exists|i: int| 0 <= i < s.len() && s[i]@ == a)
}

/// Effect of one operation on the live set, or `None` when it cannot apply.
pub open spec fn spec_apply_op(s: Set<Seq<u8>>, op: StoreOp) -> Option<Set<Seq<u8>>> {
    match op {
        StoreOp::Create(a) => if s.contains(a@) {
            None
        } else {
            Some(s.insert(a@))
        },
        StoreOp::Close(a) => if s.contains(a@) {
            Some(s.remove(a@))
        } else {
            None
        },
        StoreOp::Fund { to, amount } => if s.contains(to@) {
            Some(s)
        } else {
            None
        },
        StoreOp::Delegate { vault, to } => if s.contains(to@) {
            Some(s)
        } else {
            None
        },
    }
}

/// Effect of a whole batch, or `None` when any operation cannot apply.
pub open spec fn spec_apply_batch(s: Set<Seq<u8>>, ops: Seq<StoreOp>) -> Option<Set<Seq<u8>>>
    decreases ops.len(),
{
    if ops.len() == 0 {
        Some(s)
    } else {
        match spec_apply_op(s, ops[0]) {
            None => None,
            Some(s2) => spec_apply_batch(s2, ops.skip(1)),
        }
    }
}

/// A batch was rejected: one of its operations could not apply, and the store
/// is exactly as it was.
#[derive(Clone, Copy, PartialEq, Eq, Structural, Debug)]
pub enum BatchError {
    Rejected,
}

/// The live accounts of the runtime, addressed by value.
pub struct AccountStore {
    accounts: Vec<Address>,
}

impl View for AccountStore {
    type V = Set<Seq<u8>>;

    closed spec fn view(&self) -> Set<Seq<u8>> {
        spec_addr_set(self.accounts@)
    }
}

/// No two slots hold the same address, so close removes exactly one account.
pub open spec fn spec_no_dup(s: Seq<Address>) -> bool {
    forall|i: int, j: int| 0 <= i < j < s.len() ==> s[i]@ != s[j]@
}

fn vec_find(accounts: &Vec<Address>, a: &Address) -> (r: Option<usize>)
    ensures
        r matches Some(i) ==> i < accounts@.len() && accounts@[i as int]@ == a@,
        r is None ==> !spec_addr_set(accounts@).contains(a@),
        r is Some <==> spec_addr_set(accounts@).contains(a@),
{
    let mut i: usize = 0;
    while i < accounts.len()
        invariant
            0 <= i <= accounts@.len(),
            forall|j: int| 0 <= j < i ==> accounts@[j]@ != a@,
        decreases accounts@.len() - i,
    {
        if accounts[i] == *a {
            return Some(i);
        }
        i = i + 1;
    }
    None
}

proof fn lemma_addr_set_push(s: Seq<Address>, a: Address)
    ensures
        spec_addr_set(s.push(a)) =~= spec_addr_set(s).insert(a@),
{
    assert forall|x: Seq<u8>| spec_addr_set(s.push(a)).contains(x) implies spec_addr_set(
        s,
    ).insert(a@).contains(x) by {
        let i = choose|i: int| 0 <= i < s.push(a).len() && s.push(a)[i]@ == x;
        if i < s.len() {
            assert(s[i]@ == x);
        } else {
            assert(x == a@);
        }
    }
    assert forall|x: Seq<u8>| spec_addr_set(s).insert(a@).contains(x) implies spec_addr_set(
        s.push(a),
    ).contains(x) by {
        if x == a@ {
            assert(s.push(a)[s.len() as int]@ == x);
        } else {
            let i = choose|i: int| 0 <= i < s.len() && s[i]@ == x;
            assert(s.push(a)[i]@ == x);
        }
    }
}

proof fn lemma_no_dup_push(s: Seq<Address>, a: Address)
    requires
        spec_no_dup(s),
        !spec_addr_set(s).contains(a@),
    ensures
        spec_no_dup(s.push(a)),
{
    assert forall|i: int, j: int| 0 <= i < j < s.push(a).len() implies s.push(a)[i]@ != s.push(
        a,
    )[j]@ by {
        if j < s.len() {
            assert(s.push(a)[i] == s[i] && s.push(a)[j] == s[j]);
        } else {
            assert(s.push(a)[i] == s[i]);
            assert(!exists|k: int| 0 <= k < s.len() && s[k]@ == a@);
        }
    }
}

proof fn lemma_addr_set_remove(s: Seq<Address>, idx: int)
    requires
        spec_no_dup(s),
        0 <= idx < s.len(),
    ensures
        spec_addr_set(s.remove(idx)) =~= spec_addr_set(s).remove(s[idx]@),
        spec_no_dup(s.remove(idx)),
{
    let t = s.remove(idx);
    let a = s[idx]@;
    s.remove_ensures(idx);
    assert forall|x: Seq<u8>| spec_addr_set(t).contains(x) implies spec_addr_set(s).remove(
        a,
    ).contains(x) by {
        let i = choose|i: int| 0 <= i < t.len() && t[i]@ == x;
        if i < idx {
            assert(s[i]@ == x);
        } else {
            assert(s[i + 1]@ == x);
        }
    }
    assert forall|x: Seq<u8>| spec_addr_set(s).remove(a).contains(x) implies spec_addr_set(
        t,
    ).contains(x) by {
        let i = choose|i: int| 0 <= i < s.len() && s[i]@ == x;
        if i < idx {
            assert(t[i]@ == x);
        } else {
            assert(i != idx);
            assert(t[i - 1]@ == x);
        }
    }
    assert forall|i: int, j: int| 0 <= i < j < t.len() implies t[i]@ != t[j]@ by {
        let si: int = if i < idx { i } else { i + 1 };
        let sj: int = if j < idx { j } else { j + 1 };
        assert(t[i] == s[si] && t[j] == s[sj]);
    }
}

impl AccountStore {
    /// The store invariant: one slot per address.
    pub closed spec fn wf(&self) -> bool {
        spec_no_dup(self.accounts@)
    }

    /// An empty store: nothing lives anywhere.
    pub fn new() -> (r: AccountStore)
        ensures
            r.wf(),
            r@ == Set::<Seq<u8>>::empty(),
    {
        let r = AccountStore { accounts: Vec::new() };
        proof {
            assert(r@ =~= Set::<Seq<u8>>::empty());
        }
        r
    }

    /// Whether an account lives at the address.
    pub fn is_live(&self, a: &Address) -> (r: bool)
        ensures
            r == self@.contains(a@),
    {
        vec_find(&self.accounts, a).is_some()
    }

    /// Apply a batch atomically: every operation applies and the store is the
    /// batch's effect, or none does and the store is untouched. A failure
    /// partway through an attempted batch never leaves a partial result.
    pub fn apply_batch(&mut self, ops: &Vec<StoreOp>) -> (r: Result<(), BatchError>)
        requires
            old(self).wf(),
        ensures
            final(self).wf(),
            r is Ok <==> spec_apply_batch(old(self)@, ops@) is Some,
            r is Ok ==> Some(final(self)@) == spec_apply_batch(old(self)@, ops@),
            r is Err ==> final(self)@ == old(self)@ && r == Err::<(), BatchError>(
                BatchError::Rejected,
            ),
    {
        let mut next: Vec<Address> = Vec::new();
        let mut i: usize = 0;
        while i < self.accounts.len()
            invariant
                0 <= i <= self.accounts@.len(),
                next@ == self.accounts@.subrange(0, i as int),
            decreases self.accounts@.len() - i,
        {
            next.push(self.accounts[i]);
            proof {
                assert(next@ =~= self.accounts@.subrange(0, i + 1));
            }
            i = i + 1;
        }
        proof {
            assert(next@ =~= self.accounts@);
        }
        let mut k: usize = 0;
        proof {
            assert(ops@.skip(0) =~= ops@);
        }
        while k < ops.len()
            invariant
                0 <= k <= ops@.len(),
                spec_no_dup(next@),
                self == old(self),
                self.wf(),
                spec_apply_batch(old(self)@, ops@) == spec_apply_batch(
                    spec_addr_set(next@),
                    ops@.skip(k as int),
                ),
            decreases ops@.len() - k,
        {
            let ghost pre = spec_addr_set(next@);
            let ghost rest = ops@.skip(k as int);
            proof {
                assert(rest[0] == ops@[k as int]);
                assert(rest.skip(1) =~= ops@.skip(k as int + 1));
            }
            let op = ops[k];
            match op {
                StoreOp::Create(a) => {
                    if vec_find(&next, &a).is_some() {
                        return Err(BatchError::Rejected);
                    }
                    let ghost prev = next@;
                    next.push(a);
                    proof {
                        lemma_addr_set_push(prev, a);
                        lemma_no_dup_push(prev, a);
                    }
                },
                StoreOp::Close(a) => {
                    match vec_find(&next, &a) {
                        Some(idx) => {
                            let ghost prev = next@;
                            let _ = next.remove(idx);
                            proof {
                                lemma_addr_set_remove(prev, idx as int);
                                assert(prev[idx as int]@ == a@);
                            }
                        },
                        None => {
                            return Err(BatchError::Rejected);
                        },
                    }
                },
                StoreOp::Fund { to, amount } => {
                    if !vec_find(&next, &to).is_some() {
                        return Err(BatchError::Rejected);
                    }
                },
                StoreOp::Delegate { vault, to } => {
                    if !vec_find(&next, &to).is_some() {
                        return Err(BatchError::Rejected);
                    }
                },
            }
            k = k + 1;
        }
        proof {
            assert(ops@.skip(ops@.len() as int) =~= Seq::<StoreOp>::empty());
        }
        self.accounts = next;
        Ok(())
    }
}

} // verus!
