//! Action types: named business operations with fixed directional effects on
//! the four balance fields.

use vstd::prelude::*;
use crate::amount::{magnitude_micro_i128, RawAmount};
use crate::cache::{ActionTypeSnapshot, CatalogCache, CACHE_TTL};
use crate::error::AccountError;
use crate::ledger::Ledger;

verus! {

/// The direction an action type applies to one balance field.
#[derive(Clone, Copy, Debug, PartialEq, Eq, Structural)]
pub enum Change {
    INC,
    DEC,
    NONE,
}

/// The signed delta a direction applies for a magnitude of `m` micro units:
/// `+m` for an increment, `-m` for a decrement, `0` otherwise.
pub open spec fn signed_delta(c: Change, m: int) -> int {
    match c {
        Change::INC => m,
        Change::DEC => -m,
        Change::NONE => 0,
    }
}

impl Change {
    /// The signed delta this direction applies for the given amount:
    /// magnitude `|amount|` truncated to the six-digit grid, sign by variant.
    pub fn calculate_change(&self, amount: RawAmount) -> (r: i128)
        requires
            amount.wf(),
        ensures
            r == signed_delta(*self, amount.magnitude_micro()),
            -10000000000000000000000000 < r < 10000000000000000000000000,
    {
        let m = magnitude_micro_i128(amount);
        match self {
            Change::INC => m,
            Change::DEC => -m,
            Change::NONE => 0,
        }
    }
}

/// A named business operation.  Each `*_change` field tells how applying the
/// action moves the corresponding balance.  Immutable business metadata,
/// activation aside; read far more often than written.
#[derive(Debug)]
pub struct ActionType {
    pub id: i32,
    pub name: String,
    pub description: String,
    pub available_balance_change: Change,
    pub frozen_balance_change: Change,
    pub total_income_change: Change,
    pub total_expense_change: Change,
    pub is_active: bool,
}

/// Index of the first row with the given id, scanning from position `i`.
pub open spec fn action_id_lookup_from(s: Seq<ActionType>, id: i32, i: int) -> Option<int>
    decreases s.len() - i,
{
    if i < 0 || i >= s.len() {
        None
    } else if s[i].id == id {
        Some(i)
    } else {
        action_id_lookup_from(s, id, i + 1)
    }
}

/// Index of the first row with the given id, if any.  Ids are unique in a
/// well-formed store, so this is the row the durable store would return.
pub open spec fn action_id_lookup(s: Seq<ActionType>, id: i32) -> Option<int> {
    action_id_lookup_from(s, id, 0)
}

/// Whether an action type with this id exists and is active.
pub open spec fn action_active(s: Seq<ActionType>, id: i32) -> bool {
    match action_id_lookup(s, id) {
        Some(k) => s[k].is_active,
        None => false,
    }
}

/// The active rows among the first `n`, in store order.
pub open spec fn active_actions_upto(s: Seq<ActionType>, n: int) -> Seq<ActionType>
    decreases n,
{
    if n <= 0 {
        Seq::<ActionType>::empty()
    } else {
        let rest = active_actions_upto(s, n - 1);
        if s[n - 1].is_active {
            rest.push(s[n - 1])
        } else {
            rest
        }
    }
}

/// The active subset of the catalog, in store order.
pub open spec fn active_actions(s: Seq<ActionType>) -> Seq<ActionType> {
    active_actions_upto(s, s.len() as int)
}

/// What resolving an action type for the mutation path returns: the active
/// row with the given id, or a store-level failure when it is gone.
pub open spec fn fetch_one_spec(s: Seq<ActionType>, id: i32) -> Result<ActionType, AccountError> {
    match action_id_lookup(s, id) {
        Some(k) => if s[k].is_active {
            Ok(s[k])
        } else {
            Err(AccountError::Internal)
        },
        None => Err(AccountError::Internal),
    }
}

pub proof fn lemma_action_id_lookup_none(s: Seq<ActionType>, id: i32, i: int)
    requires
        0 <= i,
        action_id_lookup_from(s, id, i) is None,
    ensures
        forall|j: int| i <= j < s.len() ==> s[j].id != id,
    decreases s.len() - i,
{
    if 0 <= i < s.len() {
        lemma_action_id_lookup_none(s, id, i + 1);
    }
}

fn copy_action_type(a: &ActionType) -> (r: ActionType)
    ensures
        r == *a,
{
    ActionType {
        id: a.id,
        name: a.name.clone(),
        description: a.description.clone(),
        available_balance_change: a.available_balance_change,
        frozen_balance_change: a.frozen_balance_change,
        total_income_change: a.total_income_change,
        total_expense_change: a.total_expense_change,
        is_active: a.is_active,
    }
}

fn copy_action_types(v: &Vec<ActionType>) -> (r: Vec<ActionType>)
    ensures
        r@ == v@,
{
    let mut out: Vec<ActionType> = Vec::new();
    let n = v.len();
    let mut i: usize = 0;
    while i < n
        invariant
            n == v.len(),
            i <= n,
            out@ == v@.take(i as int),
        decreases n - i,
    {
        out.push(copy_action_type(&v[i]));
        proof {
            assert(v@.take(i as int + 1) =~= v@.take(i as int).push(v@[i as int]));
        }
        i = i + 1;
    }
    proof {
        assert(v@.take(n as int) =~= v@);
    }
    out
}

impl ActionType {
    /// The active action types, preferring a cached snapshot that is no more
    /// than [`CACHE_TTL`] time units old; a fresh snapshot is served as-is,
    /// otherwise the durable store is read and the cache refreshed.
    pub fn fetch_all(store: &Ledger, cache: &mut CatalogCache, now: u64) -> (r: Vec<ActionType>)
        requires
            now <= u64::MAX - CACHE_TTL,
        ensures
            old(cache).action_fresh(now) ==> r@ == old(cache).action_types.unwrap().rows@
                && *final(cache) == *old(cache),
            !old(cache).action_fresh(now) ==> r@ == active_actions(store@.action_types)
                && final(cache).action_types is Some
                && final(cache).action_types.unwrap().rows@ == r@
                && final(cache).action_types.unwrap().expires_at == now + CACHE_TTL
                && final(cache).asset_types == old(cache).asset_types,
    {
        match &cache.action_types {
            Some(snap) => {
                if now < snap.expires_at {
                    return copy_action_types(&snap.rows);
                }
            },
            None => {},
        }
        let n = store.action_types.len();
        let mut rows: Vec<ActionType> = Vec::new();
        let mut i: usize = 0;
        while i < n
            invariant
                n == store.action_types.len(),
                i <= n,
                rows@ == active_actions_upto(store@.action_types, i as int),
            decreases n - i,
        {
            if store.action_types[i].is_active {
                rows.push(copy_action_type(&store.action_types[i]));
            }
            i = i + 1;
        }
        let kept = copy_action_types(&rows);
        cache.action_types = Some(ActionTypeSnapshot { rows: kept, expires_at: now + CACHE_TTL });
        rows
    }

    /// Whether an action type with this id exists and is active.  This check
    /// reads the durable store directly, never the cache, so deactivation
    /// takes effect immediately on the mutation path.
    pub fn is_active(store: &Ledger, id: i32) -> (r: bool)
        ensures
            r == action_active(store@.action_types, id),
    {
        let n = store.action_types.len();
        let mut i: usize = 0;
        while i < n
            invariant
                n == store.action_types.len(),
                i <= n,
                action_id_lookup(store@.action_types, id) == action_id_lookup_from(
                    store@.action_types,
                    id,
                    i as int,
                ),
            decreases n - i,
        {
            if store.action_types[i].id == id {
                return store.action_types[i].is_active;
            }
            i = i + 1;
        }
        false
    }

    /// The active action type with this id, read from the durable store, or a
    /// store-level failure when no such row is there.
    pub fn fetch_one(store: &Ledger, id: i32) -> (r: Result<ActionType, AccountError>)
        ensures
            r == fetch_one_spec(store@.action_types, id),
    {
        let n = store.action_types.len();
        let mut i: usize = 0;
        while i < n
            invariant
                n == store.action_types.len(),
                i <= n,
                action_id_lookup(store@.action_types, id) == action_id_lookup_from(
                    store@.action_types,
                    id,
                    i as int,
                ),
            decreases n - i,
        {
            if store.action_types[i].id == id {
                if store.action_types[i].is_active {
                    return Ok(copy_action_type(&store.action_types[i]));
                }
                return Err(AccountError::Internal);
            }
            i = i + 1;
        }
        Err(AccountError::Internal)
    }
}

} // verus!
