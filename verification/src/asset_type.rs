//! Asset types: the read-mostly catalog of balance categories.

use vstd::prelude::*;
use crate::cache::{AssetTypeSnapshot, CatalogCache, CACHE_TTL};
use crate::ledger::Ledger;

verus! {

/// A category of balance a user can hold (for example a currency).
/// Created and deactivated by an administrative process outside this core.
#[derive(Debug)]
pub struct AssetType {
    pub id: i32,
    pub name: String,
    pub description: String,
    pub is_active: bool,
}

/// Index of the first row with the given id, scanning from position `i`.
pub open spec fn asset_id_lookup_from(s: Seq<AssetType>, id: i32, i: int) -> Option<int>
    decreases s.len() - i,
{
    if i < 0 || i >= s.len() {
        None
    } else if s[i].id == id {
        Some(i)
    } else {
        asset_id_lookup_from(s, id, i + 1)
    }
}

/// Index of the first row with the given id, if any.  Ids are unique in a
/// well-formed store, so this is the row the durable store would return.
pub open spec fn asset_id_lookup(s: Seq<AssetType>, id: i32) -> Option<int> {
    asset_id_lookup_from(s, id, 0)
}

/// Whether an asset type with this id exists and is active.
pub open spec fn asset_active(s: Seq<AssetType>, id: i32) -> bool {
    match asset_id_lookup(s, id) {
        Some(k) => s[k].is_active,
        None => false,
    }
}

/// The active rows among the first `n`, in store order.
pub open spec fn active_assets_upto(s: Seq<AssetType>, n: int) -> Seq<AssetType>
    decreases n,
{
    if n <= 0 {
        Seq::<AssetType>::empty()
    } else {
        let rest = active_assets_upto(s, n - 1);
        if s[n - 1].is_active {
            rest.push(s[n - 1])
        } else {
            rest
        }
    }
}

/// The active subset of the catalog, in store order.
pub open spec fn active_assets(s: Seq<AssetType>) -> Seq<AssetType> {
    active_assets_upto(s, s.len() as int)
}

/// The ids of the active rows among the first `n`, in store order.
pub open spec fn active_asset_ids_upto(s: Seq<AssetType>, n: int) -> Seq<i32>
    decreases n,
{
    if n <= 0 {
        Seq::<i32>::empty()
    } else {
        let rest = active_asset_ids_upto(s, n - 1);
        if s[n - 1].is_active {
            rest.push(s[n - 1].id)
        } else {
            rest
        }
    }
}

/// The ids of all active asset types, in store order.
pub open spec fn active_asset_ids(s: Seq<AssetType>) -> Seq<i32> {
    active_asset_ids_upto(s, s.len() as int)
}

pub proof fn lemma_asset_id_lookup_none(s: Seq<AssetType>, id: i32, i: int)
    requires
        0 <= i,
        asset_id_lookup_from(s, id, i) is None,
    ensures
        forall|j: int| i <= j < s.len() ==> s[j].id != id,
    decreases s.len() - i,
{
    if 0 <= i < s.len() {
        lemma_asset_id_lookup_none(s, id, i + 1);
    }
}

fn copy_asset_type(a: &AssetType) -> (r: AssetType)
    ensures
        r == *a,
{
    AssetType {
        id: a.id,
        name: a.name.clone(),
        description: a.description.clone(),
        is_active: a.is_active,
    }
}

fn copy_asset_types(v: &Vec<AssetType>) -> (r: Vec<AssetType>)
    ensures
        r@ == v@,
{
    let mut out: Vec<AssetType> = Vec::new();
    let n = v.len();
    let mut i: usize = 0;
    while i < n
        invariant
            n == v.len(),
            i <= n,
            out@ == v@.take(i as int),
        decreases n - i,
    {
        out.push(copy_asset_type(&v[i]));
        proof {
            assert(v@.take(i as int + 1) =~= v@.take(i as int).push(v@[i as int]));
        }
        i = i + 1;
    }
    proof {
        assert(v@.take(n as int) =~= v@);
    }
    out
}

impl AssetType {
    /// The active asset types, preferring a cached snapshot that is no more
    /// than [`CACHE_TTL`] time units old; a fresh snapshot is served as-is,
    /// otherwise the durable store is read and the cache refreshed.
    pub fn fetch_all(store: &Ledger, cache: &mut CatalogCache, now: u64) -> (r: Vec<AssetType>)
        requires
            now <= u64::MAX - CACHE_TTL,
        ensures
            old(cache).asset_fresh(now) ==> r@ == old(cache).asset_types.unwrap().rows@
                && *final(cache) == *old(cache),
            !old(cache).asset_fresh(now) ==> r@ == active_assets(store@.asset_types)
                && final(cache).asset_types is Some
                && final(cache).asset_types.unwrap().rows@ == r@
                && final(cache).asset_types.unwrap().expires_at == now + CACHE_TTL
                && final(cache).action_types == old(cache).action_types,
    {
        match &cache.asset_types {
            Some(snap) => {
                if now < snap.expires_at {
                    return copy_asset_types(&snap.rows);
                }
            },
            None => {},
        }
        let n = store.asset_types.len();
        let mut rows: Vec<AssetType> = Vec::new();
        let mut i: usize = 0;
        while i < n
            invariant
                n == store.asset_types.len(),
                i <= n,
                rows@ == active_assets_upto(store@.asset_types, i as int),
            decreases n - i,
        {
            if store.asset_types[i].is_active {
                rows.push(copy_asset_type(&store.asset_types[i]));
            }
            i = i + 1;
        }
        let kept = copy_asset_types(&rows);
        cache.asset_types = Some(AssetTypeSnapshot { rows: kept, expires_at: now + CACHE_TTL });
        rows
    }

    /// Whether an asset type with this id exists and is active.  This check
    /// reads the durable store directly, never the cache, so deactivation
    /// takes effect immediately on the mutation path.
    pub fn is_active(store: &Ledger, id: i32) -> (r: bool)
        ensures
            r == asset_active(store@.asset_types, id),
    {
        let n = store.asset_types.len();
        let mut i: usize = 0;
        while i < n
            invariant
                n == store.asset_types.len(),
                i <= n,
                asset_id_lookup(store@.asset_types, id) == asset_id_lookup_from(
                    store@.asset_types,
                    id,
                    i as int,
                ),
            decreases n - i,
        {
            if store.asset_types[i].id == id {
                return store.asset_types[i].is_active;
            }
            i = i + 1;
        }
        false
    }

    /// The ids of all active asset types, read from the durable store.
    pub fn get_active_ids(store: &Ledger) -> (r: Vec<i32>)
        ensures
            r@ == active_asset_ids(store@.asset_types),
    {
        let n = store.asset_types.len();
        let mut out: Vec<i32> = Vec::new();
        let mut i: usize = 0;
        while i < n
            invariant
                n == store.asset_types.len(),
                i <= n,
                out@ == active_asset_ids_upto(store@.asset_types, i as int),
            decreases n - i,
        {
            if store.asset_types[i].is_active {
                out.push(store.asset_types[i].id);
            }
            i = i + 1;
        }
        out
    }
}

} // verus!
