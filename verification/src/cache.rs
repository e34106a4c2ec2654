//! The catalog cache: a best-effort, TTL-based accelerator for the two
//! reference catalogs.
//!
//! A snapshot is served while it is fresh; after [`CACHE_TTL`] time units a
//! read falls through to the durable store and refreshes the snapshot.  The
//! mutation path never consults this cache: activity checks go to the durable
//! store directly.

use vstd::prelude::*;
use crate::action_type::ActionType;
use crate::asset_type::AssetType;

verus! {

/// How long a cached catalog snapshot stays fresh, in time units.
pub const CACHE_TTL: u64 = 10;

/// A cached snapshot of the asset-type catalog.
#[derive(Debug)]
pub struct AssetTypeSnapshot {
    pub rows: Vec<AssetType>,
    pub expires_at: u64,
}

/// A cached snapshot of the action-type catalog.
#[derive(Debug)]
pub struct ActionTypeSnapshot {
    pub rows: Vec<ActionType>,
    pub expires_at: u64,
}

/// The shared catalog cache, keyed by catalog.  An absent entry is a cache
/// miss; both catalogs refresh independently with the same TTL.
#[derive(Debug)]
pub struct CatalogCache {
    pub asset_types: Option<AssetTypeSnapshot>,
    pub action_types: Option<ActionTypeSnapshot>,
}

impl CatalogCache {
    /// Whether the asset-type snapshot exists and has not expired at `now`.
    pub open spec fn asset_fresh(self, now: u64) -> bool {
        self.asset_types is Some && now < self.asset_types.unwrap().expires_at
    }

    /// Whether the action-type snapshot exists and has not expired at `now`.
    pub open spec fn action_fresh(self, now: u64) -> bool {
        self.action_types is Some && now < self.action_types.unwrap().expires_at
    }

    /// An empty cache: every read misses until a refresh.
    pub fn new() -> (r: Self)
        ensures
            r.asset_types is None,
            r.action_types is None,
    {
        CatalogCache { asset_types: None, action_types: None }
    }
}

} // verus!
