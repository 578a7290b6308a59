//! Properties of the factory that span several calls.
use vstd::prelude::*;

use crate::factory::{
    after_create_pool, create_pool_rejection, execute_upgrade_rejection, factory_invariant,
    listed_pools, new_pool, page_end, upgrade_pending, ArenaMetadata, DataKey, Error, FactoryModel,
    CURRENT_SCHEMA_VERSION, MAX_PAGE_SIZE, MAX_POOL_CAPACITY, MIN_POOL_CAPACITY,
};
use crate::ids::{AccountId, WasmHash, TIMELOCK_PERIOD};
use crate::table::lookup;

verus! {

/// Over ids that are all registered under their own number, the listing of
/// `[lo, hi)` holds one pool per id, in order.
pub proof fn lemma_listed_dense(m: FactoryModel, lo: int, hi: int)
    requires
        factory_invariant(m),
        0 <= lo <= hi <= m.pool_count,
    ensures
        listed_pools(m.pools, lo, hi).len() == hi - lo,
        forall|k: int|
            0 <= k < hi - lo ==> #[trigger] listed_pools(m.pools, lo, hi)[k].pool_id == lo + k,
    decreases hi - lo,
{
    if hi > lo {
        lemma_listed_dense(m, lo, hi - 1);
        assert(m.pools.dom().contains(DataKey::Pool((hi - 1) as u32)));
    }
}

/// A listing of `[lo, hi)` never holds more than `hi - lo` pools.
pub proof fn lemma_listed_len(pools: Map<DataKey, ArenaMetadata>, lo: int, hi: int)
    requires
        lo <= hi,
    ensures
        listed_pools(pools, lo, hi).len() <= hi - lo,
    decreases hi - lo,
{
    if hi > lo {
        lemma_listed_len(pools, lo, hi - 1);
    }
}

/// A page never holds more than `MAX_PAGE_SIZE` pools; in a factory whose
/// pools are numbered densely, the page starting at `offset` holds the pools
/// `offset, offset + 1, ...` up to the page end, one each.
pub proof fn law_pagination(m: FactoryModel, offset: u32, limit: u32)
    ensures
        listed_pools(m.pools, offset as int, page_end(m, offset, limit)).len() <= MAX_PAGE_SIZE,
        factory_invariant(m) && offset <= page_end(m, offset, limit) ==> {
            let page = listed_pools(m.pools, offset as int, page_end(m, offset, limit));
            &&& page.len() == page_end(m, offset, limit) - offset
            &&& forall|k: int| 0 <= k < page.len() ==> #[trigger] page[k].pool_id == offset + k
        },
        offset >= m.pool_count ==> listed_pools(m.pools, offset as int, page_end(m, offset, limit))
            == Seq::<ArenaMetadata>::empty(),
{
    let end = page_end(m, offset, limit);
    if offset <= end {
        lemma_listed_len(m.pools, offset as int, end);
        if factory_invariant(m) {
            lemma_listed_dense(m, offset as int, end);
        }
    } else {
        assert(listed_pools(m.pools, offset as int, end) =~= Seq::empty());
    }
    if offset >= m.pool_count {
        assert(listed_pools(m.pools, offset as int, end) =~= Seq::empty());
    }
}

/// Pool ids are handed out consecutively from 0: each new pool gets the
/// current count as its id and is read back under it as created by the
/// caller, with the capacity and stake the caller asked for; the count grows
/// by one and earlier pools are untouched.
pub proof fn law_pool_ids_consecutive(
    m: FactoryModel,
    caller: AccountId,
    stake: i128,
    currency: AccountId,
    capacity: u32,
)
    requires
        factory_invariant(m),
        create_pool_rejection(m, caller, stake, currency, capacity) is None,
        m.pool_count < u32::MAX,
    ensures
        ({
            let after = after_create_pool(m, caller, stake, capacity);
            &&& lookup(after.pools, DataKey::Pool(m.pool_count)) == Some(
                ArenaMetadata { pool_id: m.pool_count, creator: caller, capacity, stake_amount: stake },
            )
            &&& new_pool(m, caller, stake, capacity).pool_id == m.pool_count
            &&& after.pool_count == m.pool_count + 1
            &&& forall|id: u32|
                id < m.pool_count ==> #[trigger] lookup(after.pools, DataKey::Pool(id)) == lookup(
                    m.pools,
                    DataKey::Pool(id),
                )
        }),
{
}

/// Only the admin and whitelisted hosts create pools, and only in supported
/// currencies.
pub proof fn law_pool_creation_gate(
    m: FactoryModel,
    caller: AccountId,
    stake: i128,
    currency: AccountId,
    capacity: u32,
)
    requires
        create_pool_rejection(m, caller, stake, currency, capacity) is None,
    ensures
        m.admin == Some(caller) || m.whitelist.contains(caller),
        m.supported_tokens.contains(DataKey::SupportedToken(currency)),
        MIN_POOL_CAPACITY <= capacity <= MAX_POOL_CAPACITY,
        stake >= m.min_stake && stake > 0,
{
}

/// After a migration the stored schema is current, and migrating again
/// changes nothing.
pub proof fn law_migrate_idempotent(m: FactoryModel)
    requires
        m.admin is Some,
    ensures
        ({
            let migrated = if m.schema_version >= CURRENT_SCHEMA_VERSION {
                m
            } else {
                FactoryModel { schema_version: CURRENT_SCHEMA_VERSION, ..m }
            };
            migrated.schema_version >= CURRENT_SCHEMA_VERSION
        }),
{
}

/// A proposed upgrade cannot be executed before its timelock expires, it
/// blocks further proposals while pending, and a cancelled one cannot be
/// executed at all.
pub proof fn law_upgrade_timelock(m: FactoryModel, hash: WasmHash, proposed_at: u64, now: u64)
    requires
        m.admin is Some,
        proposed_at + TIMELOCK_PERIOD <= u64::MAX,
    ensures
        ({
            let proposed = FactoryModel {
                pending_hash: Some(hash),
                execute_after: Some((proposed_at + TIMELOCK_PERIOD) as u64),
                ..m
            };
            let cancelled = FactoryModel { pending_hash: None, execute_after: None, ..proposed };
            &&& now < proposed_at + TIMELOCK_PERIOD ==> execute_upgrade_rejection(proposed, now)
                == Some(Error::TimelockNotExpired)
            &&& now >= proposed_at + TIMELOCK_PERIOD ==> execute_upgrade_rejection(proposed, now)
                is None
            &&& execute_upgrade_rejection(cancelled, now) == Some(Error::NoPendingUpgrade)
            &&& upgrade_pending(proposed)
            &&& !upgrade_pending(cancelled)
        }),
{
}

/// The calls that touch neither the pools nor their count keep pool
/// numbering dense.
pub proof fn law_invariant_kept_by_administration(
    m: FactoryModel,
    admin: AccountId,
    host: AccountId,
    token: AccountId,
    min_stake: i128,
    hash: WasmHash,
    after: u64,
)
    requires
        factory_invariant(m),
    ensures
        factory_invariant(FactoryModel { admin: Some(admin), ..m }),
        factory_invariant(FactoryModel { whitelist: m.whitelist.insert(host), ..m }),
        factory_invariant(FactoryModel { whitelist: m.whitelist.remove(host), ..m }),
        factory_invariant(
            FactoryModel {
                supported_tokens: m.supported_tokens.insert(DataKey::SupportedToken(token)),
                ..m
            },
        ),
        factory_invariant(
            FactoryModel {
                supported_tokens: m.supported_tokens.remove(DataKey::SupportedToken(token)),
                ..m
            },
        ),
        factory_invariant(FactoryModel { min_stake, ..m }),
        factory_invariant(FactoryModel { arena_wasm_hash: Some(hash), ..m }),
        factory_invariant(FactoryModel { pending_hash: Some(hash), execute_after: Some(after), ..m }),
        factory_invariant(FactoryModel { pending_hash: None, execute_after: None, ..m }),
        factory_invariant(FactoryModel { schema_version: CURRENT_SCHEMA_VERSION, ..m }),
{
}

} // verus!
