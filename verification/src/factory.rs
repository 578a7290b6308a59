//! The pool factory: registers arenas created by the admin or by whitelisted
//! hosts, under rules on stake, capacity and currency, and lists them page by
//! page. Like the arena, it replaces its own code behind a 48-hour timelock.
use vstd::prelude::*;

use crate::bounds::{MAX_SPEED_LEDGERS, MIN_SPEED_LEDGERS};
use crate::ids::{AccountId, WasmHash, TIMELOCK_PERIOD};
use crate::table::{lookup, pairs_map, Table, TableKey};

verus! {

/// Storage schema version written by `initialize` and `migrate`.
pub const CURRENT_SCHEMA_VERSION: u32 = 1;

/// Smallest number of players a pool may hold.
pub const MIN_POOL_CAPACITY: u32 = 2;

/// Largest number of players a pool may hold.
pub const MAX_POOL_CAPACITY: u32 = 256;

/// Largest number of pools `get_arenas` returns at once.
pub const MAX_PAGE_SIZE: u32 = 50;

/// Minimum stake until the admin sets another: 10 XLM in stroops.
pub const DEFAULT_MIN_STAKE: i128 = 10_000_000;

/// Why a factory call was rejected.
#[derive(Copy, Clone, Debug, Eq, PartialEq, PartialOrd, Ord, Structural)]
pub enum Error {
    /// The factory has no admin yet.
    NotInitialized,
    /// `initialize` was already called.
    AlreadyInitialized,
    /// The caller is neither the admin nor a whitelisted host.
    Unauthorized,
    /// No upgrade proposal exists.
    NoPendingUpgrade,
    /// The upgrade timelock has not elapsed.
    TimelockNotExpired,
    /// The stake is positive but below the configured minimum.
    StakeBelowMinimum,
    /// The caller is not on the host whitelist.
    HostNotWhitelisted,
    /// The stake is zero or negative.
    InvalidStakeAmount,
    /// A pool with this id already exists.
    PoolAlreadyExists,
    /// The capacity is below `MIN_POOL_CAPACITY` or above `MAX_POOL_CAPACITY`.
    InvalidCapacity,
    /// No arena code hash has been set.
    WasmHashNotSet,
    /// Only one half of an upgrade proposal is stored.
    MalformedUpgradeState,
    /// The currency is not on the supported-token list.
    UnsupportedToken,
    /// An upgrade proposal is already pending.
    UpgradeAlreadyPending,
}

/// Description of a registered pool.
#[derive(Copy, Clone, Debug, Eq, PartialEq, Structural)]
pub struct ArenaMetadata {
    pub pool_id: u32,
    pub creator: AccountId,
    pub capacity: u32,
    pub stake_amount: i128,
}

/// Keys under which the factory stores supported tokens and pools.
#[derive(Copy, Clone, Debug, Eq, PartialEq, Structural)]
pub enum DataKey {
    SupportedToken(AccountId),
    Pool(u32),
}

impl TableKey for DataKey {
    fn same_key(&self, other: &Self) -> (r: bool) {
        match (self, other) {
            (DataKey::SupportedToken(a), DataKey::SupportedToken(b)) => *a == *b,
            (DataKey::Pool(a), DataKey::Pool(b)) => *a == *b,
            _ => false,
        }
    }
}

/// What `create_pool` hands on for deployment: the registered pool, the
/// arena code to deploy, and the settings the new arena is configured with.
#[derive(Copy, Clone, Debug, Eq, PartialEq)]
pub struct ArenaDeployment {
    pub metadata: ArenaMetadata,
    pub wasm_hash: WasmHash,
    pub round_speed: u32,
    pub currency: AccountId,
}

/// Everything the factory stores.
pub struct FactoryContract {
    admin: Option<AccountId>,
    min_stake: i128,
    schema_version: u32,
    arena_wasm_hash: Option<WasmHash>,
    pool_count: u32,
    whitelist: Table<AccountId, ()>,
    supported_tokens: Table<DataKey, ()>,
    pools: Table<DataKey, ArenaMetadata>,
    pending_hash: Option<WasmHash>,
    execute_after: Option<u64>,
}

/// The abstract state of the factory.
pub struct FactoryModel {
    pub admin: Option<AccountId>,
    pub min_stake: i128,
    pub schema_version: u32,
    pub arena_wasm_hash: Option<WasmHash>,
    /// Number of pools created so far; also the next pool id.
    pub pool_count: u32,
    pub whitelist: Set<AccountId>,
    /// Keys `SupportedToken(token)` of the supported currencies.
    pub supported_tokens: Set<DataKey>,
    /// Registered pools under keys `Pool(pool_id)`.
    pub pools: Map<DataKey, ArenaMetadata>,
    pub pending_hash: Option<WasmHash>,
    pub execute_after: Option<u64>,
}

impl View for FactoryContract {
    type V = FactoryModel;

    closed spec fn view(&self) -> FactoryModel {
        FactoryModel {
            admin: self.admin,
            min_stake: self.min_stake,
            schema_version: self.schema_version,
            arena_wasm_hash: self.arena_wasm_hash,
            pool_count: self.pool_count,
            whitelist: self.whitelist@.dom(),
            supported_tokens: self.supported_tokens@.dom(),
            pools: self.pools@,
            pending_hash: self.pending_hash,
            execute_after: self.execute_after,
        }
    }
}

/// The factory's storage as plain values, to persist it between calls.
pub struct FactorySnapshot {
    pub admin: Option<AccountId>,
    pub min_stake: i128,
    pub schema_version: u32,
    pub arena_wasm_hash: Option<WasmHash>,
    pub pool_count: u32,
    pub whitelist: Vec<(AccountId, ())>,
    pub supported_tokens: Vec<(DataKey, ())>,
    pub pools: Vec<(DataKey, ArenaMetadata)>,
    pub pending_hash: Option<WasmHash>,
    pub execute_after: Option<u64>,
}

/// The factory a snapshot describes.
pub open spec fn snapshot_model(s: FactorySnapshot) -> FactoryModel {
    FactoryModel {
        admin: s.admin,
        min_stake: s.min_stake,
        schema_version: s.schema_version,
        arena_wasm_hash: s.arena_wasm_hash,
        pool_count: s.pool_count,
        whitelist: pairs_map(s.whitelist@).dom(),
        supported_tokens: pairs_map(s.supported_tokens@).dom(),
        pools: pairs_map(s.pools@),
        pending_hash: s.pending_hash,
        execute_after: s.execute_after,
    }
}

/// A freshly deployed factory.
pub open spec fn empty_factory() -> FactoryModel {
    FactoryModel {
        admin: None,
        min_stake: DEFAULT_MIN_STAKE,
        schema_version: 0,
        arena_wasm_hash: None,
        pool_count: 0,
        whitelist: Set::empty(),
        supported_tokens: Set::empty(),
        pools: Map::empty(),
        pending_hash: None,
        execute_after: None,
    }
}

/// Pools are numbered densely: exactly the ids below `pool_count` are
/// registered, each under its own id.
pub open spec fn factory_invariant(m: FactoryModel) -> bool {
    &&& forall|k: DataKey| #[trigger]
        m.pools.dom().contains(k) ==> (k matches DataKey::Pool(id) && id < m.pool_count
            && m.pools[k].pool_id == id)
    &&& forall|id: u32| id < m.pool_count ==> #[trigger] m.pools.dom().contains(DataKey::Pool(id))
}

/// Whether `caller` may create pools.
pub open spec fn may_create_pools(m: FactoryModel, caller: AccountId) -> bool {
    m.admin == Some(caller) || m.whitelist.contains(caller)
}

/// The error `create_pool` returns, if any.
pub open spec fn create_pool_rejection(
    m: FactoryModel,
    caller: AccountId,
    stake: i128,
    currency: AccountId,
    capacity: u32,
) -> Option<Error> {
    if m.admin is None {
        Some(Error::NotInitialized)
    } else if !may_create_pools(m, caller) {
        Some(Error::Unauthorized)
    } else if !m.supported_tokens.contains(DataKey::SupportedToken(currency)) {
        Some(Error::UnsupportedToken)
    } else if capacity < MIN_POOL_CAPACITY || capacity > MAX_POOL_CAPACITY {
        Some(Error::InvalidCapacity)
    } else if stake <= 0 {
        Some(Error::InvalidStakeAmount)
    } else if stake < m.min_stake {
        Some(Error::StakeBelowMinimum)
    } else if m.arena_wasm_hash is None {
        Some(Error::WasmHashNotSet)
    } else {
        None
    }
}

/// Whether any part of an upgrade proposal is stored.
pub open spec fn upgrade_pending(m: FactoryModel) -> bool {
    m.pending_hash is Some || m.execute_after is Some
}

/// Whether an accepted `create_pool` aborts: the pool counter would
/// overflow, or the new arena refuses the round speed while being configured
/// (it accepts the production speeds only).
pub open spec fn create_pool_aborts(
    m: FactoryModel,
    caller: AccountId,
    stake: i128,
    currency: AccountId,
    round_speed: u32,
    capacity: u32,
) -> bool {
    create_pool_rejection(m, caller, stake, currency, capacity) is None && (m.pool_count
        == u32::MAX || round_speed < MIN_SPEED_LEDGERS || round_speed > MAX_SPEED_LEDGERS)
}

/// The pool `create_pool` registers.
pub open spec fn new_pool(m: FactoryModel, caller: AccountId, stake: i128, capacity: u32) -> ArenaMetadata {
    ArenaMetadata { pool_id: m.pool_count, creator: caller, capacity, stake_amount: stake }
}

/// The factory after a successful `create_pool`.
pub open spec fn after_create_pool(m: FactoryModel, caller: AccountId, stake: i128, capacity: u32) -> FactoryModel {
    FactoryModel {
        pools: m.pools.insert(DataKey::Pool(m.pool_count), new_pool(m, caller, stake, capacity)),
        pool_count: (m.pool_count + 1) as u32,
        ..m
    }
}

/// The error `execute_upgrade` returns at time `now`, if any.
pub open spec fn execute_upgrade_rejection(m: FactoryModel, now: u64) -> Option<Error> {
    if m.admin is None {
        Some(Error::NotInitialized)
    } else if m.pending_hash is None && m.execute_after is None {
        Some(Error::NoPendingUpgrade)
    } else if m.pending_hash is None || m.execute_after is None {
        Some(Error::MalformedUpgradeState)
    } else if now < m.execute_after.unwrap() {
        Some(Error::TimelockNotExpired)
    } else {
        None
    }
}

/// Registered pools with ids in `[lo, hi)`, in increasing id order.
pub open spec fn listed_pools(pools: Map<DataKey, ArenaMetadata>, lo: int, hi: int) -> Seq<
    ArenaMetadata,
>
    decreases hi - lo,
{
    if hi <= lo {
        Seq::empty()
    } else {
        let rest = listed_pools(pools, lo, hi - 1);
        if pools.dom().contains(DataKey::Pool((hi - 1) as u32)) {
            rest.push(pools[DataKey::Pool((hi - 1) as u32)])
        } else {
            rest
        }
    }
}

/// One past the last id of the page `get_arenas(offset, limit)`: the page
/// spans at most `MAX_PAGE_SIZE` ids and stops at `pool_count`.
pub open spec fn page_end(m: FactoryModel, offset: u32, limit: u32) -> int {
    let clamped = if limit < MAX_PAGE_SIZE {
        limit
    } else {
        MAX_PAGE_SIZE
    };
    let stop = if offset + clamped > u32::MAX {
        u32::MAX as int
    } else {
        offset + clamped
    };
    if stop < m.pool_count {
        stop
    } else {
        m.pool_count as int
    }
}

fn result_of<T>(r: Option<T>, e: Error) -> (out: Result<T, Error>)
    ensures
        out == match r {
            Some(v) => Ok::<T, Error>(v),
            None => Err(e),
        },
{
    match r {
        Some(v) => Ok(v),
        None => Err(e),
    }
}

impl FactoryContract {
    /// A freshly deployed factory.
    pub fn new() -> (f: Self)
        ensures
            f@ == empty_factory(),
            factory_invariant(f@),
    {
        let f = FactoryContract {
            admin: None,
            min_stake: DEFAULT_MIN_STAKE,
            schema_version: 0,
            arena_wasm_hash: None,
            pool_count: 0,
            whitelist: Table::new(),
            supported_tokens: Table::new(),
            pools: Table::new(),
            pending_hash: None,
            execute_after: None,
        };
        assert(f@.whitelist =~= Set::<AccountId>::empty());
        assert(f@.supported_tokens =~= Set::<DataKey>::empty());
        f
    }

    /// The stored state as plain values.
    pub fn snapshot(&self) -> (s: FactorySnapshot)
        ensures
            snapshot_model(s) == self@,
    {
        FactorySnapshot {
            admin: self.admin,
            min_stake: self.min_stake,
            schema_version: self.schema_version,
            arena_wasm_hash: self.arena_wasm_hash,
            pool_count: self.pool_count,
            whitelist: self.whitelist.to_entries(),
            supported_tokens: self.supported_tokens.to_entries(),
            pools: self.pools.to_entries(),
            pending_hash: self.pending_hash,
            execute_after: self.execute_after,
        }
    }

    /// The factory whose stored state is `s`.
    pub fn restore(s: &FactorySnapshot) -> (f: Self)
        ensures
            f@ == snapshot_model(*s),
    {
        FactoryContract {
            admin: s.admin,
            min_stake: s.min_stake,
            schema_version: s.schema_version,
            arena_wasm_hash: s.arena_wasm_hash,
            pool_count: s.pool_count,
            whitelist: Table::from_entries(&s.whitelist),
            supported_tokens: Table::from_entries(&s.supported_tokens),
            pools: Table::from_entries(&s.pools),
            pending_hash: s.pending_hash,
            execute_after: s.execute_after,
        }
    }

    /// Records the admin, the default minimum stake and the current schema
    /// version; accepted once.
    pub fn initialize(&mut self, admin: AccountId) -> (r: Result<(), Error>)
        ensures
            old(self)@.admin is Some ==> r == Err::<(), Error>(Error::AlreadyInitialized)
                && final(self)@ == old(self)@,
            old(self)@.admin is None ==> r == Ok::<(), Error>(()) && final(self)@ == (
            FactoryModel {
                admin: Some(admin),
                min_stake: DEFAULT_MIN_STAKE,
                schema_version: CURRENT_SCHEMA_VERSION,
                ..old(self)@
            }),
    {
        if self.admin.is_some() {
            return Err(Error::AlreadyInitialized);
        }
        self.admin = Some(admin);
        self.min_stake = DEFAULT_MIN_STAKE;
        self.schema_version = CURRENT_SCHEMA_VERSION;
        Ok(())
    }

    /// The stored schema version (0 before any was written).
    pub fn schema_version(&self) -> (v: u32)
        ensures
            v == self@.schema_version,
    {
        self.schema_version
    }

    /// Brings the stored schema up to `CURRENT_SCHEMA_VERSION`; a no-op when
    /// it is already there.
    pub fn migrate(&mut self) -> (r: Result<(), Error>)
        ensures
            old(self)@.admin is None ==> r == Err::<(), Error>(Error::NotInitialized)
                && final(self)@ == old(self)@,
            old(self)@.admin is Some ==> r == Ok::<(), Error>(()),
            old(self)@.admin is Some && old(self)@.schema_version >= CURRENT_SCHEMA_VERSION
                ==> final(self)@ == old(self)@,
            old(self)@.admin is Some && old(self)@.schema_version < CURRENT_SCHEMA_VERSION
                ==> final(self)@ == (FactoryModel {
                schema_version: CURRENT_SCHEMA_VERSION,
                ..old(self)@
            }),
    {
        if self.admin.is_none() {
            return Err(Error::NotInitialized);
        }
        if self.schema_version >= CURRENT_SCHEMA_VERSION {
            return Ok(());
        }
        self.schema_version = CURRENT_SCHEMA_VERSION;
        Ok(())
    }

    /// The admin.
    pub fn admin(&self) -> (r: Result<AccountId, Error>)
        ensures
            r == match self@.admin {
                Some(a) => Ok::<AccountId, Error>(a),
                None => Err(Error::NotInitialized),
            },
    {
        result_of(self.admin, Error::NotInitialized)
    }

    /// Replaces the admin.
    pub fn set_admin(&mut self, new_admin: AccountId) -> (r: Result<(), Error>)
        ensures
            old(self)@.admin is None ==> r == Err::<(), Error>(Error::NotInitialized)
                && final(self)@ == old(self)@,
            old(self)@.admin is Some ==> r == Ok::<(), Error>(()) && final(self)@ == (
            FactoryModel { admin: Some(new_admin), ..old(self)@ }),
    {
        if self.admin.is_none() {
            return Err(Error::NotInitialized);
        }
        self.admin = Some(new_admin);
        Ok(())
    }

    /// Sets the code deployed for new arenas.
    pub fn set_arena_wasm_hash(&mut self, wasm_hash: WasmHash) -> (r: Result<(), Error>)
        ensures
            old(self)@.admin is None ==> r == Err::<(), Error>(Error::NotInitialized)
                && final(self)@ == old(self)@,
            old(self)@.admin is Some ==> r == Ok::<(), Error>(()) && final(self)@ == (
            FactoryModel { arena_wasm_hash: Some(wasm_hash), ..old(self)@ }),
    {
        if self.admin.is_none() {
            return Err(Error::NotInitialized);
        }
        self.arena_wasm_hash = Some(wasm_hash);
        Ok(())
    }

    /// Allows `host` to create pools.
    pub fn add_to_whitelist(&mut self, host: AccountId) -> (r: Result<(), Error>)
        ensures
            old(self)@.admin is None ==> r == Err::<(), Error>(Error::NotInitialized)
                && final(self)@ == old(self)@,
            old(self)@.admin is Some ==> r == Ok::<(), Error>(()) && final(self)@ == (
            FactoryModel { whitelist: old(self)@.whitelist.insert(host), ..old(self)@ }),
    {
        if self.admin.is_none() {
            return Err(Error::NotInitialized);
        }
        self.whitelist.insert(host, ());
        assert(self@.whitelist =~= old(self)@.whitelist.insert(host));
        Ok(())
    }

    /// Withdraws `host`'s permission to create pools.
    pub fn remove_from_whitelist(&mut self, host: AccountId) -> (r: Result<(), Error>)
        ensures
            old(self)@.admin is None ==> r == Err::<(), Error>(Error::NotInitialized)
                && final(self)@ == old(self)@,
            old(self)@.admin is Some ==> r == Ok::<(), Error>(()) && final(self)@ == (
            FactoryModel { whitelist: old(self)@.whitelist.remove(host), ..old(self)@ }),
    {
        if self.admin.is_none() {
            return Err(Error::NotInitialized);
        }
        self.whitelist.remove(host);
        assert(self@.whitelist =~= old(self)@.whitelist.remove(host));
        Ok(())
    }

    /// Whether `host` is whitelisted.
    pub fn is_whitelisted(&self, host: AccountId) -> (r: Result<bool, Error>)
        ensures
            r == Ok::<bool, Error>(self@.whitelist.contains(host)),
    {
        Ok(self.whitelist.contains_key(host))
    }

    /// Sets the minimum stake of new pools.
    pub fn set_min_stake(&mut self, min_stake: i128) -> (r: Result<(), Error>)
        ensures
            old(self)@.admin is None ==> r == Err::<(), Error>(Error::NotInitialized)
                && final(self)@ == old(self)@,
            old(self)@.admin is Some && min_stake <= 0 ==> r == Err::<(), Error>(
                Error::InvalidStakeAmount,
            ) && final(self)@ == old(self)@,
            old(self)@.admin is Some && min_stake > 0 ==> r == Ok::<(), Error>(())
                && final(self)@ == (FactoryModel { min_stake, ..old(self)@ }),
    {
        if self.admin.is_none() {
            return Err(Error::NotInitialized);
        }
        if min_stake <= 0 {
            return Err(Error::InvalidStakeAmount);
        }
        self.min_stake = min_stake;
        Ok(())
    }

    /// The minimum stake of new pools.
    pub fn get_min_stake(&self) -> (r: i128)
        ensures
            r == self@.min_stake,
    {
        self.min_stake
    }

    /// Registers a pool created by `caller` with the next pool id and hands
    /// back what its arena is deployed and configured with.
    pub fn create_pool(
        &mut self,
        caller: AccountId,
        stake: i128,
        currency: AccountId,
        round_speed: u32,
        capacity: u32,
    ) -> (r: Result<ArenaDeployment, Error>)
        requires
            !create_pool_aborts(old(self)@, caller, stake, currency, round_speed, capacity),
        ensures
            match create_pool_rejection(old(self)@, caller, stake, currency, capacity) {
                Some(e) => r == Err::<ArenaDeployment, Error>(e) && final(self)@ == old(self)@,
                None => r == Ok::<ArenaDeployment, Error>(
                    ArenaDeployment {
                        metadata: new_pool(old(self)@, caller, stake, capacity),
                        wasm_hash: old(self)@.arena_wasm_hash.unwrap(),
                        round_speed,
                        currency,
                    },
                ) && final(self)@ == after_create_pool(old(self)@, caller, stake, capacity),
            },
            r matches Ok(d) ==> {
                &&& d.metadata == ArenaMetadata {
                    pool_id: old(self)@.pool_count,
                    creator: caller,
                    capacity,
                    stake_amount: stake,
                }
                &&& lookup(final(self)@.pools, DataKey::Pool(old(self)@.pool_count)) == Some(
                    d.metadata,
                )
                &&& final(self)@.pool_count == old(self)@.pool_count + 1
            },
            factory_invariant(old(self)@) ==> factory_invariant(final(self)@),
    {
        let admin = match self.admin {
            Some(a) => a,
            None => return Err(Error::NotInitialized),
        };
        let is_admin = caller == admin;
        let is_whitelisted = self.whitelist.contains_key(caller);
        if !is_admin && !is_whitelisted {
            return Err(Error::Unauthorized);
        }
        if !self.supported_tokens.contains_key(DataKey::SupportedToken(currency)) {
            return Err(Error::UnsupportedToken);
        }
        if capacity < MIN_POOL_CAPACITY || capacity > MAX_POOL_CAPACITY {
            return Err(Error::InvalidCapacity);
        }
        if stake <= 0 {
            return Err(Error::InvalidStakeAmount);
        }
        if stake < self.min_stake {
            return Err(Error::StakeBelowMinimum);
        }
        let wasm_hash = match self.arena_wasm_hash {
            Some(h) => h,
            None => return Err(Error::WasmHashNotSet),
        };
        let pool_id = self.pool_count;
        let metadata = ArenaMetadata { pool_id, creator: caller, capacity, stake_amount: stake };
        let ghost before = self@;
        self.pools.insert(DataKey::Pool(pool_id), metadata);
        self.pool_count = pool_id + 1;
        proof {
            let after = self@;
            if factory_invariant(before) {
                assert forall|k: DataKey| #[trigger] after.pools.dom().contains(k) implies (k matches DataKey::Pool(id) && id < after.pool_count
                    && after.pools[k].pool_id == id) by {
                    if k != DataKey::Pool(pool_id) {
                        assert(before.pools.dom().contains(k));
                    }
                }
                assert forall|id: u32| id < after.pool_count implies #[trigger] after.pools.dom().contains(
                    DataKey::Pool(id),
                ) by {
                    if id != pool_id {
                        assert(before.pools.dom().contains(DataKey::Pool(id)));
                    }
                }
            }
        }
        Ok(ArenaDeployment { metadata, wasm_hash, round_speed, currency })
    }

    fn create_pool_check(&self, caller: AccountId, stake: i128, currency: AccountId, capacity: u32) -> (r:
        Option<Error>)
        ensures
            r == create_pool_rejection(self@, caller, stake, currency, capacity),
    {
        let admin = match self.admin {
            Some(a) => a,
            None => return Some(Error::NotInitialized),
        };
        if caller != admin && !self.whitelist.contains_key(caller) {
            return Some(Error::Unauthorized);
        }
        if !self.supported_tokens.contains_key(DataKey::SupportedToken(currency)) {
            return Some(Error::UnsupportedToken);
        }
        if capacity < MIN_POOL_CAPACITY || capacity > MAX_POOL_CAPACITY {
            return Some(Error::InvalidCapacity);
        }
        if stake <= 0 {
            return Some(Error::InvalidStakeAmount);
        }
        if stake < self.min_stake {
            return Some(Error::StakeBelowMinimum);
        }
        if self.arena_wasm_hash.is_none() {
            return Some(Error::WasmHashNotSet);
        }
        None
    }

    /// `create_pool`, or `None` (nothing changed) where `create_pool` would
    /// abort.
    pub fn checked_create_pool(
        &mut self,
        caller: AccountId,
        stake: i128,
        currency: AccountId,
        round_speed: u32,
        capacity: u32,
    ) -> (r: Option<Result<ArenaDeployment, Error>>)
        ensures
            create_pool_aborts(old(self)@, caller, stake, currency, round_speed, capacity) ==> r is None
                && final(self)@ == old(self)@,
            !create_pool_aborts(old(self)@, caller, stake, currency, round_speed, capacity) ==> (r matches Some(res)
                && match create_pool_rejection(old(self)@, caller, stake, currency, capacity) {
                Some(e) => res == Err::<ArenaDeployment, Error>(e) && final(self)@ == old(self)@,
                None => res == Ok::<ArenaDeployment, Error>(
                    ArenaDeployment {
                        metadata: new_pool(old(self)@, caller, stake, capacity),
                        wasm_hash: old(self)@.arena_wasm_hash.unwrap(),
                        round_speed,
                        currency,
                    },
                ) && final(self)@ == after_create_pool(old(self)@, caller, stake, capacity),
            }),
    {
        if self.create_pool_check(caller, stake, currency, capacity).is_none() && (self.pool_count
            == u32::MAX || round_speed < MIN_SPEED_LEDGERS || round_speed > MAX_SPEED_LEDGERS) {
            return None;
        }
        Some(self.create_pool(caller, stake, currency, round_speed, capacity))
    }

    /// Puts `token` on the supported-currency list.
    pub fn add_supported_token(&mut self, token: AccountId) -> (r: Result<(), Error>)
        ensures
            old(self)@.admin is None ==> r == Err::<(), Error>(Error::NotInitialized)
                && final(self)@ == old(self)@,
            old(self)@.admin is Some ==> r == Ok::<(), Error>(()) && final(self)@ == (
            FactoryModel {
                supported_tokens: old(self)@.supported_tokens.insert(DataKey::SupportedToken(token)),
                ..old(self)@
            }),
    {
        if self.admin.is_none() {
            return Err(Error::NotInitialized);
        }
        self.supported_tokens.insert(DataKey::SupportedToken(token), ());
        assert(self@.supported_tokens =~= old(self)@.supported_tokens.insert(
            DataKey::SupportedToken(token),
        ));
        Ok(())
    }

    /// Takes `token` off the supported-currency list.
    pub fn remove_supported_token(&mut self, token: AccountId) -> (r: Result<(), Error>)
        ensures
            old(self)@.admin is None ==> r == Err::<(), Error>(Error::NotInitialized)
                && final(self)@ == old(self)@,
            old(self)@.admin is Some ==> r == Ok::<(), Error>(()) && final(self)@ == (
            FactoryModel {
                supported_tokens: old(self)@.supported_tokens.remove(DataKey::SupportedToken(token)),
                ..old(self)@
            }),
    {
        if self.admin.is_none() {
            return Err(Error::NotInitialized);
        }
        self.supported_tokens.remove(DataKey::SupportedToken(token));
        assert(self@.supported_tokens =~= old(self)@.supported_tokens.remove(
            DataKey::SupportedToken(token),
        ));
        Ok(())
    }

    /// Whether `token` is a supported currency.
    pub fn is_token_supported(&self, token: AccountId) -> (r: bool)
        ensures
            r == self@.supported_tokens.contains(DataKey::SupportedToken(token)),
    {
        self.supported_tokens.contains_key(DataKey::SupportedToken(token))
    }

    /// Proposes new factory code at time `now`, installable from
    /// `now + TIMELOCK_PERIOD` on; refused while another proposal is pending.
    pub fn propose_upgrade(&mut self, new_wasm_hash: WasmHash, now: u64) -> (r: Result<(), Error>)
        requires
            old(self)@.admin is Some && !upgrade_pending(old(self)@) ==> now + TIMELOCK_PERIOD
                <= u64::MAX,
        ensures
            old(self)@.admin is None ==> r == Err::<(), Error>(Error::NotInitialized)
                && final(self)@ == old(self)@,
            old(self)@.admin is Some && upgrade_pending(old(self)@) ==> r == Err::<(), Error>(
                Error::UpgradeAlreadyPending,
            ) && final(self)@ == old(self)@,
            old(self)@.admin is Some && !upgrade_pending(old(self)@) ==> r == Ok::<(), Error>(())
                && final(self)@ == (FactoryModel {
                pending_hash: Some(new_wasm_hash),
                execute_after: Some((now + TIMELOCK_PERIOD) as u64),
                ..old(self)@
            }),
    {
        if self.admin.is_none() {
            return Err(Error::NotInitialized);
        }
        if self.pending_hash.is_some() || self.execute_after.is_some() {
            return Err(Error::UpgradeAlreadyPending);
        }
        let execute_after = now + TIMELOCK_PERIOD;
        self.pending_hash = Some(new_wasm_hash);
        self.execute_after = Some(execute_after);
        Ok(())
    }

    /// Consumes the pending proposal at time `now` once its timelock has
    /// expired; the proposed code is then installed.
    pub fn execute_upgrade(&mut self, now: u64) -> (r: Result<(), Error>)
        ensures
            match execute_upgrade_rejection(old(self)@, now) {
                Some(e) => r == Err::<(), Error>(e) && final(self)@ == old(self)@,
                None => r == Ok::<(), Error>(()) && final(self)@ == (FactoryModel {
                    pending_hash: None,
                    execute_after: None,
                    ..old(self)@
                }),
            },
    {
        if self.admin.is_none() {
            return Err(Error::NotInitialized);
        }
        let has_pending_hash = self.pending_hash.is_some();
        let has_execute_after = self.execute_after.is_some();
        if !has_pending_hash && !has_execute_after {
            return Err(Error::NoPendingUpgrade);
        }
        if !has_pending_hash || !has_execute_after {
            return Err(Error::MalformedUpgradeState);
        }
        let execute_after = match self.execute_after {
            Some(t) => t,
            None => return Err(Error::MalformedUpgradeState),
        };
        if now < execute_after {
            return Err(Error::TimelockNotExpired);
        }
        self.pending_hash = None;
        self.execute_after = None;
        Ok(())
    }

    /// Withdraws the pending proposal.
    pub fn cancel_upgrade(&mut self) -> (r: Result<(), Error>)
        ensures
            old(self)@.admin is None ==> r == Err::<(), Error>(Error::NotInitialized)
                && final(self)@ == old(self)@,
            old(self)@.admin is Some && old(self)@.pending_hash is None ==> r == Err::<(), Error>(
                Error::NoPendingUpgrade,
            ) && final(self)@ == old(self)@,
            old(self)@.admin is Some && old(self)@.pending_hash is Some ==> r == Ok::<(), Error>(())
                && final(self)@ == (FactoryModel {
                pending_hash: None,
                execute_after: None,
                ..old(self)@
            }),
    {
        if self.admin.is_none() {
            return Err(Error::NotInitialized);
        }
        if self.pending_hash.is_none() {
            return Err(Error::NoPendingUpgrade);
        }
        self.pending_hash = None;
        self.execute_after = None;
        Ok(())
    }

    /// The pending code hash and the earliest time it may be installed, when
    /// both are stored.
    pub fn pending_upgrade(&self) -> (r: Option<(WasmHash, u64)>)
        ensures
            r == match (self@.pending_hash, self@.execute_after) {
                (Some(h), Some(a)) => Some((h, a)),
                _ => None,
            },
    {
        match (self.pending_hash, self.execute_after) {
            (Some(h), Some(a)) => Some((h, a)),
            _ => None,
        }
    }

    /// The pool registered under `pool_id`, if any.
    pub fn get_arena(&self, pool_id: u32) -> (r: Option<ArenaMetadata>)
        ensures
            r == lookup(self@.pools, DataKey::Pool(pool_id)),
    {
        self.pools.get(DataKey::Pool(pool_id))
    }

    /// The registered pools with ids from `offset` on, at most
    /// `min(limit, MAX_PAGE_SIZE)` ids and none at or past `pool_count`.
    pub fn get_arenas(&self, offset: u32, limit: u32) -> (r: Vec<ArenaMetadata>)
        ensures
            r@ == listed_pools(self@.pools, offset as int, page_end(self@, offset, limit)),
    {
        let clamped_limit = if limit < MAX_PAGE_SIZE {
            limit
        } else {
            MAX_PAGE_SIZE
        };
        let stop = offset.saturating_add(clamped_limit);
        let end = if stop < self.pool_count {
            stop
        } else {
            self.pool_count
        };
        let mut results: Vec<ArenaMetadata> = Vec::new();
        let mut i = offset;
        while i < end
            invariant
                offset <= i,
                i <= end || end < offset,
                end < offset ==> i == offset,
                end as int == page_end(self@, offset, limit),
                results@ == listed_pools(self@.pools, offset as int, i as int),
            decreases end - i,
        {
            match self.get_arena(i) {
                Some(meta) => {
                    results.push(meta);
                },
                None => {},
            }
            i = i + 1;
        }
        proof {
            if end < offset {
                assert(listed_pools(self@.pools, offset as int, end as int) =~= Seq::empty());
                assert(listed_pools(self@.pools, offset as int, offset as int) =~= Seq::empty());
            }
        }
        results
    }
}

} // verus!
