//! Verified game logic of the Inverse Arena contracts: the arena round state
//! machine, the pool factory, prize payouts and share-based staking.
pub mod arena;
pub mod arena_laws;
pub mod bounds;
pub mod factory;
pub mod factory_laws;
pub mod ids;
pub mod invariants;
pub mod payout;
pub mod payout_laws;
pub mod staking;
pub mod staking_laws;
pub mod table;
