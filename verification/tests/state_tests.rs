use inverse_arena::arena::{ArenaConfig, ArenaContract, ArenaError, Choice, RoundState};
use inverse_arena::factory::{Error, FactoryContract};
use inverse_arena::ids::AccountId;
use inverse_arena::payout::{PayoutContract, PayoutError};
use inverse_arena::staking::{DataKey, StakePosition, StakingContract, StakingError, StakingSnapshot};

const ADMIN: AccountId = 1;
const TOKEN: AccountId = 2;

fn idle_round(round_number: u32) -> RoundState {
    RoundState {
        round_number,
        round_start_ledger: 0,
        round_deadline_ledger: 0,
        active: false,
        total_submissions: 0,
        timed_out: false,
        finished: false,
    }
}

/// An arena with two joined players paying `stake` each.
fn two_player_arena(stake: i128) -> ArenaContract {
    let mut arena = ArenaContract::new();
    arena.initialize(ADMIN);
    arena.set_token(TOKEN).unwrap();
    arena.init(10, stake).unwrap();
    arena.join(100, stake).unwrap();
    arena.join(101, stake).unwrap();
    arena
}

#[test]
fn arena_snapshot_restores_the_same_game() {
    let mut arena = two_player_arena(40);
    arena.set_capacity(5).unwrap();
    arena.start_round(7).unwrap();
    arena.submit_choice(100, 1, Choice::Tails, 8).unwrap();
    arena.propose_upgrade([3u8; 32], 50).unwrap();

    let restored = ArenaContract::restore(&arena.snapshot());
    assert_eq!(restored.admin(), ADMIN);
    assert_eq!(restored.token(), Some(TOKEN));
    assert_eq!(restored.required_stake(), 40);
    assert_eq!(restored.get_config(), Ok(ArenaConfig { round_speed_in_ledgers: 10 }));
    assert_eq!(restored.get_round(), arena.get_round());
    assert_eq!(restored.get_choice(1, 100), Some(Choice::Tails));
    assert_eq!(restored.get_choice(1, 101), None);
    assert_eq!(restored.get_arena_state(), arena.get_arena_state());
    assert_eq!(restored.get_user_state(101), arena.get_user_state(101));
    assert_eq!(restored.pending_upgrade(), Some(([3u8; 32], 50 + 48 * 60 * 60)));
    assert!(!restored.is_paused());
}

#[test]
fn arena_has_admin_only_after_initialize() {
    let mut arena = ArenaContract::new();
    assert!(!arena.has_admin());
    arena.initialize(ADMIN);
    assert!(arena.has_admin());
}

#[test]
fn arena_checked_join_reports_a_prize_pool_overflow() {
    let mut arena = two_player_arena(2);
    arena.set_winner(100, i128::MAX - 5, 0).unwrap();
    assert_eq!(arena.checked_join(102, 2), None);
    assert!(!arena.get_user_state(102).is_active);
    let mut snapshot = arena.snapshot();
    snapshot.prize_pool = i128::MAX - 2;
    let mut arena = ArenaContract::restore(&snapshot);
    assert_eq!(arena.checked_join(102, 2), Some(Ok(())));
    assert_eq!(arena.get_arena_state().unwrap().current_stake, i128::MAX);
    assert_eq!(arena.checked_join(102, 2), Some(Err(ArenaError::AlreadyJoined)));
}

#[test]
fn arena_checked_start_round_reports_a_round_number_overflow() {
    let mut snapshot = two_player_arena(100).snapshot();
    snapshot.round = Some(idle_round(u32::MAX));
    let mut arena = ArenaContract::restore(&snapshot);
    assert_eq!(arena.checked_start_round(10), None);
    assert_eq!(arena.get_round(), Ok(idle_round(u32::MAX)));

    let mut fresh = two_player_arena(100);
    let round = fresh.checked_start_round(10).unwrap().unwrap();
    assert_eq!(round.round_number, 1);
    assert_eq!(round.round_deadline_ledger, 20);
}

#[test]
fn arena_claim_locks_until_finished() {
    let mut arena = two_player_arena(100);
    arena.start_round(1).unwrap();
    arena.submit_choice(100, 1, Choice::Heads, 1).unwrap();
    arena.resolve_round(12, 0).unwrap();
    assert!(arena.get_round().unwrap().finished);
    arena.set_winner(100, 70, 30).unwrap();
    assert_eq!(arena.claim(100), Ok(300));
    assert_eq!(arena.claim(101), Err(ArenaError::ReentrancyGuard));
    arena.finish_claim();
    assert_eq!(arena.claim(101), Err(ArenaError::NotASurvivor));
}

#[test]
fn factory_snapshot_restores_the_same_registry() {
    let mut factory = FactoryContract::new();
    factory.initialize(ADMIN).unwrap();
    factory.add_supported_token(TOKEN).unwrap();
    factory.add_to_whitelist(9).unwrap();
    factory.set_arena_wasm_hash([5u8; 32]).unwrap();
    factory.create_pool(9, 20_000_000, TOKEN, 10, 4).unwrap();
    factory.propose_upgrade([6u8; 32], 100).unwrap();

    let restored = FactoryContract::restore(&factory.snapshot());
    assert_eq!(restored.admin(), Ok(ADMIN));
    assert_eq!(restored.is_whitelisted(9), Ok(true));
    assert!(restored.is_token_supported(TOKEN));
    assert_eq!(restored.get_arena(0), factory.get_arena(0));
    assert_eq!(restored.get_arenas(0, 10), factory.get_arenas(0, 10));
    assert_eq!(restored.pending_upgrade(), factory.pending_upgrade());
    assert_eq!(restored.schema_version(), 1);
}

#[test]
fn factory_checked_create_pool_refuses_an_undeployable_arena() {
    let mut factory = FactoryContract::new();
    factory.initialize(ADMIN).unwrap();
    factory.add_supported_token(TOKEN).unwrap();
    factory.set_arena_wasm_hash([5u8; 32]).unwrap();
    assert!(factory.checked_create_pool(ADMIN, 20_000_000, TOKEN, 0, 4).is_none());
    assert!(factory.checked_create_pool(ADMIN, 20_000_000, TOKEN, 17_281, 4).is_none());
    assert_eq!(factory.get_arena(0), None);
    assert_eq!(
        factory.checked_create_pool(ADMIN, 1, TOKEN, 0, 4),
        Some(Err(Error::StakeBelowMinimum))
    );
    let created = factory.checked_create_pool(ADMIN, 20_000_000, TOKEN, 10, 4);
    assert_eq!(created.unwrap().unwrap().metadata.pool_id, 0);
}

#[test]
fn payout_snapshot_restores_the_same_ledger() {
    let mut payout = PayoutContract::new();
    assert!(!payout.has_admin());
    payout.initialize(ADMIN);
    assert!(payout.has_admin());
    payout.set_treasury(7);
    payout.set_currency_token(200, TOKEN).unwrap();
    payout.distribute_winnings(101, 1, 2, 50, 500, 200).unwrap();
    payout.distribute_prize(4, 100, vec![50, 51, 52], TOKEN).unwrap();

    let restored = PayoutContract::restore(&payout.snapshot());
    assert_eq!(restored.admin(), ADMIN);
    assert_eq!(restored.treasury(), Ok(7));
    assert!(restored.is_payout_processed(101, 1, 2, 50));
    assert_eq!(restored.get_payout(101, 1, 2, 50), payout.get_payout(101, 1, 2, 50));
    assert!(restored.is_prize_distributed(4));
    assert!(!restored.is_prize_distributed(5));
    let mut restored = restored;
    assert_eq!(
        restored.distribute_winnings(101, 1, 2, 50, 500, 200),
        Err(PayoutError::AlreadyPaid)
    );
}

#[test]
fn staking_snapshot_restores_the_same_pool() {
    let mut staking = StakingContract::new();
    staking.initialize(ADMIN, TOKEN).unwrap();
    staking.stake(3, 1_000).unwrap();
    staking.stake(4, 500).unwrap();

    let restored = StakingContract::restore(&staking.snapshot());
    assert_eq!(restored.total_staked(), Ok(1_500));
    assert_eq!(restored.total_shares(), Ok(1_500));
    assert_eq!(restored.get_position(3), StakePosition { amount: 1_000, shares: 1_000 });
    assert_eq!(restored.get_position(4), StakePosition { amount: 500, shares: 500 });
    assert_eq!(restored.token(), Ok(TOKEN));
}

#[test]
fn staking_checked_stake_reports_a_position_overflow() {
    let snapshot = StakingSnapshot {
        admin: Some(ADMIN),
        token: Some(TOKEN),
        total_staked: 0,
        total_shares: 0,
        positions: vec![(DataKey::Position(7), StakePosition { amount: i128::MAX, shares: 1 })],
    };
    let mut staking = StakingContract::restore(&snapshot);
    assert_eq!(staking.checked_stake(7, 1), None);
    assert_eq!(staking.get_position(7), StakePosition { amount: i128::MAX, shares: 1 });
    assert_eq!(staking.checked_stake(8, 1), Some(Ok(1)));
    assert_eq!(staking.checked_stake(8, 0), Some(Err(StakingError::InvalidAmount)));
}

#[test]
fn staking_checked_unstake_reports_a_position_underflow() {
    let snapshot = StakingSnapshot {
        admin: Some(ADMIN),
        token: Some(TOKEN),
        total_staked: 10,
        total_shares: 10,
        positions: vec![(DataKey::Position(7), StakePosition { amount: i128::MIN, shares: 10 })],
    };
    let mut staking = StakingContract::restore(&snapshot);
    assert_eq!(staking.checked_unstake(7, 5), None);
    assert_eq!(staking.total_staked(), Ok(10));
    assert_eq!(staking.checked_unstake(7, 11), Some(Err(StakingError::InsufficientShares)));

    let mut fresh = StakingContract::new();
    fresh.initialize(ADMIN, TOKEN).unwrap();
    fresh.stake(3, 100).unwrap();
    assert_eq!(fresh.checked_unstake(3, 40), Some(Ok(40)));
    assert_eq!(fresh.get_position(3), StakePosition { amount: 60, shares: 60 });
}
