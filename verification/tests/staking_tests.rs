use inverse_arena::ids::AccountId;
use inverse_arena::staking::{StakePosition, StakingContract, StakingError};

const ADMIN: AccountId = 1;
const TOKEN: AccountId = 2;
const STAKER: AccountId = 3;
const STAKER2: AccountId = 4;

fn setup() -> (AccountId, AccountId, StakingContract, AccountId) {
    let mut client = StakingContract::new();
    client.initialize(ADMIN, TOKEN).unwrap();
    (ADMIN, STAKER, client, TOKEN)
}

#[test]
fn initialize_sets_token_and_zero_totals() {
    let (_admin, _staker, client, token) = setup();
    assert_eq!(client.token(), Ok(token));
    assert_eq!(client.total_staked(), Ok(0));
    assert_eq!(client.total_shares(), Ok(0));
}

#[test]
fn stake_rejects_non_positive_amounts() {
    let (_admin, staker, mut client, _token) = setup();
    assert_eq!(client.stake(staker, 0), Err(StakingError::InvalidAmount));
    assert_eq!(client.stake(staker, -1), Err(StakingError::InvalidAmount));
}

#[test]
fn stake_state_is_updated_before_transfer() {
    let (_admin, staker, mut client, _token) = setup();

    let amount = 500_000_000i128;
    let minted = client.stake(staker, amount).unwrap();

    assert_eq!(client.total_staked(), Ok(amount));
    assert_eq!(client.total_shares(), Ok(minted));
    assert_eq!(
        client.get_position(staker),
        StakePosition {
            amount,
            shares: minted,
        }
    );

    // shares = amount2 * total_shares / total_staked = 100M * 500M / 500M = 100M
    let amount2 = 100_000_000i128;
    let minted2 = client.stake(staker, amount2).unwrap();
    assert_eq!(minted2, amount2);
    assert_eq!(client.total_staked(), Ok(amount + amount2));
    assert_eq!(client.total_shares(), Ok(minted + minted2));
}

#[test]
fn unstake_partial_returns_proportional_tokens() {
    let (_admin, staker, mut client, _token) = setup();

    let shares = client.stake(staker, 400_000_000i128).unwrap();
    let half = shares / 2;
    let returned = client.unstake(staker, half).unwrap();

    assert_eq!(returned, 200_000_000);
    assert_eq!(client.total_staked(), Ok(200_000_000));
    assert_eq!(client.total_shares(), Ok(200_000_000));
}

#[test]
fn unstake_rejects_insufficient_shares() {
    let (_admin, staker, mut client, _token) = setup();
    client.stake(staker, 100_000_000i128).unwrap();
    assert_eq!(
        client.unstake(staker, 999_999_999),
        Err(StakingError::InsufficientShares)
    );
}

#[test]
fn unstake_rejects_zero_shares() {
    let (_admin, staker, mut client, _token) = setup();
    client.stake(staker, 100_000_000i128).unwrap();
    assert_eq!(client.unstake(staker, 0), Err(StakingError::ZeroShares));
}

// ── further cases ─────────────────────────────────────────────────────────────

#[test]
fn staking_first_stake_mints_one_share_per_token_and_records_position() {
    let (_admin, staker, mut client, _token) = setup();
    let minted = client.stake(staker, 250_000_000i128).unwrap();
    assert_eq!(minted, 250_000_000);
    assert_eq!(
        client.get_position(staker),
        StakePosition {
            amount: 250_000_000,
            shares: 250_000_000,
        }
    );
    assert_eq!(client.total_staked(), Ok(250_000_000));
    assert_eq!(client.total_shares(), Ok(250_000_000));
}

#[test]
fn staking_unstake_all_returns_everything_and_clears_position() {
    let (_admin, staker, mut client, _token) = setup();
    let shares = client.stake(staker, 250_000_000i128).unwrap();
    let returned = client.unstake(staker, shares).unwrap();
    assert_eq!(returned, 250_000_000);
    assert_eq!(client.total_staked(), Ok(0));
    assert_eq!(client.total_shares(), Ok(0));
    assert_eq!(
        client.get_position(staker),
        StakePosition {
            amount: 0,
            shares: 0,
        }
    );
}

#[test]
fn staking_two_stakers_share_proportionally() {
    let (_admin, staker, mut client, _token) = setup();
    client.stake(staker, 300_000_000).unwrap();
    let minted2 = client.stake(STAKER2, 100_000_000).unwrap();
    // 100M * 300M / 300M
    assert_eq!(minted2, 100_000_000);
    assert_eq!(client.total_staked(), Ok(400_000_000));
    assert_eq!(client.total_shares(), Ok(400_000_000));
    assert_eq!(client.unstake(STAKER2, 100_000_000), Ok(100_000_000));
    assert_eq!(
        client.get_position(staker),
        StakePosition {
            amount: 300_000_000,
            shares: 300_000_000,
        }
    );
}

#[test]
fn staking_calls_before_initialize_return_not_initialized() {
    let mut client = StakingContract::new();
    assert_eq!(client.stake(STAKER, 10), Err(StakingError::NotInitialized));
    assert_eq!(client.unstake(STAKER, 10), Err(StakingError::NotInitialized));
    assert_eq!(client.total_staked(), Err(StakingError::NotInitialized));
    assert_eq!(client.total_shares(), Err(StakingError::NotInitialized));
    assert_eq!(client.token(), Err(StakingError::NotInitialized));
    assert_eq!(
        client.get_position(STAKER),
        StakePosition {
            amount: 0,
            shares: 0,
        }
    );
}

#[test]
fn staking_double_initialize_returns_already_initialized() {
    let (admin, _staker, mut client, token) = setup();
    assert_eq!(
        client.initialize(admin, token),
        Err(StakingError::AlreadyInitialized)
    );
}

#[test]
fn staking_unstake_without_position_is_insufficient() {
    let (_admin, staker, mut client, _token) = setup();
    assert_eq!(client.unstake(staker, 1), Err(StakingError::InsufficientShares));
}

#[test]
fn staking_unstake_rejects_negative_shares() {
    let (_admin, staker, mut client, _token) = setup();
    client.stake(staker, 10).unwrap();
    assert_eq!(client.unstake(staker, -5), Err(StakingError::ZeroShares));
}

#[test]
fn staking_small_deposit_after_partial_unstake() {
    let (_admin, staker, mut client, _token) = setup();
    client.stake(staker, 3).unwrap();
    client.unstake(staker, 1).unwrap();
    // totals are now 2 staked / 2 shares; a deposit of 1 mints 1 share.
    assert_eq!(client.stake(STAKER2, 1), Ok(1));
    assert_eq!(client.total_staked(), Ok(3));
    assert_eq!(client.total_shares(), Ok(3));
}

#[test]
fn staking_overflowing_share_computation_is_zero_share_mint() {
    let (_admin, staker, mut client, _token) = setup();
    client.stake(staker, i128::MAX / 2).unwrap();
    // amount * total_shares overflows i128.
    assert_eq!(client.stake(STAKER2, 4), Err(StakingError::ZeroShareMint));
}

#[test]
fn stake_transfers_tokens_and_records_position() {
    let (_admin, staker, mut client, _token) = setup();
    let minted_shares = client.stake(staker, 250_000_000i128).unwrap();
    assert_eq!(minted_shares, 250_000_000);
    assert_eq!(
        client.get_position(staker),
        StakePosition {
            amount: 250_000_000,
            shares: 250_000_000,
        }
    );
    assert_eq!(client.total_staked(), Ok(250_000_000));
    assert_eq!(client.total_shares(), Ok(250_000_000));
}

/// The pool as it stands after `total_staked` was raised to `total_staked`
/// without minting shares, as yield accrual does.
fn with_total_staked(client: &StakingContract, total_staked: i128) -> StakingContract {
    let mut snapshot = client.snapshot();
    snapshot.total_staked = total_staked;
    StakingContract::restore(&snapshot)
}

#[test]
fn stake_mints_proportional_shares_for_later_stakers() {
    let (_admin, first_staker, mut client, _token) = setup();
    let second_staker = STAKER2;
    client.stake(first_staker, 200_000_000i128).unwrap();
    let mut client = with_total_staked(&client, 400_000_000i128);

    let minted_second = client.stake(second_staker, 100_000_000i128).unwrap();
    assert_eq!(minted_second, 50_000_000);
    assert_eq!(
        client.get_position(second_staker),
        StakePosition {
            amount: 100_000_000,
            shares: 50_000_000,
        }
    );
}

#[test]
fn unstake_full_returns_all_tokens() {
    let (_admin, staker, mut client, _token) = setup();
    let shares = client.stake(staker, 250_000_000i128).unwrap();
    let returned = client.unstake(staker, shares).unwrap();
    assert_eq!(returned, 250_000_000);
    assert_eq!(client.total_staked(), Ok(0));
    assert_eq!(client.total_shares(), Ok(0));
    assert_eq!(
        client.get_position(staker),
        StakePosition { amount: 0, shares: 0 }
    );
}

#[test]
fn integration_deploys_and_initializes() {
    let (admin, _staker, client, token) = setup();
    assert_eq!(client.token(), Ok(token));
    assert_eq!(client.total_staked(), Ok(0));
    assert_eq!(client.total_shares(), Ok(0));
    assert_eq!(admin, ADMIN);
}

#[test]
fn integration_stake_flow_and_yield_mimic() {
    let (_admin, staker1, mut client, _token) = setup();
    let staker2 = STAKER2;

    let amount1 = 250_000_000i128;
    let minted1 = client.stake(staker1, amount1).unwrap();
    assert_eq!(minted1, amount1);
    assert_eq!(client.total_staked(), Ok(amount1));
    assert_eq!(client.total_shares(), Ok(amount1));
    assert_eq!(
        client.get_position(staker1),
        StakePosition {
            amount: amount1,
            shares: amount1
        }
    );

    let yield_amount = 50_000_000i128;
    let adjusted_total_staked = amount1 + yield_amount;
    let mut client = with_total_staked(&client, adjusted_total_staked);

    let amount2 = 100_000_000i128;
    let minted2 = client.stake(staker2, amount2).unwrap();
    let expected_minted2 = amount2
        .checked_mul(amount1)
        .and_then(|v| v.checked_div(adjusted_total_staked))
        .expect("math must not overflow");
    assert_eq!(minted2, expected_minted2);

    let position2 = client.get_position(staker2);
    assert_eq!(position2.amount, amount2);
    assert_eq!(position2.shares, expected_minted2);
    assert_eq!(client.total_staked(), Ok(adjusted_total_staked + amount2));
}

#[test]
fn staking_position_shares_add_up_to_total_shares() {
    let (_admin, staker, mut client, _token) = setup();
    client.stake(staker, 1_000).unwrap();
    client.stake(STAKER2, 500).unwrap();
    let client_with_yield = {
        let mut snapshot = client.snapshot();
        snapshot.total_staked = 3_000;
        StakingContract::restore(&snapshot)
    };
    let mut client = client_with_yield;
    client.stake(STAKER2, 600).unwrap();
    client.unstake(staker, 300).unwrap();
    let total = client.get_position(staker).shares + client.get_position(STAKER2).shares;
    assert_eq!(client.total_shares(), Ok(total));
    assert_eq!(total, 700 + 800);
    client.unstake(STAKER2, 800).unwrap();
    assert_eq!(client.get_position(STAKER2), StakePosition { amount: 0, shares: 0 });
    assert_eq!(client.total_shares(), Ok(700));
}
