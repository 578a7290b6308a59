use inverse_arena::ids::{AccountId, SymbolId};
use inverse_arena::payout::{Payment, PayoutContract, PayoutError};

const ADMIN: AccountId = 1;
const TREASURY: AccountId = 2;
const TOKEN: AccountId = 3;
const ARENA_1: SymbolId = 100;
const CTX: SymbolId = 101;
const XLM: SymbolId = 200;
const USDC: SymbolId = 201;

fn setup() -> (AccountId, PayoutContract) {
    let mut client = PayoutContract::new();
    client.initialize(ADMIN);
    (ADMIN, client)
}

fn setup_with_token() -> (AccountId, PayoutContract, AccountId, AccountId) {
    let (admin, mut client) = setup();
    client.set_treasury(TREASURY);
    (admin, client, TOKEN, TREASURY)
}

#[test]
fn test_test_initialize_sets_admin() {
    let (admin, client) = setup();
    assert_eq!(client.admin(), admin);
}

#[test]
fn test_admin_can_distribute_winnings() {
    let (_admin, mut client) = setup();
    let winner = 10;
    let ctx = ARENA_1;
    let pool_id = 1u32;
    let round_id = 1u32;
    let amount = 1000i128;
    let currency = XLM;

    assert!(!client.is_payout_processed(ctx, pool_id, round_id, winner));
    client
        .distribute_winnings(ctx, pool_id, round_id, winner, amount, currency)
        .unwrap();
    assert!(client.is_payout_processed(ctx, pool_id, round_id, winner));

    let payout = client.get_payout(ctx, pool_id, round_id, winner).unwrap();
    assert_eq!(payout.winner, winner);
    assert_eq!(payout.amount, amount);
    assert_eq!(payout.currency, currency);
    assert!(payout.paid);
}

#[test]
fn test_zero_amount_returns_error() {
    let (_admin, mut client) = setup();
    let result = client.distribute_winnings(ARENA_1, 1u32, 1u32, 10, 0i128, XLM);
    assert_eq!(result, Err(PayoutError::InvalidAmount));
}

#[test]
fn test_negative_amount_returns_error() {
    let (_admin, mut client) = setup();
    let result = client.distribute_winnings(ARENA_1, 1u32, 1u32, 10, -1i128, XLM);
    assert_eq!(result, Err(PayoutError::InvalidAmount));
}

#[test]
fn test_idempotency_prevents_double_pay_same_key() {
    let (_admin, mut client) = setup();
    let winner = 10;
    client
        .distribute_winnings(ARENA_1, 7u32, 2u32, winner, 1000i128, XLM)
        .unwrap();
    let second = client.distribute_winnings(ARENA_1, 7u32, 2u32, winner, 9999i128, XLM);
    assert_eq!(second, Err(PayoutError::AlreadyPaid));
}

#[test]
fn test_different_round_ids_allow_multiple_payouts() {
    let (_admin, mut client) = setup();
    let winner = 10;
    client
        .distribute_winnings(ARENA_1, 1u32, 1u32, winner, 1000i128, USDC)
        .unwrap();
    client
        .distribute_winnings(ARENA_1, 1u32, 2u32, winner, 2000i128, USDC)
        .unwrap();
    assert!(client.is_payout_processed(ARENA_1, 1u32, 1u32, winner));
    assert!(client.is_payout_processed(ARENA_1, 1u32, 2u32, winner));
}

#[test]
fn test_get_payout_returns_none_for_unprocessed() {
    let (_admin, client) = setup();
    assert!(client.get_payout(ARENA_1, 1u32, 1u32, 10).is_none());
}

#[test]
fn test_distribute_prize_idempotency_prevents_double_payout() {
    let (_admin, mut client, token_id, _treasury) = setup_with_token();
    let winners = vec![10];
    client.distribute_prize(3u32, 500i128, winners.clone(), token_id).unwrap();
    assert!(client.is_prize_distributed(3u32));
    let second = client.distribute_prize(3u32, 500i128, winners, token_id);
    assert_eq!(second, Err(PayoutError::AlreadyPaid));
}

#[test]
fn test_distribute_prize_no_winners_returns_error() {
    let (_admin, mut client, token_id, _treasury) = setup_with_token();
    let empty: Vec<AccountId> = Vec::new();
    let result = client.distribute_prize(4u32, 1000i128, empty, token_id);
    assert_eq!(result, Err(PayoutError::NoWinners));
}

#[test]
fn test_distribute_prize_invalid_amount_returns_error() {
    let (_admin, mut client, token_id, _treasury) = setup_with_token();
    let result = client.distribute_prize(5u32, 0i128, vec![10], token_id);
    assert_eq!(result, Err(PayoutError::InvalidAmount));
}

#[test]
fn admin_can_pause_and_unpause_payout() {
    let (_admin, mut client) = setup();
    assert!(!client.is_paused());
    client.pause();
    assert!(client.is_paused());
    client.unpause();
    assert!(!client.is_paused());
}

#[test]
fn pause_blocks_distribute_winnings() {
    let (_admin, mut client) = setup();
    client.pause();
    let result = client.distribute_winnings(CTX, 1u32, 1u32, 10, 100i128, XLM);
    assert_eq!(result, Err(PayoutError::Paused));
}

#[test]
fn pause_blocks_distribute_prize() {
    let (_admin, mut client, token_id, _treasury) = setup_with_token();
    client.pause();
    let result = client.distribute_prize(1u32, 100i128, vec![10], token_id);
    assert_eq!(result, Err(PayoutError::Paused));
}

#[test]
fn unpause_restores_distribute_winnings() {
    let (_admin, mut client) = setup();
    client.pause();
    client.unpause();
    assert!(!client.is_paused());
    let result = client.distribute_winnings(CTX, 1u32, 1u32, 10, 100i128, XLM);
    assert!(result.is_ok(), "should succeed after unpause");
}

#[test]
fn read_functions_unaffected_by_payout_pause() {
    let (admin, mut client) = setup();
    client.pause();
    assert_eq!(client.admin(), admin);
    assert!(client.is_paused());
}

// ── further cases ─────────────────────────────────────────────────────────────

#[test]
fn test_set_currency_token_enables_token_transfer() {
    let (_admin, mut client, token_id, _treasury) = setup_with_token();
    let winner = 10;
    client.set_currency_token(USDC, token_id).unwrap();
    let transfer = client
        .distribute_winnings(ARENA_1, 3u32, 1u32, winner, 750i128, USDC)
        .unwrap();
    assert_eq!(
        transfer,
        Some(Payment {
            token: token_id,
            to: winner,
            amount: 750
        })
    );
}

#[test]
fn payout_unregistered_currency_is_recorded_without_transfer() {
    let (_admin, mut client) = setup();
    let transfer = client
        .distribute_winnings(ARENA_1, 3u32, 1u32, 10, 750i128, XLM)
        .unwrap();
    assert_eq!(transfer, None);
    assert!(client.is_payout_processed(ARENA_1, 3u32, 1u32, 10));
}

#[test]
fn test_distribute_prize_transfers_tokens_to_winners() {
    let (_admin, mut client, token_id, _treasury) = setup_with_token();
    let payments = client.distribute_prize(1u32, 1000i128, vec![10, 11], token_id).unwrap();
    assert_eq!(
        payments,
        vec![
            Payment {
                token: token_id,
                to: 10,
                amount: 500
            },
            Payment {
                token: token_id,
                to: 11,
                amount: 500
            },
        ]
    );
}

#[test]
fn test_distribute_prize_sends_dust_to_treasury() {
    let (_admin, mut client, token_id, treasury) = setup_with_token();
    let payments = client
        .distribute_prize(2u32, 1000i128, vec![10, 11, 12], token_id)
        .unwrap();
    assert_eq!(payments.len(), 4);
    for (i, p) in payments.iter().take(3).enumerate() {
        assert_eq!(p.to, 10 + i as u64);
        assert_eq!(p.amount, 333);
    }
    assert_eq!(
        payments[3],
        Payment {
            token: token_id,
            to: treasury,
            amount: 1
        }
    );
    let total: i128 = payments.iter().map(|p| p.amount).sum();
    assert_eq!(total, 1000);
}

#[test]
fn payout_prize_needs_a_treasury() {
    let (_admin, mut client) = setup();
    let result = client.distribute_prize(6u32, 1000i128, vec![10], TOKEN);
    assert_eq!(result, Err(PayoutError::TreasuryNotSet));
    assert!(!client.is_prize_distributed(6u32));
    assert_eq!(client.treasury(), Err(PayoutError::TreasuryNotSet));
}

#[test]
fn payout_currency_token_cannot_be_set_while_paused() {
    let (_admin, mut client) = setup();
    client.pause();
    assert_eq!(client.set_currency_token(USDC, TOKEN), Err(PayoutError::Paused));
}

#[test]
fn payout_hello_returns_fixed_value() {
    assert_eq!(PayoutContract::hello(), 789);
}

#[test]
fn payout_factory_initialisation_records_admin() {
    let mut client = PayoutContract::new();
    client.init_factory(50, ADMIN);
    assert_eq!(client.admin(), ADMIN);
}

#[test]
fn payout_share_smaller_than_one_sends_all_to_treasury() {
    let (_admin, mut client, token_id, treasury) = setup_with_token();
    let payments = client.distribute_prize(7u32, 2i128, vec![10, 11, 12], token_id).unwrap();
    assert_eq!(payments.len(), 4);
    assert_eq!(payments[0].amount, 0);
    assert_eq!(payments[3].to, treasury);
    assert_eq!(payments[3].amount, 2);
}

#[test]
fn payout_record_survives_ttl_threshold() {
    let (_admin, mut client) = setup();
    let winner = 10;
    let pool_id = 1u32;
    let round_id = 1u32;
    client
        .distribute_winnings(CTX, pool_id, round_id, winner, 500i128, XLM)
        .unwrap();
    assert!(client.is_payout_processed(CTX, pool_id, round_id, winner));
    assert!(!client.is_payout_processed(CTX, pool_id, round_id + 1, winner));
}
