use inverse_arena::arena::{ArenaContract, ArenaError, Choice};
use inverse_arena::factory::FactoryContract;
use inverse_arena::ids::AccountId;
use inverse_arena::payout::{Payment, PayoutContract};

const ADMIN: AccountId = 1;
const NOW: u64 = 1_700_000_000;

/// An arena with the production caps as the factory's deployment leaves it:
/// configured, with an admin and a token.
fn deploy_arena(admin: AccountId, round_speed: u32, required_stake: i128, token: AccountId) -> ArenaContract {
    let mut arena = ArenaContract::new();
    arena.init(round_speed, required_stake).unwrap();
    arena.initialize(admin);
    arena.set_token(token).unwrap();
    arena
}

fn deploy_all(admin: AccountId) -> (FactoryContract, PayoutContract) {
    let mut factory = FactoryContract::new();
    let mut payout = PayoutContract::new();
    factory.initialize(admin).unwrap();
    payout.initialize(admin);
    (factory, payout)
}

#[test]
fn lifecycle_full_game_three_rounds_eight_players() {
    let admin = ADMIN;
    let (_factory, mut payout) = deploy_all(admin);
    let xlm = 3;
    let round_speed = 10u32;
    let stake = 10_000_000i128;
    let mut arena = deploy_arena(admin, round_speed, stake, xlm);

    let players: Vec<AccountId> = (0..8).map(|i| 100 + i).collect();
    for p in &players {
        arena.join(*p, stake).unwrap();
    }
    let r1 = arena.start_round(1_010).unwrap();
    assert_eq!(r1.round_number, 1);
    for (i, p) in players.iter().enumerate() {
        let choice = if i % 2 == 0 { Choice::Heads } else { Choice::Tails };
        arena.submit_choice(*p, r1.round_number, choice, 1_015).unwrap();
    }
    arena.timeout_round(1_021).unwrap();

    let winner = players[0];
    let prize_amount = 80_000_000i128;
    payout.set_treasury(admin);
    let payments = payout.distribute_prize(1, prize_amount, vec![winner], xlm).unwrap();
    assert_eq!(payments, vec![Payment { token: xlm, to: winner, amount: prize_amount }]);
}

#[test]
fn test_double_claim_prevention() {
    let admin = ADMIN;
    let (_factory, _payout) = deploy_all(admin);
    let stake = 1000i128;
    let yield_comp = 10i128;
    let mut arena = deploy_arena(admin, 10, stake, 3);
    let (player, rival) = (100, 101);
    arena.join(player, stake).unwrap();
    arena.join(rival, stake).unwrap();
    arena.start_round(1).unwrap();
    arena.submit_choice(player, 1, Choice::Heads, 1).unwrap();
    arena.submit_choice(rival, 1, Choice::Tails, 1).unwrap();
    arena.resolve_round(12, 0).unwrap();

    arena.set_winner(player, stake, yield_comp).unwrap();
    assert_eq!(arena.claim(player), Ok(3 * stake + yield_comp));
    arena.finish_claim();
    assert_eq!(arena.claim(player), Err(ArenaError::AlreadyClaimed));
}

#[test]
fn test_payout_rounding_and_dust() {
    let admin = ADMIN;
    let (_factory, mut payout) = deploy_all(admin);
    let treasury = 9;
    payout.set_treasury(treasury);
    let currency = 3;
    let payments = payout.distribute_prize(1, 100, vec![100, 101, 102], currency).unwrap();
    assert_eq!(payments.len(), 4);
    assert!(payments[..3].iter().all(|p| p.amount == 33));
    assert_eq!(payments[3], Payment { token: currency, to: treasury, amount: 1 });
}

#[test]
fn test_emergency_pause_and_resume() {
    let admin = ADMIN;
    let (_factory, _payout) = deploy_all(admin);
    let mut arena = deploy_arena(admin, 10, 100, 3);
    for p in [100, 101] {
        arena.join(p, 100).unwrap();
    }
    arena.pause();
    assert!(arena.is_paused());
    assert_eq!(arena.start_round(0), Err(ArenaError::Paused));
    arena.unpause();
    assert!(!arena.is_paused());
    assert!(arena.start_round(0).is_ok());
}

#[test]
fn test_upgrade_cancellation() {
    let admin = ADMIN;
    let (_factory, _payout) = deploy_all(admin);
    let mut arena = deploy_arena(admin, 10, 100, 3);
    arena.propose_upgrade([0xabu8; 32], NOW).unwrap();
    assert!(arena.pending_upgrade().is_some());
    arena.cancel_upgrade().unwrap();
    assert!(arena.pending_upgrade().is_none());
}
