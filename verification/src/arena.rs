//! The arena: a single elimination game.
//!
//! Players join by paying the required stake into a prize pool, rounds open
//! and close on ledger deadlines, each player still in the game records one
//! Heads/Tails choice per round, and resolving a round keeps the players who
//! chose the minority side. The designated winner (or the last survivor)
//! claims the pool once the game is finished. An admin can pause the game and
//! replace the contract code behind a 48-hour timelock.
use vstd::prelude::*;

use crate::bounds::{
    production_bounds, ArenaBounds, MIN_ARENA_PARTICIPANTS, MIN_REQUIRED_STAKE,
};
use crate::ids::{AccountId, WasmHash, TIMELOCK_PERIOD};
use crate::invariants::round_flags_coherent;
use crate::table::{lookup, pairs_map, Table, TableKey};

verus! {

/// Why an arena call was rejected.
#[derive(Copy, Clone, Debug, Eq, PartialEq, PartialOrd, Ord, Structural)]
pub enum ArenaError {
    AlreadyInitialized,
    InvalidRoundSpeed,
    RoundAlreadyActive,
    NoActiveRound,
    SubmissionWindowClosed,
    SubmissionAlreadyExists,
    RoundStillOpen,
    RoundDeadlineOverflow,
    NotInitialized,
    Paused,
    ArenaFull,
    AlreadyJoined,
    InvalidAmount,
    NoPrizeToClaim,
    AlreadyClaimed,
    ReentrancyGuard,
    NotASurvivor,
    GameAlreadyFinished,
    TokenNotSet,
    MaxSubmissionsPerRound,
    PlayerEliminated,
    WrongRoundNumber,
    NotEnoughPlayers,
    GameNotFinished,
    WinnerNotSet,
    WinnerAlreadySet,
    InvalidCapacity,
    UpgradeAlreadyPending,
    NoPendingUpgrade,
    TimelockNotExpired,
    TokenConfigurationLocked,
}

impl ArenaError {
    /// The numeric code under which the error is published on chain.
    pub fn code(&self) -> (c: u32)
        ensures
            c == arena_error_code(*self),
    {
        match self {
            ArenaError::AlreadyInitialized => 1,
            ArenaError::InvalidRoundSpeed => 2,
            ArenaError::RoundAlreadyActive => 3,
            ArenaError::NoActiveRound => 4,
            ArenaError::SubmissionWindowClosed => 5,
            ArenaError::SubmissionAlreadyExists => 6,
            ArenaError::RoundStillOpen => 7,
            ArenaError::RoundDeadlineOverflow => 8,
            ArenaError::NotInitialized => 9,
            ArenaError::Paused => 10,
            ArenaError::ArenaFull => 11,
            ArenaError::AlreadyJoined => 12,
            ArenaError::InvalidAmount => 13,
            ArenaError::NoPrizeToClaim => 14,
            ArenaError::AlreadyClaimed => 15,
            ArenaError::ReentrancyGuard => 16,
            ArenaError::NotASurvivor => 17,
            ArenaError::GameAlreadyFinished => 18,
            ArenaError::TokenNotSet => 19,
            ArenaError::MaxSubmissionsPerRound => 20,
            ArenaError::PlayerEliminated => 21,
            ArenaError::WrongRoundNumber => 22,
            ArenaError::NotEnoughPlayers => 23,
            ArenaError::GameNotFinished => 24,
            ArenaError::WinnerNotSet => 25,
            ArenaError::WinnerAlreadySet => 26,
            ArenaError::InvalidCapacity => 27,
            ArenaError::UpgradeAlreadyPending => 28,
            ArenaError::NoPendingUpgrade => 29,
            ArenaError::TimelockNotExpired => 30,
            ArenaError::TokenConfigurationLocked => 31,
        }
    }
}

/// The on-chain code of each arena error: the variants are numbered from 1
/// in declaration order.
pub open spec fn arena_error_code(e: ArenaError) -> u32 {
    match e {
        ArenaError::AlreadyInitialized => 1,
        ArenaError::InvalidRoundSpeed => 2,
        ArenaError::RoundAlreadyActive => 3,
        ArenaError::NoActiveRound => 4,
        ArenaError::SubmissionWindowClosed => 5,
        ArenaError::SubmissionAlreadyExists => 6,
        ArenaError::RoundStillOpen => 7,
        ArenaError::RoundDeadlineOverflow => 8,
        ArenaError::NotInitialized => 9,
        ArenaError::Paused => 10,
        ArenaError::ArenaFull => 11,
        ArenaError::AlreadyJoined => 12,
        ArenaError::InvalidAmount => 13,
        ArenaError::NoPrizeToClaim => 14,
        ArenaError::AlreadyClaimed => 15,
        ArenaError::ReentrancyGuard => 16,
        ArenaError::NotASurvivor => 17,
        ArenaError::GameAlreadyFinished => 18,
        ArenaError::TokenNotSet => 19,
        ArenaError::MaxSubmissionsPerRound => 20,
        ArenaError::PlayerEliminated => 21,
        ArenaError::WrongRoundNumber => 22,
        ArenaError::NotEnoughPlayers => 23,
        ArenaError::GameNotFinished => 24,
        ArenaError::WinnerNotSet => 25,
        ArenaError::WinnerAlreadySet => 26,
        ArenaError::InvalidCapacity => 27,
        ArenaError::UpgradeAlreadyPending => 28,
        ArenaError::NoPendingUpgrade => 29,
        ArenaError::TimelockNotExpired => 30,
        ArenaError::TokenConfigurationLocked => 31,
    }
}

/// A player's prediction for a round.
#[derive(Copy, Clone, Debug, Eq, PartialEq, Structural)]
pub enum Choice {
    Heads,
    Tails,
}

/// Game configuration, written once by `init`.
#[derive(Copy, Clone, Debug, Eq, PartialEq, Structural)]
pub struct ArenaConfig {
    pub round_speed_in_ledgers: u32,
}

/// State of the current (or last) round.
#[derive(Copy, Clone, Debug, Eq, PartialEq, Structural)]
pub struct RoundState {
    pub round_number: u32,
    pub round_start_ledger: u32,
    pub round_deadline_ledger: u32,
    pub active: bool,
    pub total_submissions: u32,
    pub timed_out: bool,
    pub finished: bool,
}

/// Aggregate arena figures.
#[derive(Copy, Clone, Debug, Eq, PartialEq, Structural)]
pub struct ArenaState {
    pub survivors_count: u32,
    pub max_capacity: u32,
    pub round_number: u32,
    pub current_stake: i128,
    pub potential_payout: i128,
}

/// Aggregate arena figures as shown to clients.
#[derive(Copy, Clone, Debug, Eq, PartialEq, Structural)]
pub struct ArenaStateView {
    pub survivors_count: u32,
    pub max_capacity: u32,
    pub round_number: u32,
    pub current_stake: i128,
    pub potential_payout: i128,
}

/// One player's standing in the arena.
#[derive(Copy, Clone, Debug, Eq, PartialEq, Structural)]
pub struct UserStateView {
    pub is_active: bool,
    pub has_won: bool,
}

/// Arena figures together with one player's standing.
#[derive(Copy, Clone, Debug, Eq, PartialEq, Structural)]
pub struct FullStateView {
    pub survivors_count: u32,
    pub max_capacity: u32,
    pub round_number: u32,
    pub current_stake: i128,
    pub potential_payout: i128,
    pub is_active: bool,
    pub has_won: bool,
}

/// Key of a recorded choice: the round number and the player.
#[derive(Copy, Clone, Debug, Eq, PartialEq, Structural)]
pub struct SubmissionKey {
    pub round_number: u32,
    pub player: AccountId,
}

impl TableKey for SubmissionKey {
    fn same_key(&self, other: &Self) -> (r: bool) {
        self.round_number == other.round_number && self.player == other.player
    }
}

/// The round held before any round has started.
pub open spec fn initial_round() -> RoundState {
    RoundState {
        round_number: 0,
        round_start_ledger: 0,
        round_deadline_ledger: 0,
        active: false,
        total_submissions: 0,
        timed_out: false,
        finished: false,
    }
}

fn fresh_round() -> (r: RoundState)
    ensures
        r == initial_round(),
{
    RoundState {
        round_number: 0,
        round_start_ledger: 0,
        round_deadline_ledger: 0,
        active: false,
        total_submissions: 0,
        timed_out: false,
        finished: false,
    }
}

/// Everything an arena stores.
/// Everything an arena stores.
pub struct ArenaContract {
    bounds: ArenaBounds,
    config: Option<ArenaConfig>,
    required_stake: i128,
    round: Option<RoundState>,
    submissions: Table<SubmissionKey, Choice>,
    survivors: Vec<AccountId>,
    eliminated: Vec<AccountId>,
    prize_claimed: Table<AccountId, i128>,
    winner: Option<AccountId>,
    game_finished: bool,
    admin: Option<AccountId>,
    paused: bool,
    pending_upgrade: Option<(WasmHash, u64)>,
    capacity: u32,
    token: Option<AccountId>,
    token_locked: bool,
    prize_pool: i128,
    claim_locked: bool,
}

/// The abstract state of an arena.
pub struct ArenaModel {
    /// The caps the arena enforces.
    pub bounds: ArenaBounds,
    /// Written by `init`.
    pub config: Option<ArenaConfig>,
    /// The stake every player pays to join, written by `init`.
    pub required_stake: i128,
    /// The current (or last) round, written by `init` and the round calls.
    pub round: Option<RoundState>,
    /// Recorded choices, by round and player.
    pub submissions: Map<SubmissionKey, Choice>,
    /// Players still in the game, in the order they joined.
    pub survivors: Seq<AccountId>,
    /// Players who joined and were eliminated by a resolution.
    pub eliminated: Seq<AccountId>,
    /// Prizes paid, by winner.
    pub prize_claimed: Map<AccountId, i128>,
    /// The winner the admin designated, if any.
    pub winner: Option<AccountId>,
    /// Set once a single survivor is left (or the prize was claimed).
    pub game_finished: bool,
    pub admin: Option<AccountId>,
    pub paused: bool,
    /// Proposed code hash and the earliest time it may be installed.
    pub pending_upgrade: Option<(WasmHash, u64)>,
    /// Configured capacity; 0 stands for the participant cap.
    pub capacity: u32,
    /// Token the stakes and the prize are paid in.
    pub token: Option<AccountId>,
    /// Set by the first join; the token cannot change afterwards.
    pub token_locked: bool,
    pub prize_pool: i128,
    /// Taken by a claim while its transfer is in flight.
    pub claim_locked: bool,
}

impl View for ArenaContract {
    type V = ArenaModel;

    closed spec fn view(&self) -> ArenaModel {
        ArenaModel {
            bounds: self.bounds,
            config: self.config,
            required_stake: self.required_stake,
            round: self.round,
            submissions: self.submissions@,
            survivors: self.survivors@,
            eliminated: self.eliminated@,
            prize_claimed: self.prize_claimed@,
            winner: self.winner,
            game_finished: self.game_finished,
            admin: self.admin,
            paused: self.paused,
            pending_upgrade: self.pending_upgrade,
            capacity: self.capacity,
            token: self.token,
            token_locked: self.token_locked,
            prize_pool: self.prize_pool,
            claim_locked: self.claim_locked,
        }
    }
}

/// An arena's storage as plain values, to persist it between calls.
pub struct ArenaSnapshot {
    pub bounds: ArenaBounds,
    pub config: Option<ArenaConfig>,
    pub required_stake: i128,
    pub round: Option<RoundState>,
    pub submissions: Vec<(SubmissionKey, Choice)>,
    pub survivors: Vec<AccountId>,
    pub eliminated: Vec<AccountId>,
    pub prize_claimed: Vec<(AccountId, i128)>,
    pub winner: Option<AccountId>,
    pub game_finished: bool,
    pub admin: Option<AccountId>,
    pub paused: bool,
    pub pending_upgrade: Option<(WasmHash, u64)>,
    pub capacity: u32,
    pub token: Option<AccountId>,
    pub token_locked: bool,
    pub prize_pool: i128,
    pub claim_locked: bool,
}

/// The arena a snapshot describes.
pub open spec fn snapshot_model(s: ArenaSnapshot) -> ArenaModel {
    ArenaModel {
        bounds: s.bounds,
        config: s.config,
        required_stake: s.required_stake,
        round: s.round,
        submissions: pairs_map(s.submissions@),
        survivors: s.survivors@,
        eliminated: s.eliminated@,
        prize_claimed: pairs_map(s.prize_claimed@),
        winner: s.winner,
        game_finished: s.game_finished,
        admin: s.admin,
        paused: s.paused,
        pending_upgrade: s.pending_upgrade,
        capacity: s.capacity,
        token: s.token,
        token_locked: s.token_locked,
        prize_pool: s.prize_pool,
        claim_locked: s.claim_locked,
    }
}

/// A freshly deployed arena with the given caps: nothing stored.
pub open spec fn empty_arena(bounds: ArenaBounds) -> ArenaModel {
    ArenaModel {
        bounds,
        config: None,
        required_stake: 0,
        round: None,
        submissions: Map::empty(),
        survivors: Seq::empty(),
        eliminated: Seq::empty(),
        prize_claimed: Map::empty(),
        winner: None,
        game_finished: false,
        admin: None,
        paused: false,
        pending_upgrade: None,
        capacity: 0,
        token: None,
        token_locked: false,
        prize_pool: 0,
        claim_locked: false,
    }
}

/// How many players may be in the game at once: the configured capacity,
/// capped by the participant cap, where 0 stands for the cap.
pub open spec fn effective_capacity(m: ArenaModel) -> u32 {
    if m.capacity == 0 || m.capacity > m.bounds.max_participants {
        m.bounds.max_participants
    } else {
        m.capacity
    }
}

/// The error `init` returns, if any.
pub open spec fn init_rejection(m: ArenaModel, round_speed: u32, required_stake: i128) -> Option<
    ArenaError,
> {
    if m.config is Some {
        Some(ArenaError::AlreadyInitialized)
    } else if round_speed < m.bounds.min_speed_ledgers || round_speed > m.bounds.max_speed_ledgers {
        Some(ArenaError::InvalidRoundSpeed)
    } else if required_stake < MIN_REQUIRED_STAKE {
        Some(ArenaError::InvalidAmount)
    } else {
        None
    }
}

/// The error `set_capacity` returns, if any.
pub open spec fn capacity_rejection(m: ArenaModel, capacity: u32) -> Option<ArenaError> {
    if capacity < MIN_ARENA_PARTICIPANTS || capacity > m.bounds.max_participants {
        Some(ArenaError::InvalidCapacity)
    } else {
        None
    }
}

/// The error `set_winner` returns, if any.
pub open spec fn set_winner_rejection(
    m: ArenaModel,
    player: AccountId,
    stake: i128,
    yield_comp: i128,
) -> Option<ArenaError> {
    if m.paused {
        Some(ArenaError::Paused)
    } else if stake < 0 || yield_comp < 0 {
        Some(ArenaError::InvalidAmount)
    } else if !m.survivors.contains(player) {
        Some(ArenaError::NotASurvivor)
    } else if m.winner is Some {
        Some(ArenaError::WinnerAlreadySet)
    } else if stake + yield_comp > i128::MAX || m.prize_pool + stake + yield_comp > i128::MAX
        || m.prize_pool + stake + yield_comp < i128::MIN {
        Some(ArenaError::InvalidAmount)
    } else {
        None
    }
}

/// The error `join` returns, if any.
pub open spec fn join_rejection(m: ArenaModel, player: AccountId, amount: i128) -> Option<
    ArenaError,
> {
    if m.paused {
        Some(ArenaError::Paused)
    } else if m.config is None {
        Some(ArenaError::NotInitialized)
    } else if m.game_finished {
        Some(ArenaError::GameAlreadyFinished)
    } else if amount != m.required_stake {
        Some(ArenaError::InvalidAmount)
    } else if m.survivors.contains(player) || m.eliminated.contains(player) {
        Some(ArenaError::AlreadyJoined)
    } else if m.survivors.len() >= effective_capacity(m) {
        Some(ArenaError::ArenaFull)
    } else if m.token is None {
        Some(ArenaError::TokenNotSet)
    } else {
        None
    }
}

/// The error `start_round` returns, if any.
pub open spec fn start_round_rejection(m: ArenaModel, ledger_sequence: u32) -> Option<ArenaError> {
    if m.paused {
        Some(ArenaError::Paused)
    } else if m.config is None || m.round is None {
        Some(ArenaError::NotInitialized)
    } else if m.game_finished {
        Some(ArenaError::GameAlreadyFinished)
    } else if m.round.unwrap().active {
        Some(ArenaError::RoundAlreadyActive)
    } else if m.survivors.len() < MIN_ARENA_PARTICIPANTS {
        Some(ArenaError::NotEnoughPlayers)
    } else if ledger_sequence + m.config.unwrap().round_speed_in_ledgers > u32::MAX {
        Some(ArenaError::RoundDeadlineOverflow)
    } else {
        None
    }
}

/// The round that `start_round` opens at `ledger_sequence`.
pub open spec fn next_round(m: ArenaModel, ledger_sequence: u32) -> RoundState {
    RoundState {
        round_number: (m.round.unwrap().round_number + 1) as u32,
        round_start_ledger: ledger_sequence,
        round_deadline_ledger: (ledger_sequence + m.config.unwrap().round_speed_in_ledgers) as u32,
        active: true,
        total_submissions: 0,
        timed_out: false,
        finished: false,
    }
}

/// The error `submit_choice` returns, if any.
pub open spec fn submit_rejection(
    m: ArenaModel,
    player: AccountId,
    round_number: u32,
    ledger_sequence: u32,
) -> Option<ArenaError> {
    if m.paused {
        Some(ArenaError::Paused)
    } else if m.round is None {
        Some(ArenaError::NotInitialized)
    } else if !m.round.unwrap().active {
        Some(ArenaError::NoActiveRound)
    } else if round_number != m.round.unwrap().round_number {
        Some(ArenaError::WrongRoundNumber)
    } else if ledger_sequence > m.round.unwrap().round_deadline_ledger {
        Some(ArenaError::SubmissionWindowClosed)
    } else if !m.survivors.contains(player) {
        if m.eliminated.contains(player) {
            Some(ArenaError::PlayerEliminated)
        } else {
            Some(ArenaError::NotASurvivor)
        }
    } else if m.submissions.dom().contains(SubmissionKey { round_number, player }) {
        Some(ArenaError::SubmissionAlreadyExists)
    } else if m.round.unwrap().total_submissions >= m.bounds.max_submissions_per_round {
        Some(ArenaError::MaxSubmissionsPerRound)
    } else {
        None
    }
}

/// The error `timeout_round` returns, if any.
pub open spec fn timeout_rejection(m: ArenaModel, ledger_sequence: u32) -> Option<ArenaError> {
    if m.paused {
        Some(ArenaError::Paused)
    } else if m.round is None {
        Some(ArenaError::NotInitialized)
    } else if !m.round.unwrap().active {
        Some(ArenaError::NoActiveRound)
    } else if ledger_sequence <= m.round.unwrap().round_deadline_ledger {
        Some(ArenaError::RoundStillOpen)
    } else {
        None
    }
}

/// The round as `timeout_round` leaves it.
pub open spec fn timed_out_round(r: RoundState) -> RoundState {
    RoundState { active: false, timed_out: true, ..r }
}

/// The error `resolve_round` returns, if any: it resolves an active round
/// once the ledger is past its deadline.
pub open spec fn resolve_rejection(m: ArenaModel, ledger_sequence: u32) -> Option<ArenaError> {
    timeout_rejection(m, ledger_sequence)
}

/// Whether `player` chose `choice` in the current round.
pub open spec fn picked(m: ArenaModel, choice: Choice) -> spec_fn(AccountId) -> bool {
    |player: AccountId|
        lookup(
            m.submissions,
            SubmissionKey { round_number: m.round.unwrap().round_number, player },
        ) == Some(choice)
}

/// Whether `player` did not choose `choice` in the current round.
pub open spec fn not_picked(m: ArenaModel, choice: Choice) -> spec_fn(AccountId) -> bool {
    |player: AccountId|
        lookup(
            m.submissions,
            SubmissionKey { round_number: m.round.unwrap().round_number, player },
        ) != Some(choice)
}

/// How many survivors chose `choice` in the current round.
pub open spec fn votes(m: ArenaModel, choice: Choice) -> int {
    m.survivors.filter(picked(m, choice)).len() as int
}

/// The side that survives a round with `heads` and `tails` votes: the
/// minority; a side nobody chose never wins against one somebody chose; a
/// tie goes to Heads when `random` is even and to Tails when it is odd; with
/// no votes at all nobody is eliminated (`None`).
pub open spec fn surviving_side(heads: int, tails: int, random: u64) -> Option<Choice> {
    if heads == 0 && tails == 0 {
        None
    } else if heads == 0 {
        Some(Choice::Tails)
    } else if tails == 0 {
        Some(Choice::Heads)
    } else if heads < tails {
        Some(Choice::Heads)
    } else if tails < heads {
        Some(Choice::Tails)
    } else if random % 2 == 0 {
        Some(Choice::Heads)
    } else {
        Some(Choice::Tails)
    }
}

/// The side that survives the current round.
pub open spec fn round_winner(m: ArenaModel, random: u64) -> Option<Choice> {
    surviving_side(votes(m, Choice::Heads), votes(m, Choice::Tails), random)
}

/// The survivors after the current round is resolved.
pub open spec fn survivors_after(m: ArenaModel, random: u64) -> Seq<AccountId> {
    match round_winner(m, random) {
        Some(c) => m.survivors.filter(picked(m, c)),
        None => m.survivors,
    }
}

/// The eliminated players after the current round is resolved.
pub open spec fn eliminated_after(m: ArenaModel, random: u64) -> Seq<AccountId> {
    match round_winner(m, random) {
        Some(c) => m.eliminated + m.survivors.filter(not_picked(m, c)),
        None => m.eliminated,
    }
}

/// The round as `resolve_round` leaves it: closed, and finished when at most
/// one survivor is left.
pub open spec fn resolved_round(m: ArenaModel, random: u64) -> RoundState {
    RoundState {
        active: false,
        finished: survivors_after(m, random).len() <= 1,
        ..m.round.unwrap()
    }
}

/// The arena after a successful `resolve_round`.
pub open spec fn after_resolve(m: ArenaModel, random: u64) -> ArenaModel {
    ArenaModel {
        survivors: survivors_after(m, random),
        eliminated: eliminated_after(m, random),
        round: Some(resolved_round(m, random)),
        game_finished: m.game_finished || survivors_after(m, random).len() <= 1,
        ..m
    }
}

/// The player entitled to the prize: the designated winner, or else the
/// only survivor.
pub open spec fn designated_winner(m: ArenaModel) -> Option<AccountId> {
    match m.winner {
        Some(w) => Some(w),
        None => if m.survivors.len() == 1 {
            Some(m.survivors[0])
        } else {
            None
        },
    }
}

/// The error `claim` returns, if any.
pub open spec fn claim_rejection(m: ArenaModel, winner: AccountId) -> Option<ArenaError> {
    if m.paused {
        Some(ArenaError::Paused)
    } else if m.claim_locked {
        Some(ArenaError::ReentrancyGuard)
    } else if !m.game_finished {
        Some(ArenaError::GameNotFinished)
    } else if designated_winner(m) is None {
        Some(ArenaError::WinnerNotSet)
    } else if designated_winner(m) != Some(winner) {
        Some(ArenaError::NotASurvivor)
    } else if m.prize_claimed.dom().contains(winner) {
        Some(ArenaError::AlreadyClaimed)
    } else if m.prize_pool <= 0 {
        Some(ArenaError::NoPrizeToClaim)
    } else if m.token is None {
        Some(ArenaError::TokenNotSet)
    } else {
        None
    }
}

/// The error `propose_upgrade` returns, if any.
pub open spec fn propose_rejection(m: ArenaModel) -> Option<ArenaError> {
    if m.pending_upgrade is Some {
        Some(ArenaError::UpgradeAlreadyPending)
    } else {
        None
    }
}

/// The error `execute_upgrade` returns, if any.
pub open spec fn execute_rejection(m: ArenaModel, now: u64) -> Option<ArenaError> {
    if m.pending_upgrade is None {
        Some(ArenaError::NoPendingUpgrade)
    } else if now < m.pending_upgrade.unwrap().1 {
        Some(ArenaError::TimelockNotExpired)
    } else {
        None
    }
}

/// The figures `get_arena_state` reports.
pub open spec fn arena_state_of(m: ArenaModel) -> ArenaStateView {
    ArenaStateView {
        survivors_count: m.survivors.len() as u32,
        max_capacity: m.capacity,
        round_number: match m.round {
            Some(r) => r.round_number,
            None => 0,
        },
        current_stake: m.prize_pool,
        potential_payout: m.prize_pool,
    }
}

/// The standing `get_user_state` reports for `player`: in the game, and
/// designated winner or paid.
pub open spec fn user_state_of(m: ArenaModel, player: AccountId) -> UserStateView {
    UserStateView {
        is_active: m.survivors.contains(player),
        has_won: m.winner == Some(player) || m.prize_claimed.dom().contains(player),
    }
}

/// The arena after a successful `init`.
pub open spec fn after_init(m: ArenaModel, round_speed: u32, required_stake: i128) -> ArenaModel {
    ArenaModel {
        config: Some(ArenaConfig { round_speed_in_ledgers: round_speed }),
        required_stake,
        round: Some(initial_round()),
        ..m
    }
}

/// The arena after a successful `set_winner`.
pub open spec fn after_set_winner(m: ArenaModel, player: AccountId, stake: i128, yield_comp: i128) -> ArenaModel {
    ArenaModel {
        winner: Some(player),
        prize_pool: (m.prize_pool + stake + yield_comp) as i128,
        ..m
    }
}

/// The arena after a successful `join`.
pub open spec fn after_join(m: ArenaModel, player: AccountId, amount: i128) -> ArenaModel {
    ArenaModel {
        survivors: m.survivors.push(player),
        prize_pool: (m.prize_pool + amount) as i128,
        token_locked: true,
        ..m
    }
}

/// The arena after a successful `start_round` at `ledger_sequence`.
pub open spec fn after_start_round(m: ArenaModel, ledger_sequence: u32) -> ArenaModel {
    ArenaModel { round: Some(next_round(m, ledger_sequence)), ..m }
}

/// The arena after a successful `submit_choice`.
pub open spec fn after_submit(m: ArenaModel, player: AccountId, round_number: u32, choice: Choice) -> ArenaModel {
    ArenaModel {
        submissions: m.submissions.insert(SubmissionKey { round_number, player }, choice),
        round: Some(
            RoundState {
                total_submissions: (m.round.unwrap().total_submissions + 1) as u32,
                ..m.round.unwrap()
            },
        ),
        ..m
    }
}

/// The arena after a successful `timeout_round`.
pub open spec fn after_timeout(m: ArenaModel) -> ArenaModel {
    ArenaModel { round: Some(timed_out_round(m.round.unwrap())), ..m }
}

/// The arena after a successful `claim` by `winner`, with the transfer in
/// flight: the prize is recorded, the pool emptied, the game and its round
/// finished.
pub open spec fn after_claim(m: ArenaModel, winner: AccountId) -> ArenaModel {
    ArenaModel {
        prize_claimed: m.prize_claimed.insert(winner, m.prize_pool),
        prize_pool: 0,
        claim_locked: true,
        game_finished: true,
        round: match m.round {
            Some(r) => Some(RoundState { finished: true, ..r }),
            None => None,
        },
        ..m
    }
}

/// Whether an accepted `join` would push the prize pool out of the `i128`
/// range (the call then aborts).
pub open spec fn join_overflows(m: ArenaModel, player: AccountId, amount: i128) -> bool {
    join_rejection(m, player, amount) is None && (m.prize_pool + amount > i128::MAX || m.prize_pool
        + amount < i128::MIN)
}

/// Whether an accepted `start_round` would push the round number past
/// `u32::MAX` (the call then aborts).
pub open spec fn start_round_overflows(m: ArenaModel, ledger_sequence: u32) -> bool {
    start_round_rejection(m, ledger_sequence) is None && m.round.unwrap().round_number == u32::MAX
}

/// What every reachable arena satisfies: the round's flags are coherent and
/// its counters stay within their caps, the survivors stay within the
/// participant cap, the configuration and the round are written together,
/// and no round is open once the game is finished.
pub open spec fn arena_invariant(m: ArenaModel) -> bool {
    &&& m.survivors.len() <= m.bounds.max_participants
    &&& (m.config is Some <==> m.round is Some)
    &&& m.game_finished ==> (m.round matches Some(r) ==> !r.active)
    &&& match m.round {
        Some(r) => round_flags_coherent(r) && r.total_submissions
            <= m.bounds.max_submissions_per_round,
        None => true,
    }
}

/// Whether `v` holds `x`.
fn holds(v: &Vec<AccountId>, x: AccountId) -> (r: bool)
    ensures
        r == v@.contains(x),
{
    let mut i: usize = 0;
    while i < v.len()
        invariant
            i <= v@.len(),
            forall|j: int| 0 <= j < i ==> v@[j] != x,
        decreases v@.len() - i,
    {
        if v[i] == x {
            assert(v@[i as int] == x);
            return true;
        }
        i = i + 1;
    }
    false
}

impl ArenaContract {
    /// A freshly deployed arena with the production caps.
    pub fn new() -> (a: Self)
        ensures
            a@ == empty_arena(production_bounds()),
            arena_invariant(a@),
    {
        ArenaContract::with_bounds(ArenaBounds::production())
    }

    /// A freshly deployed arena with the given caps.
    pub fn with_bounds(bounds: ArenaBounds) -> (a: Self)
        ensures
            a@ == empty_arena(bounds),
            arena_invariant(a@),
    {
        ArenaContract {
            bounds,
            config: None,
            required_stake: 0,
            round: None,
            submissions: Table::new(),
            survivors: Vec::new(),
            eliminated: Vec::new(),
            prize_claimed: Table::new(),
            winner: None,
            game_finished: false,
            admin: None,
            paused: false,
            pending_upgrade: None,
            capacity: 0,
            token: None,
            token_locked: false,
            prize_pool: 0,
            claim_locked: false,
        }
    }

    /// The stored state as plain values.
    pub fn snapshot(&self) -> (s: ArenaSnapshot)
        ensures
            snapshot_model(s) == self@,
    {
        ArenaSnapshot {
            bounds: self.bounds,
            config: self.config,
            required_stake: self.required_stake,
            round: self.round,
            submissions: self.submissions.to_entries(),
            survivors: self.survivors.clone(),
            eliminated: self.eliminated.clone(),
            prize_claimed: self.prize_claimed.to_entries(),
            winner: self.winner,
            game_finished: self.game_finished,
            admin: self.admin,
            paused: self.paused,
            pending_upgrade: self.pending_upgrade,
            capacity: self.capacity,
            token: self.token,
            token_locked: self.token_locked,
            prize_pool: self.prize_pool,
            claim_locked: self.claim_locked,
        }
    }

    /// The arena a snapshot describes.
    pub fn restore(s: &ArenaSnapshot) -> (a: Self)
        ensures
            a@ == snapshot_model(*s),
    {
        ArenaContract {
            bounds: s.bounds,
            config: s.config,
            required_stake: s.required_stake,
            round: s.round,
            submissions: Table::from_entries(&s.submissions),
            survivors: s.survivors.clone(),
            eliminated: s.eliminated.clone(),
            prize_claimed: Table::from_entries(&s.prize_claimed),
            winner: s.winner,
            game_finished: s.game_finished,
            admin: s.admin,
            paused: s.paused,
            pending_upgrade: s.pending_upgrade,
            capacity: s.capacity,
            token: s.token,
            token_locked: s.token_locked,
            prize_pool: s.prize_pool,
            claim_locked: s.claim_locked,
        }
    }

    /// Configures the round speed and the stake every player pays; accepted
    /// once, for a speed within the arena's bounds and a positive stake.
    pub fn init(&mut self, round_speed_in_ledgers: u32, required_stake: i128) -> (r: Result<
        (),
        ArenaError,
    >)
        ensures
            match init_rejection(old(self)@, round_speed_in_ledgers, required_stake) {
                Some(e) => r == Err::<(), ArenaError>(e) && final(self)@ == old(self)@,
                None => r == Ok::<(), ArenaError>(()) && final(self)@ == after_init(
                    old(self)@,
                    round_speed_in_ledgers,
                    required_stake,
                ),
            },
            arena_invariant(old(self)@) ==> arena_invariant(final(self)@),
    {
        if self.config.is_some() {
            return Err(ArenaError::AlreadyInitialized);
        }
        if round_speed_in_ledgers < self.bounds.min_speed_ledgers || round_speed_in_ledgers
            > self.bounds.max_speed_ledgers {
            return Err(ArenaError::InvalidRoundSpeed);
        }
        if required_stake < MIN_REQUIRED_STAKE {
            return Err(ArenaError::InvalidAmount);
        }
        self.config = Some(ArenaConfig { round_speed_in_ledgers });
        self.required_stake = required_stake;
        self.round = Some(fresh_round());
        Ok(())
    }

    /// Records the admin; accepted once (a second call aborts).
    pub fn initialize(&mut self, admin: AccountId)
        requires
            old(self)@.admin is None,
        ensures
            final(self)@ == (ArenaModel { admin: Some(admin), ..old(self)@ }),
    {
        self.admin = Some(admin);
    }

    /// The admin (the call aborts before `initialize`).
    pub fn admin(&self) -> (a: AccountId)
        requires
            self@.admin is Some,
        ensures
            a == self@.admin.unwrap(),
    {
        self.admin.unwrap()
    }

    /// Whether `initialize` has recorded an admin.
    pub fn has_admin(&self) -> (r: bool)
        ensures
            r == self@.admin is Some,
    {
        self.admin.is_some()
    }

    /// Replaces the admin.
    pub fn set_admin(&mut self, new_admin: AccountId)
        requires
            old(self)@.admin is Some,
        ensures
            final(self)@ == (ArenaModel { admin: Some(new_admin), ..old(self)@ }),
    {
        self.admin = Some(new_admin);
    }

    /// Pauses the game functions.
    pub fn pause(&mut self)
        requires
            old(self)@.admin is Some,
        ensures
            final(self)@ == (ArenaModel { paused: true, ..old(self)@ }),
    {
        self.paused = true;
    }

    /// Resumes the game functions.
    pub fn unpause(&mut self)
        requires
            old(self)@.admin is Some,
        ensures
            final(self)@ == (ArenaModel { paused: false, ..old(self)@ }),
    {
        self.paused = false;
    }

    /// Whether the game functions are paused.
    pub fn is_paused(&self) -> (p: bool)
        ensures
            p == self@.paused,
    {
        self.paused
    }

    /// Sets the token stakes and the prize are paid in; refused once a player
    /// has joined. Allowed while paused.
    pub fn set_token(&mut self, token: AccountId) -> (r: Result<(), ArenaError>)
        requires
            old(self)@.admin is Some,
        ensures
            old(self)@.token_locked ==> r == Err::<(), ArenaError>(
                ArenaError::TokenConfigurationLocked,
            ) && final(self)@ == old(self)@,
            !old(self)@.token_locked ==> r == Ok::<(), ArenaError>(()) && final(self)@ == (
            ArenaModel { token: Some(token), ..old(self)@ }),
    {
        if self.token_locked {
            return Err(ArenaError::TokenConfigurationLocked);
        }
        self.token = Some(token);
        Ok(())
    }

    /// Sets how many players may be in the game: at least the minimum number
    /// of participants and at most the participant cap.
    pub fn set_capacity(&mut self, capacity: u32) -> (r: Result<(), ArenaError>)
        requires
            old(self)@.admin is Some,
        ensures
            match capacity_rejection(old(self)@, capacity) {
                Some(e) => r == Err::<(), ArenaError>(e) && final(self)@ == old(self)@,
                None => r == Ok::<(), ArenaError>(()) && final(self)@ == (ArenaModel {
                    capacity,
                    ..old(self)@
                }),
            },
    {
        if capacity < MIN_ARENA_PARTICIPANTS || capacity > self.bounds.max_participants {
            return Err(ArenaError::InvalidCapacity);
        }
        self.capacity = capacity;
        Ok(())
    }

    /// Designates `player`, who must still be in the game, as the winner and
    /// adds `stake + yield_comp` to the prize pool; only one winner is ever
    /// designated.
    pub fn set_winner(&mut self, player: AccountId, stake: i128, yield_comp: i128) -> (r: Result<
        (),
        ArenaError,
    >)
        requires
            old(self)@.paused || old(self)@.admin is Some,
        ensures
            match set_winner_rejection(old(self)@, player, stake, yield_comp) {
                Some(e) => r == Err::<(), ArenaError>(e) && final(self)@ == old(self)@,
                None => r == Ok::<(), ArenaError>(()) && final(self)@ == after_set_winner(
                    old(self)@,
                    player,
                    stake,
                    yield_comp,
                ),
            },
            arena_invariant(old(self)@) ==> arena_invariant(final(self)@),
    {
        if self.paused {
            return Err(ArenaError::Paused);
        }
        if stake < 0 || yield_comp < 0 {
            return Err(ArenaError::InvalidAmount);
        }
        if !holds(&self.survivors, player) {
            return Err(ArenaError::NotASurvivor);
        }
        if self.winner.is_some() {
            return Err(ArenaError::WinnerAlreadySet);
        }
        let prize = match stake.checked_add(yield_comp) {
            Some(p) => p,
            None => return Err(ArenaError::InvalidAmount),
        };
        let pool = match self.prize_pool.checked_add(prize) {
            Some(p) => p,
            None => return Err(ArenaError::InvalidAmount),
        };
        self.winner = Some(player);
        self.prize_pool = pool;
        Ok(())
    }

    fn join_check(&self, player: AccountId, amount: i128) -> (r: Option<ArenaError>)
        ensures
            r == join_rejection(self@, player, amount),
    {
        if self.paused {
            return Some(ArenaError::Paused);
        }
        if self.config.is_none() {
            return Some(ArenaError::NotInitialized);
        }
        if self.game_finished {
            return Some(ArenaError::GameAlreadyFinished);
        }
        if amount != self.required_stake {
            return Some(ArenaError::InvalidAmount);
        }
        if holds(&self.survivors, player) || holds(&self.eliminated, player) {
            return Some(ArenaError::AlreadyJoined);
        }
        let effective_cap = if self.capacity == 0 || self.capacity > self.bounds.max_participants {
            self.bounds.max_participants
        } else {
            self.capacity
        };
        if self.survivors.len() >= effective_cap as usize {
            return Some(ArenaError::ArenaFull);
        }
        if self.token.is_none() {
            return Some(ArenaError::TokenNotSet);
        }
        None
    }

    /// Adds `player`, who pays the required stake into the prize pool; the
    /// stake moves from the player to the arena outside this call. The first
    /// join locks the token.
    pub fn join(&mut self, player: AccountId, amount: i128) -> (r: Result<(), ArenaError>)
        requires
            !join_overflows(old(self)@, player, amount),
        ensures
            match join_rejection(old(self)@, player, amount) {
                Some(e) => r == Err::<(), ArenaError>(e) && final(self)@ == old(self)@,
                None => r == Ok::<(), ArenaError>(()) && final(self)@ == after_join(
                    old(self)@,
                    player,
                    amount,
                ),
            },
            arena_invariant(old(self)@) ==> arena_invariant(final(self)@),
    {
        match self.join_check(player, amount) {
            Some(e) => return Err(e),
            None => {},
        }
        self.survivors.push(player);
        self.prize_pool = self.prize_pool + amount;
        self.token_locked = true;
        Ok(())
    }

    /// `join`, or `None` (nothing changed) where `join` would overflow the
    /// prize pool and abort.
    pub fn checked_join(&mut self, player: AccountId, amount: i128) -> (r: Option<
        Result<(), ArenaError>,
    >)
        ensures
            join_overflows(old(self)@, player, amount) ==> r is None && final(self)@ == old(self)@,
            !join_overflows(old(self)@, player, amount) ==> (r matches Some(res) && match join_rejection(
                old(self)@,
                player,
                amount,
            ) {
                Some(e) => res == Err::<(), ArenaError>(e) && final(self)@ == old(self)@,
                None => res == Ok::<(), ArenaError>(()) && final(self)@ == after_join(
                    old(self)@,
                    player,
                    amount,
                ),
            }),
    {
        if self.join_check(player, amount).is_none() && self.prize_pool.checked_add(amount).is_none() {
            return None;
        }
        Some(self.join(player, amount))
    }

    /// Opens the next round at `ledger_sequence`, with its deadline one round
    /// speed later; needs at least two players in the game.
    pub fn start_round(&mut self, ledger_sequence: u32) -> (r: Result<RoundState, ArenaError>)
        requires
            !start_round_overflows(old(self)@, ledger_sequence),
        ensures
            match start_round_rejection(old(self)@, ledger_sequence) {
                Some(e) => r == Err::<RoundState, ArenaError>(e) && final(self)@ == old(self)@,
                None => r == Ok::<RoundState, ArenaError>(next_round(old(self)@, ledger_sequence))
                    && final(self)@ == after_start_round(old(self)@, ledger_sequence),
            },
            arena_invariant(old(self)@) ==> arena_invariant(final(self)@),
    {
        match self.start_round_check(ledger_sequence) {
            Some(e) => return Err(e),
            None => {},
        }
        let config = self.config.unwrap();
        let previous_round = self.round.unwrap();
        let next = RoundState {
            round_number: previous_round.round_number + 1,
            round_start_ledger: ledger_sequence,
            round_deadline_ledger: ledger_sequence + config.round_speed_in_ledgers,
            active: true,
            total_submissions: 0,
            timed_out: false,
            finished: false,
        };
        self.round = Some(next);
        Ok(next)
    }

    fn start_round_check(&self, ledger_sequence: u32) -> (r: Option<ArenaError>)
        ensures
            r == start_round_rejection(self@, ledger_sequence),
    {
        if self.paused {
            return Some(ArenaError::Paused);
        }
        let config = match self.config {
            Some(c) => c,
            None => return Some(ArenaError::NotInitialized),
        };
        let previous_round = match self.round {
            Some(r) => r,
            None => return Some(ArenaError::NotInitialized),
        };
        if self.game_finished {
            return Some(ArenaError::GameAlreadyFinished);
        }
        if previous_round.active {
            return Some(ArenaError::RoundAlreadyActive);
        }
        if self.survivors.len() < MIN_ARENA_PARTICIPANTS as usize {
            return Some(ArenaError::NotEnoughPlayers);
        }
        if ledger_sequence.checked_add(config.round_speed_in_ledgers).is_none() {
            return Some(ArenaError::RoundDeadlineOverflow);
        }
        None
    }

    /// `start_round`, or `None` (nothing changed) where `start_round` would
    /// overflow the round number and abort.
    pub fn checked_start_round(&mut self, ledger_sequence: u32) -> (r: Option<
        Result<RoundState, ArenaError>,
    >)
        ensures
            start_round_overflows(old(self)@, ledger_sequence) ==> r is None && final(self)@ == old(
                self,
            )@,
            !start_round_overflows(old(self)@, ledger_sequence) ==> (r matches Some(res) && match start_round_rejection(
                old(self)@,
                ledger_sequence,
            ) {
                Some(e) => res == Err::<RoundState, ArenaError>(e) && final(self)@ == old(self)@,
                None => res == Ok::<RoundState, ArenaError>(next_round(old(self)@, ledger_sequence))
                    && final(self)@ == after_start_round(old(self)@, ledger_sequence),
            }),
    {
        if self.start_round_check(ledger_sequence).is_none() {
            match self.round {
                Some(r) => {
                    if r.round_number == u32::MAX {
                        return None;
                    }
                },
                None => {},
            }
        }
        Some(self.start_round(ledger_sequence))
    }

    /// Records `player`'s choice for the active round at `ledger_sequence`
    /// (accepted up to and including the deadline ledger), once per player
    /// and round, from players still in the game.
    pub fn submit_choice(
        &mut self,
        player: AccountId,
        round_number: u32,
        choice: Choice,
        ledger_sequence: u32,
    ) -> (r: Result<(), ArenaError>)
        ensures
            match submit_rejection(old(self)@, player, round_number, ledger_sequence) {
                Some(e) => r == Err::<(), ArenaError>(e) && final(self)@ == old(self)@,
                None => r == Ok::<(), ArenaError>(()) && final(self)@ == after_submit(
                    old(self)@,
                    player,
                    round_number,
                    choice,
                ),
            },
            arena_invariant(old(self)@) ==> arena_invariant(final(self)@),
    {
        if self.paused {
            return Err(ArenaError::Paused);
        }
        let mut round = match self.round {
            Some(r) => r,
            None => return Err(ArenaError::NotInitialized),
        };
        if !round.active {
            return Err(ArenaError::NoActiveRound);
        }
        if round_number != round.round_number {
            return Err(ArenaError::WrongRoundNumber);
        }
        if ledger_sequence > round.round_deadline_ledger {
            return Err(ArenaError::SubmissionWindowClosed);
        }
        if !holds(&self.survivors, player) {
            if holds(&self.eliminated, player) {
                return Err(ArenaError::PlayerEliminated);
            }
            return Err(ArenaError::NotASurvivor);
        }
        let key = SubmissionKey { round_number: round.round_number, player };
        if self.submissions.contains_key(key) {
            return Err(ArenaError::SubmissionAlreadyExists);
        }
        if round.total_submissions >= self.bounds.max_submissions_per_round {
            return Err(ArenaError::MaxSubmissionsPerRound);
        }
        self.submissions.insert(key, choice);
        round.total_submissions = round.total_submissions + 1;
        self.round = Some(round);
        Ok(())
    }

    /// Closes the active round without resolving it, once the ledger is past
    /// its deadline.
    pub fn timeout_round(&mut self, ledger_sequence: u32) -> (r: Result<RoundState, ArenaError>)
        ensures
            match timeout_rejection(old(self)@, ledger_sequence) {
                Some(e) => r == Err::<RoundState, ArenaError>(e) && final(self)@ == old(self)@,
                None => r == Ok::<RoundState, ArenaError>(
                    timed_out_round(old(self)@.round.unwrap()),
                ) && final(self)@ == after_timeout(old(self)@),
            },
            arena_invariant(old(self)@) ==> arena_invariant(final(self)@),
    {
        if self.paused {
            return Err(ArenaError::Paused);
        }
        let mut round = match self.round {
            Some(r) => r,
            None => return Err(ArenaError::NotInitialized),
        };
        if !round.active {
            return Err(ArenaError::NoActiveRound);
        }
        if ledger_sequence <= round.round_deadline_ledger {
            return Err(ArenaError::RoundStillOpen);
        }
        round.active = false;
        round.timed_out = true;
        self.round = Some(round);
        Ok(round)
    }

    /// Resolves the active round once the ledger is past its deadline: the
    /// players on the side fewer survivors chose stay in the game and all
    /// others are eliminated; a tie is broken by `random` (Heads when even);
    /// a side nobody chose loses, and a round nobody played eliminates
    /// nobody. The round is closed, and the game finishes when at most one
    /// survivor is left.
    pub fn resolve_round(&mut self, ledger_sequence: u32, random: u64) -> (r: Result<
        RoundState,
        ArenaError,
    >)
        ensures
            match resolve_rejection(old(self)@, ledger_sequence) {
                Some(e) => r == Err::<RoundState, ArenaError>(e) && final(self)@ == old(self)@,
                None => r == Ok::<RoundState, ArenaError>(resolved_round(old(self)@, random))
                    && final(self)@ == after_resolve(old(self)@, random),
            },
            arena_invariant(old(self)@) ==> arena_invariant(final(self)@),
    {
        if self.paused {
            return Err(ArenaError::Paused);
        }
        let round = match self.round {
            Some(r) => r,
            None => return Err(ArenaError::NotInitialized),
        };
        if !round.active {
            return Err(ArenaError::NoActiveRound);
        }
        if ledger_sequence <= round.round_deadline_ledger {
            return Err(ArenaError::RoundStillOpen);
        }
        let ghost m = self@;
        let number = round.round_number;
        let mut heads: usize = 0;
        let mut tails: usize = 0;
        let mut i: usize = 0;
        while i < self.survivors.len()
            invariant
                self@ == m,
                m.round == Some(round),
                number == round.round_number,
                i <= m.survivors.len(),
                heads == m.survivors.take(i as int).filter(picked(m, Choice::Heads)).len(),
                tails == m.survivors.take(i as int).filter(picked(m, Choice::Tails)).len(),
            decreases m.survivors.len() - i,
        {
            let ghost s = m.survivors;
            proof {
                assert(s.take(i + 1).drop_last() =~= s.take(i as int));
                assert(s.take(i + 1).last() == s[i as int]);
                reveal(Seq::filter);
                s.take(i as int).lemma_filter_len(picked(m, Choice::Heads));
                s.take(i as int).lemma_filter_len(picked(m, Choice::Tails));
            }
            match self.submissions.get(SubmissionKey { round_number: number, player: self.survivors[i] }) {
                Some(Choice::Heads) => {
                    heads = heads + 1;
                },
                Some(Choice::Tails) => {
                    tails = tails + 1;
                },
                None => {},
            }
            i = i + 1;
        }
        proof {
            assert(m.survivors.take(m.survivors.len() as int) =~= m.survivors);
        }
        let side = if heads == 0 && tails == 0 {
            None
        } else if heads == 0 {
            Some(Choice::Tails)
        } else if tails == 0 {
            Some(Choice::Heads)
        } else if heads < tails {
            Some(Choice::Heads)
        } else if tails < heads {
            Some(Choice::Tails)
        } else if random % 2 == 0 {
            Some(Choice::Heads)
        } else {
            Some(Choice::Tails)
        };
        assert(side == round_winner(m, random));
        match side {
            Some(c) => {
                let mut kept: Vec<AccountId> = Vec::new();
                let mut out: Vec<AccountId> = Vec::new();
                std::mem::swap(&mut out, &mut self.eliminated);
                let mut j: usize = 0;
                while j < self.survivors.len()
                    invariant
                        self.survivors@ == m.survivors,
                        self.submissions@ == m.submissions,
                        m.round == Some(round),
                        number == round.round_number,
                        j <= m.survivors.len(),
                        kept@ == m.survivors.take(j as int).filter(picked(m, c)),
                        out@ == m.eliminated + m.survivors.take(j as int).filter(not_picked(m, c)),
                    decreases m.survivors.len() - j,
                {
                    let ghost s = m.survivors;
                    proof {
                        assert(s.take(j + 1).drop_last() =~= s.take(j as int));
                        assert(s.take(j + 1).last() == s[j as int]);
                        reveal(Seq::filter);
                    }
                    let player = self.survivors[j];
                    let chosen = self.submissions.get(SubmissionKey { round_number: number, player });
                    if chosen == Some(c) {
                        kept.push(player);
                    } else {
                        out.push(player);
                        proof {
                            assert((m.eliminated + s.take(j as int).filter(not_picked(m, c))).push(
                                player,
                            ) =~= m.eliminated + s.take(j as int).filter(not_picked(m, c)).push(
                                player,
                            ));
                        }
                    }
                    j = j + 1;
                }
                proof {
                    assert(m.survivors.take(m.survivors.len() as int) =~= m.survivors);
                    m.survivors.lemma_filter_len(picked(m, c));
                }
                self.survivors = kept;
                self.eliminated = out;
            },
            None => {},
        }
        let finished = self.survivors.len() <= 1;
        let resolved = RoundState { active: false, finished, ..round };
        self.round = Some(resolved);
        self.game_finished = self.game_finished || finished;
        Ok(resolved)
    }

    /// Pays the whole prize pool to `winner`, who must be the player entitled
    /// to it in a finished game: records the prize, empties the pool, takes
    /// the claim lock and finishes the round. The prize then moves from the
    /// arena to the winner in the arena's token, after which `finish_claim`
    /// releases the lock.
    pub fn claim(&mut self, winner: AccountId) -> (r: Result<i128, ArenaError>)
        ensures
            match claim_rejection(old(self)@, winner) {
                Some(e) => r == Err::<i128, ArenaError>(e) && final(self)@ == old(self)@,
                None => r == Ok::<i128, ArenaError>(old(self)@.prize_pool) && final(self)@
                    == after_claim(old(self)@, winner),
            },
            arena_invariant(old(self)@) ==> arena_invariant(final(self)@),
    {
        if self.paused {
            return Err(ArenaError::Paused);
        }
        if self.claim_locked {
            return Err(ArenaError::ReentrancyGuard);
        }
        if !self.game_finished {
            return Err(ArenaError::GameNotFinished);
        }
        let entitled = match self.winner {
            Some(w) => w,
            None => {
                if self.survivors.len() == 1 {
                    self.survivors[0]
                } else {
                    return Err(ArenaError::WinnerNotSet);
                }
            },
        };
        if entitled != winner {
            return Err(ArenaError::NotASurvivor);
        }
        if self.prize_claimed.contains_key(winner) {
            return Err(ArenaError::AlreadyClaimed);
        }
        let prize = self.prize_pool;
        if prize <= 0 {
            return Err(ArenaError::NoPrizeToClaim);
        }
        if self.token.is_none() {
            return Err(ArenaError::TokenNotSet);
        }
        self.claim_locked = true;
        self.prize_claimed.insert(winner, prize);
        self.prize_pool = 0;
        self.game_finished = true;
        self.round = match self.round {
            Some(r) => Some(RoundState { finished: true, ..r }),
            None => None,
        };
        Ok(prize)
    }

    /// Releases the claim lock once the prize transfer is done.
    pub fn finish_claim(&mut self)
        ensures
            final(self)@ == (ArenaModel { claim_locked: false, ..old(self)@ }),
    {
        self.claim_locked = false;
    }

    /// The configuration, once `init` has run.
    pub fn get_config(&self) -> (r: Result<ArenaConfig, ArenaError>)
        ensures
            r == match self@.config {
                Some(c) => Ok::<ArenaConfig, ArenaError>(c),
                None => Err(ArenaError::NotInitialized),
            },
    {
        match self.config {
            Some(c) => Ok(c),
            None => Err(ArenaError::NotInitialized),
        }
    }

    /// The current (or last) round, once `init` has run.
    pub fn get_round(&self) -> (r: Result<RoundState, ArenaError>)
        ensures
            r == match self@.round {
                Some(s) => Ok::<RoundState, ArenaError>(s),
                None => Err(ArenaError::NotInitialized),
            },
    {
        match self.round {
            Some(s) => Ok(s),
            None => Err(ArenaError::NotInitialized),
        }
    }

    /// The choice `player` recorded for round `round_number`, if any.
    pub fn get_choice(&self, round_number: u32, player: AccountId) -> (r: Option<Choice>)
        ensures
            r == lookup(self@.submissions, SubmissionKey { round_number, player }),
    {
        self.submissions.get(SubmissionKey { round_number, player })
    }

    /// Survivor count, capacity, round number and prize pool (zeros on a
    /// fresh arena).
    pub fn get_arena_state(&self) -> (r: Result<ArenaStateView, ArenaError>)
        ensures
            r == Ok::<ArenaStateView, ArenaError>(arena_state_of(self@)),
    {
        let round_number = match self.round {
            Some(r) => r.round_number,
            None => 0,
        };
        Ok(
            ArenaStateView {
                survivors_count: self.survivors.len() as u32,
                max_capacity: self.capacity,
                round_number,
                current_stake: self.prize_pool,
                potential_payout: self.prize_pool,
            },
        )
    }

    /// Whether `player` is in the game and whether they are the designated
    /// winner or were paid.
    pub fn get_user_state(&self, player: AccountId) -> (r: UserStateView)
        ensures
            r == user_state_of(self@, player),
    {
        let is_active = holds(&self.survivors, player);
        let has_won = self.winner == Some(player) || self.prize_claimed.contains_key(player);
        UserStateView { is_active, has_won }
    }

    /// `get_arena_state` and `get_user_state` in one view, once `init` has run.
    pub fn get_full_state(&self, player: AccountId) -> (r: Result<FullStateView, ArenaError>)
        ensures
            self@.config is None ==> r == Err::<FullStateView, ArenaError>(
                ArenaError::NotInitialized,
            ),
            self@.config is Some ==> r == Ok::<FullStateView, ArenaError>(
                FullStateView {
                    survivors_count: arena_state_of(self@).survivors_count,
                    max_capacity: arena_state_of(self@).max_capacity,
                    round_number: arena_state_of(self@).round_number,
                    current_stake: arena_state_of(self@).current_stake,
                    potential_payout: arena_state_of(self@).potential_payout,
                    is_active: user_state_of(self@, player).is_active,
                    has_won: user_state_of(self@, player).has_won,
                },
            ),
    {
        if self.config.is_none() {
            return Err(ArenaError::NotInitialized);
        }
        let arena_state = match self.get_arena_state() {
            Ok(s) => s,
            Err(e) => return Err(e),
        };
        let user_state = self.get_user_state(player);
        Ok(
            FullStateView {
                survivors_count: arena_state.survivors_count,
                max_capacity: arena_state.max_capacity,
                round_number: arena_state.round_number,
                current_stake: arena_state.current_stake,
                potential_payout: arena_state.potential_payout,
                is_active: user_state.is_active,
                has_won: user_state.has_won,
            },
        )
    }

    /// Proposes new code, installable 48 hours after `now`; refused while
    /// another proposal is pending. Allowed while paused.
    pub fn propose_upgrade(&mut self, new_wasm_hash: WasmHash, now: u64) -> (r: Result<
        (),
        ArenaError,
    >)
        requires
            old(self)@.admin is Some,
            old(self)@.pending_upgrade is None ==> now + TIMELOCK_PERIOD <= u64::MAX,
        ensures
            old(self)@.pending_upgrade is Some ==> r == Err::<(), ArenaError>(
                ArenaError::UpgradeAlreadyPending,
            ) && final(self)@ == old(self)@,
            old(self)@.pending_upgrade is None ==> r == Ok::<(), ArenaError>(()) && final(self)@
                == (ArenaModel {
                pending_upgrade: Some((new_wasm_hash, (now + TIMELOCK_PERIOD) as u64)),
                ..old(self)@
            }),
    {
        if self.pending_upgrade.is_some() {
            return Err(ArenaError::UpgradeAlreadyPending);
        }
        let execute_after = now + TIMELOCK_PERIOD;
        self.pending_upgrade = Some((new_wasm_hash, execute_after));
        Ok(())
    }

    /// Clears the pending proposal once its timelock has expired at `now`;
    /// the code is then replaced outside this call. Allowed while paused.
    pub fn execute_upgrade(&mut self, now: u64) -> (r: Result<(), ArenaError>)
        requires
            old(self)@.admin is Some,
        ensures
            match execute_rejection(old(self)@, now) {
                Some(e) => r == Err::<(), ArenaError>(e) && final(self)@ == old(self)@,
                None => r == Ok::<(), ArenaError>(()) && final(self)@ == (ArenaModel {
                    pending_upgrade: None,
                    ..old(self)@
                }),
            },
    {
        match self.pending_upgrade {
            None => Err(ArenaError::NoPendingUpgrade),
            Some((_, execute_after)) => {
                if now < execute_after {
                    return Err(ArenaError::TimelockNotExpired);
                }
                self.pending_upgrade = None;
                Ok(())
            },
        }
    }

    /// Withdraws the pending proposal. Allowed while paused.
    pub fn cancel_upgrade(&mut self) -> (r: Result<(), ArenaError>)
        requires
            old(self)@.admin is Some,
        ensures
            old(self)@.pending_upgrade is None ==> r == Err::<(), ArenaError>(
                ArenaError::NoPendingUpgrade,
            ) && final(self)@ == old(self)@,
            old(self)@.pending_upgrade is Some ==> r == Ok::<(), ArenaError>(()) && final(self)@
                == (ArenaModel { pending_upgrade: None, ..old(self)@ }),
    {
        if self.pending_upgrade.is_none() {
            return Err(ArenaError::NoPendingUpgrade);
        }
        self.pending_upgrade = None;
        Ok(())
    }

    /// The pending code hash and the earliest time it may be installed.
    pub fn pending_upgrade(&self) -> (r: Option<(WasmHash, u64)>)
        ensures
            r == self@.pending_upgrade,
    {
        self.pending_upgrade
    }

    /// The token stakes and the prize are paid in, if set.
    pub fn token(&self) -> (r: Option<AccountId>)
        ensures
            r == self@.token,
    {
        self.token
    }

    /// The stake every player pays to join (0 before `init`).
    pub fn required_stake(&self) -> (r: i128)
        ensures
            r == self@.required_stake,
    {
        self.required_stake
    }
}

} // verus!
