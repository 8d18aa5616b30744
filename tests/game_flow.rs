use stake_game::ops::test as close_out;
use stake_game::{
    claim_back, init_game, join_game, ClaimBack, Game, GameState, InitGame, JoinGame, Key, MyError,
    Vault, DURATION,
};

fn key(b: u8) -> Key {
    Key::new([b; 32])
}

fn blank_game() -> Game {
    Game {
        owner: Key::new([0; 32]),
        state: GameState::Awaiting,
        created_at: 0,
        end_time: 0,
        amount: 0,
        turn: 0,
    }
}

fn blank_vault() -> Vault {
    Vault { owner: Key::new([0; 32]), bump: 0 }
}

fn create(owner: Key, lamports: u64, amount: u64, now: i64) -> (Result<(), MyError>, InitGame) {
    let mut ctx = InitGame {
        user: owner,
        user_lamports: lamports,
        vault: blank_vault(),
        vault_lamports: 0,
        vault_bump: 254,
        game: blank_game(),
        now,
    };
    let r = init_game(&mut ctx, amount);
    (r, ctx)
}

fn join_ctx(after: &InitGame, user: Key, lamports: u64, now: i64) -> JoinGame {
    JoinGame {
        user,
        user_lamports: lamports,
        vault: after.vault,
        vault_lamports: after.vault_lamports,
        game: after.game,
        now,
    }
}

fn claim_ctx(user: Key, vault: Vault, vault_lamports: u64, game: Game, now: i64) -> ClaimBack {
    ClaimBack { user, user_lamports: 5, vault, vault_lamports, vault_open: true, game, now }
}

#[test]
fn scenario_create_join_reclaim() {
    let a = key(1);
    let b = key(2);
    let (r, created) = create(a, 5000, 1000, 0);
    assert_eq!(r, Ok(()));
    assert_eq!(created.game.state, GameState::Awaiting);
    assert_eq!(created.game.end_time, 600);
    assert_eq!(created.vault_lamports, 1000);
    assert_eq!(created.user_lamports, 4000);

    let mut j = join_ctx(&created, b, 1500, 100);
    assert_eq!(join_game(&mut j), Ok(()));
    assert_eq!(j.game.state, GameState::Active);
    assert_eq!(j.game.end_time, 700);
    assert_eq!(j.vault_lamports, 2000);
    assert_eq!(j.user_lamports, 500);

    let mut c = claim_ctx(a, j.vault, j.vault_lamports, j.game, 50);
    let before = c;
    assert_eq!(claim_back(&mut c), Err(MyError::GameStillRunning));
    assert_eq!(c, before);
    assert_eq!(c.vault_lamports, 2000);
}

#[test]
fn create_records_owner_bump_and_times() {
    let a = key(7);
    let (r, c) = create(a, 100, 40, 1234);
    assert_eq!(r, Ok(()));
    assert_eq!(c.game.owner, a);
    assert_eq!(c.game.created_at, 1234);
    assert_eq!(c.game.end_time, 1234 + DURATION);
    assert_eq!(c.game.amount, 40);
    assert_eq!(c.vault.owner, a);
    assert_eq!(c.vault.bump, 254);
}

#[test]
fn create_with_whole_balance() {
    let (r, c) = create(key(3), 1000, 1000, 0);
    assert_eq!(r, Ok(()));
    assert_eq!(c.user_lamports, 0);
    assert_eq!(c.vault_lamports, 1000);
}

#[test]
fn create_zero_stake_is_accepted() {
    let (r, c) = create(key(3), 10, 0, 5);
    assert_eq!(r, Ok(()));
    assert_eq!(c.vault_lamports, 0);
    assert_eq!(c.user_lamports, 10);
    assert_eq!(c.game.state, GameState::Awaiting);
}

#[test]
fn create_without_funds_changes_nothing() {
    let mut ctx = InitGame {
        user: key(3),
        user_lamports: 999,
        vault: blank_vault(),
        vault_lamports: 0,
        vault_bump: 1,
        game: blank_game(),
        now: 10,
    };
    let before = ctx;
    assert_eq!(init_game(&mut ctx, 1000), Err(MyError::InsufficientFunds));
    assert_eq!(ctx, before);
}

#[test]
fn owner_joining_is_refused_even_when_rich() {
    let a = key(1);
    let (_, created) = create(a, 5000, 1000, 0);
    let mut j = join_ctx(&created, a, 1_000_000, 10);
    let before = j;
    assert_eq!(join_game(&mut j), Err(MyError::AlreadyInGame));
    assert_eq!(j, before);

    let mut poor = join_ctx(&created, a, 0, 10);
    assert_eq!(join_game(&mut poor), Err(MyError::AlreadyInGame));
}

#[test]
fn join_without_funds_is_refused() {
    let (_, created) = create(key(1), 5000, 1000, 0);
    let mut j = join_ctx(&created, key(2), 999, 10);
    let before = j;
    assert_eq!(join_game(&mut j), Err(MyError::InsufficientFunds));
    assert_eq!(j, before);
}

#[test]
fn join_of_active_game_is_refused() {
    let (_, created) = create(key(1), 5000, 1000, 0);
    let mut j = join_ctx(&created, key(2), 2000, 10);
    assert_eq!(join_game(&mut j), Ok(()));
    let mut again = JoinGame { user: key(3), user_lamports: 5000, ..j };
    let before = again;
    assert_eq!(join_game(&mut again), Err(MyError::InvalidGameState));
    assert_eq!(again, before);
}

#[test]
fn join_of_decided_games_is_refused() {
    let (_, created) = create(key(1), 5000, 1000, 0);
    let mut tie = join_ctx(&created, key(2), 2000, 10);
    tie.game.state = GameState::Tie;
    assert_eq!(join_game(&mut tie), Err(MyError::InvalidGameState));
    let mut won = join_ctx(&created, key(2), 2000, 10);
    won.game.state = GameState::Won { winner: key(1) };
    assert_eq!(join_game(&mut won), Err(MyError::InvalidGameState));
}

#[test]
fn keys_differing_in_last_byte_are_distinct() {
    let mut bytes = [9u8; 32];
    let a = Key::new(bytes);
    bytes[31] = 8;
    let b = Key::new(bytes);
    assert!(!a.same_as(&b));
    assert!(a.same_as(&Key::new([9u8; 32])));
    let (_, created) = create(a, 5000, 1000, 0);
    let mut j = join_ctx(&created, b, 1000, 1);
    assert_eq!(join_game(&mut j), Ok(()));
}

#[test]
fn reclaim_before_deadline_is_refused() {
    let a = key(1);
    let (_, created) = create(a, 5000, 1000, 0);
    for now in [0i64, 100, 599, 600] {
        let mut c = claim_ctx(a, created.vault, 1000, created.game, now);
        let before = c;
        assert_eq!(claim_back(&mut c), Err(MyError::GameNotReadyToClose));
        assert_eq!(c, before);
    }
}

#[test]
fn reclaim_after_deadline_returns_everything() {
    let a = key(1);
    let (_, created) = create(a, 5000, 1000, 0);
    let mut c = claim_ctx(a, created.vault, 1000, created.game, 601);
    assert_eq!(claim_back(&mut c), Ok(()));
    assert_eq!(c.user_lamports, 1005);
    assert_eq!(c.vault_lamports, 0);
    assert!(!c.vault_open);
    assert_eq!(c.game, created.game);
}

#[test]
fn reclaim_by_stranger_is_refused() {
    let (_, created) = create(key(1), 5000, 1000, 0);
    let mut c = claim_ctx(key(2), created.vault, 1000, created.game, 10_000);
    assert_eq!(claim_back(&mut c), Err(MyError::NotTheOwner));
    assert_eq!(c.vault_lamports, 1000);
}

#[test]
fn reclaim_near_largest_timestamp_is_not_ready() {
    let a = key(1);
    let mut game = blank_game();
    game.created_at = i64::MAX - 10;
    let mut c = claim_ctx(a, Vault { owner: a, bump: 0 }, 1000, game, i64::MAX);
    assert_eq!(claim_back(&mut c), Err(MyError::GameNotReadyToClose));
}

#[test]
fn close_out_by_stranger_is_refused() {
    let (_, created) = create(key(1), 5000, 1000, 0);
    let mut c = claim_ctx(key(2), created.vault, 1000, created.game, 10);
    let before = c;
    assert_eq!(close_out(&mut c), Err(MyError::NotTheOwner));
    assert_eq!(c, before);
}

#[test]
fn close_out_by_owner_drains_active_game() {
    let a = key(1);
    let (_, created) = create(a, 5000, 1000, 0);
    let mut j = join_ctx(&created, key(2), 1000, 5);
    assert_eq!(join_game(&mut j), Ok(()));
    let mut c = claim_ctx(a, j.vault, j.vault_lamports, j.game, 6);
    assert_eq!(close_out(&mut c), Ok(()));
    assert_eq!(c.vault_lamports, 0);
    assert_eq!(c.user_lamports, 2005);
    assert!(!c.vault_open);
    assert_eq!(c.game, j.game);
}

#[test]
fn awaiting_test_of_states() {
    assert!(GameState::Awaiting.is_awaiting());
    assert!(!GameState::Active.is_awaiting());
    assert!(!GameState::Tie.is_awaiting());
    assert!(!GameState::Won { winner: key(4) }.is_awaiting());
}

#[test]
fn transfer_is_all_or_nothing() {
    let mut from: u64 = 10;
    let mut to: u64 = 3;
    assert_eq!(stake_game::vault::transfer(&mut from, &mut to, 11), Err(MyError::InsufficientFunds));
    assert_eq!((from, to), (10, 3));
    assert_eq!(stake_game::vault::transfer(&mut from, &mut to, 10), Ok(()));
    assert_eq!((from, to), (0, 13));
}

#[test]
fn drain_moves_whole_balance() {
    let mut from: u64 = 7;
    let mut to: u64 = u64::MAX - 7;
    stake_game::vault::drain(&mut from, &mut to);
    assert_eq!((from, to), (0, u64::MAX));
}

#[test]
fn state_labels() {
    assert_eq!(GameState::Awaiting.to_string(), "Waiting");
    assert_eq!(GameState::Active.to_string(), "In Progress");
    assert_eq!(GameState::Tie.to_string(), "Completed");
}

#[test]
fn won_label_writes_winner_in_base58() {
    let zero = GameState::Won { winner: Key::new([0; 32]) };
    assert_eq!(zero.to_string(), "Won by 11111111111111111111111111111111");
    let text = GameState::Won { winner: key(1) }.to_string();
    assert!(text.starts_with("Won by "));
    assert_eq!(text, "Won by 4vJ9JU1bJJE96FWSJKvHsmmFADCg4gpZQff4P3bkLKi");
    assert_eq!(stake_game::game::won_by("abc"), "Won by abc");
}

#[test]
fn refused_joins_at_latest_time_change_nothing() {
    let a = key(1);
    let (_, created) = create(a, 5000, 1000, 0);
    let mut own = join_ctx(&created, a, 5000, i64::MAX);
    let before = own;
    assert_eq!(join_game(&mut own), Err(MyError::AlreadyInGame));
    assert_eq!(own, before);

    let mut poor = join_ctx(&created, key(2), 10, i64::MAX);
    let before = poor;
    assert_eq!(join_game(&mut poor), Err(MyError::InsufficientFunds));
    assert_eq!(poor, before);

    let mut late = join_ctx(&created, key(2), 5000, i64::MAX);
    late.game.state = GameState::Active;
    let before = late;
    assert_eq!(join_game(&mut late), Err(MyError::InvalidGameState));
    assert_eq!(late, before);
}

#[test]
fn join_at_last_representable_deadline() {
    let (_, created) = create(key(1), 5000, 1000, 0);
    let mut j = join_ctx(&created, key(2), 1000, i64::MAX - DURATION);
    assert_eq!(join_game(&mut j), Ok(()));
    assert_eq!(j.game.end_time, i64::MAX);
}
