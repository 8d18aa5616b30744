use vstd::prelude::*;

use crate::game::{Game, GameState, MyError, Vault};
use crate::key::Key;
use crate::ops::{
    claim_back_outcome, close_out_outcome, init_game_outcome, join_game_outcome, past_deadline,
    ClaimBack, InitGame, JoinGame, DURATION,
};

verus! {

/// Creating a game with a stake the creator can pay leaves it awaiting, with
/// its deadline `DURATION` after its creation, and moves exactly the stake
/// from the creator to the vault.
pub proof fn create_opens_awaiting_game(c: InitGame, amount: u64)
    requires
        c.wf(),
        c.now <= i64::MAX - DURATION,
        amount > 0,
        c.user_lamports >= amount,
    ensures
        init_game_outcome(c, amount).0 is Ok,
        init_game_outcome(c, amount).1.game.state == GameState::Awaiting,
        init_game_outcome(c, amount).1.game.end_time == init_game_outcome(c, amount).1.game.created_at
            + DURATION,
        init_game_outcome(c, amount).1.game.amount == amount,
        init_game_outcome(c, amount).1.user_lamports == c.user_lamports - amount,
        init_game_outcome(c, amount).1.vault_lamports == c.vault_lamports + amount,
{
}

/// A party other than the owner who can pay the stake turns an awaiting
/// game active, resets its deadline to `DURATION` after the join, and moves
/// exactly the stake into the vault.
pub proof fn join_activates_game(c: JoinGame)
    requires
        c.wf(),
        c.now <= i64::MAX - DURATION,
        c.game.state is Awaiting,
        c.user@ != c.vault.owner@,
        c.user_lamports >= c.game.amount,
    ensures
        join_game_outcome(c).0 is Ok,
        join_game_outcome(c).1.game.state == GameState::Active,
        join_game_outcome(c).1.game.end_time == c.now + DURATION,
        join_game_outcome(c).1.game.amount == c.game.amount,
        join_game_outcome(c).1.user_lamports == c.user_lamports - c.game.amount,
        join_game_outcome(c).1.vault_lamports == c.vault_lamports + c.game.amount,
{
}

/// A game created into an empty vault and then joined holds twice the
/// stake.
pub proof fn create_then_join_holds_double_stake(ci: InitGame, amount: u64, cj: JoinGame)
    requires
        ci.wf(),
        ci.now <= i64::MAX - DURATION,
        ci.vault_lamports == 0,
        init_game_outcome(ci, amount).0 is Ok,
        cj.wf(),
        cj.now <= i64::MAX - DURATION,
        cj.vault == init_game_outcome(ci, amount).1.vault,
        cj.game == init_game_outcome(ci, amount).1.game,
        cj.vault_lamports == init_game_outcome(ci, amount).1.vault_lamports,
        cj.user@ != ci.user@,
        cj.user_lamports >= amount,
    ensures
        join_game_outcome(cj).0 is Ok,
        join_game_outcome(cj).1.vault_lamports == 2 * amount,
{
}

/// The owner can never join their own game, whatever their balance, and no
/// funds move.
pub proof fn owner_cannot_join(c: JoinGame)
    requires
        c.user@ == c.vault.owner@,
    ensures
        join_game_outcome(c) == (Err::<(), MyError>(MyError::AlreadyInGame), c),
{
}

/// A game that is not awaiting cannot be joined by a party that could
/// otherwise join.
pub proof fn only_awaiting_games_can_be_joined(c: JoinGame)
    requires
        !(c.game.state is Awaiting),
        c.user@ != c.vault.owner@,
        c.user_lamports >= c.game.amount,
    ensures
        join_game_outcome(c).0 == Err::<(), MyError>(MyError::InvalidGameState),
{
}

/// The owner of an awaiting game cannot take the stake back until its
/// deadline has passed.
pub proof fn reclaim_waits_for_deadline(c: ClaimBack)
    requires
        c.user@ == c.vault.owner@,
        c.game.state is Awaiting,
        c.now <= c.game.created_at + DURATION,
    ensures
        claim_back_outcome(c) == (Err::<(), MyError>(MyError::GameNotReadyToClose), c),
{
}

/// After the deadline the owner of an awaiting game gets the whole vault
/// back and the vault is closed; nothing else changes.
pub proof fn reclaim_after_deadline_returns_stake(c: ClaimBack)
    requires
        c.wf(),
        c.user@ == c.vault.owner@,
        c.game.state is Awaiting,
        c.now > c.game.created_at + DURATION,
    ensures
        claim_back_outcome(c).0 is Ok,
        claim_back_outcome(c).1.user_lamports == c.user_lamports + c.vault_lamports,
        claim_back_outcome(c).1.vault_lamports == 0,
        !claim_back_outcome(c).1.vault_open,
        claim_back_outcome(c).1.game == c.game,
        claim_back_outcome(c).1.vault == c.vault,
{
    assert(past_deadline(c));
}

/// Only the vault's owner can settle it; anyone else is refused and the
/// balances stay as they were.
pub proof fn close_out_needs_owner(c: ClaimBack)
    requires
        c.user@ != c.vault.owner@,
    ensures
        close_out_outcome(c) == (Err::<(), MyError>(MyError::NotTheOwner), c),
{
}

/// The vault's owner settles it whatever the game's state: the whole
/// balance goes to the owner and the vault is closed; the game is untouched.
pub proof fn close_out_by_owner_settles(c: ClaimBack)
    requires
        c.wf(),
        c.user@ == c.vault.owner@,
    ensures
        close_out_outcome(c).0 is Ok,
        close_out_outcome(c).1.user_lamports == c.user_lamports + c.vault_lamports,
        close_out_outcome(c).1.vault_lamports == 0,
        !close_out_outcome(c).1.vault_open,
        close_out_outcome(c).1.game == c.game,
{
}

/// A refused operation changes no record and no balance.
pub proof fn refusals_change_nothing(ci: InitGame, amount: u64, cj: JoinGame, cc: ClaimBack)
    ensures
        init_game_outcome(ci, amount).0 is Err ==> init_game_outcome(ci, amount).1 == ci,
        join_game_outcome(cj).0 is Err ==> join_game_outcome(cj).1 == cj,
        claim_back_outcome(cc).0 is Err ==> claim_back_outcome(cc).1 == cc,
        close_out_outcome(cc).0 is Err ==> close_out_outcome(cc).1 == cc,
{
}

/// The persisted records of one game: the game itself and its vault.
pub struct Records {
    pub game: Game,
    pub vault: Vault,
    pub vault_lamports: u64,
    pub vault_open: bool,
}

/// One call against a game's records, with who makes it, their balance and
/// the time.
pub enum Attempt {
    Create { user: Key, user_lamports: u64, vault_bump: u8, amount: u64, now: i64 },
    Join { user: Key, user_lamports: u64, now: i64 },
    Reclaim { user: Key, user_lamports: u64, now: i64 },
    CloseOut { user: Key, user_lamports: u64, now: i64 },
}

pub open spec fn init_context(
    r: Records,
    user: Key,
    user_lamports: u64,
    vault_bump: u8,
    now: i64,
) -> InitGame {
    InitGame {
        user,
        user_lamports,
        vault: r.vault,
        vault_lamports: r.vault_lamports,
        vault_bump,
        game: r.game,
        now,
    }
}

pub open spec fn records_of_init(c: InitGame, vault_open: bool) -> Records {
    Records { game: c.game, vault: c.vault, vault_lamports: c.vault_lamports, vault_open }
}

pub open spec fn join_context(r: Records, user: Key, user_lamports: u64, now: i64) -> JoinGame {
    JoinGame { user, user_lamports, vault: r.vault, vault_lamports: r.vault_lamports, game: r.game, now }
}

pub open spec fn claim_context(r: Records, user: Key, user_lamports: u64, now: i64) -> ClaimBack {
    ClaimBack {
        user,
        user_lamports,
        vault: r.vault,
        vault_lamports: r.vault_lamports,
        vault_open: r.vault_open,
        game: r.game,
        now,
    }
}

pub open spec fn records_of_join(c: JoinGame, vault_open: bool) -> Records {
    Records { game: c.game, vault: c.vault, vault_lamports: c.vault_lamports, vault_open }
}

pub open spec fn records_of_claim(c: ClaimBack) -> Records {
    Records { game: c.game, vault: c.vault, vault_lamports: c.vault_lamports, vault_open: c.vault_open }
}

/// Whether the call is refused, and the records after it.
pub open spec fn attempt(r: Records, a: Attempt) -> (bool, Records) {
    match a {
        Attempt::Create { user, user_lamports, vault_bump, amount, now } => {
            let out = init_game_outcome(init_context(r, user, user_lamports, vault_bump, now), amount);
            (out.0 is Err, records_of_init(out.1, r.vault_open))
        },
        Attempt::Join { user, user_lamports, now } => {
            let out = join_game_outcome(join_context(r, user, user_lamports, now));
            (out.0 is Err, records_of_join(out.1, r.vault_open))
        },
        Attempt::Reclaim { user, user_lamports, now } => {
            let out = claim_back_outcome(claim_context(r, user, user_lamports, now));
            (out.0 is Err, records_of_claim(out.1))
        },
        Attempt::CloseOut { user, user_lamports, now } => {
            let out = close_out_outcome(claim_context(r, user, user_lamports, now));
            (out.0 is Err, records_of_claim(out.1))
        },
    }
}

/// The records after the calls of `s`, one after another.
pub open spec fn run(r: Records, s: Seq<Attempt>) -> Records
    decreases s.len(),
{
    if s.len() == 0 {
        r
    } else {
        run(attempt(r, s[0]).1, s.drop_first())
    }
}

/// Every call of `s` is refused, each on the records the previous ones left.
pub open spec fn all_refused(r: Records, s: Seq<Attempt>) -> bool
    decreases s.len(),
{
    if s.len() == 0 {
        true
    } else {
        attempt(r, s[0]).0 && all_refused(attempt(r, s[0]).1, s.drop_first())
    }
}

/// A run of calls that are all refused leaves the game's state, its stake,
/// the vault's balance and every other field of the records as they were.
pub proof fn refused_calls_leave_records(r: Records, s: Seq<Attempt>)
    requires
        all_refused(r, s),
    ensures
        run(r, s) == r,
    decreases s.len(),
{
    if s.len() > 0 {
        assert(attempt(r, s[0]).1 == r);
        refused_calls_leave_records(r, s.drop_first());
    }
}

} // verus!
