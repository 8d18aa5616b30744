use vstd::prelude::*;

use crate::game::{Game, GameState, MyError, Vault};
use crate::key::Key;
use crate::vault::{drain, transfer};

verus! {

/// Seconds that a game stays open after it is created or joined.
pub const DURATION: i64 = 600;

/// What creating a game reads and writes: the creator's account, the
/// fresh vault and game records, and the clock.
#[derive(Clone, Copy, Debug, PartialEq, Eq)]
pub struct InitGame {
    pub user: Key,
    pub user_lamports: u64,
    pub vault: Vault,
    pub vault_lamports: u64,
    /// Discriminant found for the vault's derived address.
    pub vault_bump: u8,
    pub game: Game,
    pub now: i64,
}

/// What joining a game reads and writes.
#[derive(Clone, Copy, Debug, PartialEq, Eq)]
pub struct JoinGame {
    pub user: Key,
    pub user_lamports: u64,
    pub vault: Vault,
    pub vault_lamports: u64,
    pub game: Game,
    pub now: i64,
}

/// What taking a stake back out of a vault reads and writes.
#[derive(Clone, Copy, Debug, PartialEq, Eq)]
pub struct ClaimBack {
    pub user: Key,
    pub user_lamports: u64,
    pub vault: Vault,
    pub vault_lamports: u64,
    /// False once the vault's storage has been reclaimed.
    pub vault_open: bool,
    pub game: Game,
    pub now: i64,
}

impl InitGame {
    /// The two balances together fit in a `u64`, as all balances of the
    /// ledger do.
    pub open spec fn wf(self) -> bool {
        self.user_lamports + self.vault_lamports <= u64::MAX
    }
}

impl JoinGame {
    pub open spec fn wf(self) -> bool {
        self.user_lamports + self.vault_lamports <= u64::MAX
    }
}

impl ClaimBack {
    pub open spec fn wf(self) -> bool {
        self.user_lamports + self.vault_lamports <= u64::MAX
    }
}

/// Result and records after creating a game with stake `amount`.
pub open spec fn init_game_outcome(c: InitGame, amount: u64) -> (Result<(), MyError>, InitGame) {
    if c.user_lamports < amount {
        (Err(MyError::InsufficientFunds), c)
    } else {
        (
            Ok(()),
            InitGame {
                user_lamports: (c.user_lamports - amount) as u64,
                vault_lamports: (c.vault_lamports + amount) as u64,
                vault: Vault { owner: c.user, bump: c.vault_bump },
                game: Game {
                    owner: c.user,
                    state: GameState::Awaiting,
                    created_at: c.now,
                    end_time: (c.now + DURATION) as i64,
                    amount,
                    turn: c.game.turn,
                },
                ..c
            },
        )
    }
}

/// `c.user` passes every check of a join: not the owner, able to pay the
/// stake, and the game still awaiting.
pub open spec fn can_join(c: JoinGame) -> bool {
    c.user@ != c.vault.owner@ && c.user_lamports >= c.game.amount && c.game.state is Awaiting
}

/// Result and records after `c.user` asks to join the game.
pub open spec fn join_game_outcome(c: JoinGame) -> (Result<(), MyError>, JoinGame) {
    if c.user@ == c.vault.owner@ {
        (Err(MyError::AlreadyInGame), c)
    } else if c.user_lamports < c.game.amount {
        (Err(MyError::InsufficientFunds), c)
    } else if !(c.game.state is Awaiting) {
        (Err(MyError::InvalidGameState), c)
    } else {
        (
            Ok(()),
            JoinGame {
                user_lamports: (c.user_lamports - c.game.amount) as u64,
                vault_lamports: (c.vault_lamports + c.game.amount) as u64,
                game: Game {
                    state: GameState::Active,
                    end_time: (c.now + DURATION) as i64,
                    ..c.game
                },
                ..c
            },
        )
    }
}

/// The deadline of an unjoined game has passed.
pub open spec fn past_deadline(c: ClaimBack) -> bool {
    c.now > c.game.created_at + DURATION
}

/// Result and records after the owner asks for the stake back.
pub open spec fn claim_back_outcome(c: ClaimBack) -> (Result<(), MyError>, ClaimBack) {
    if c.user@ != c.vault.owner@ {
        (Err(MyError::NotTheOwner), c)
    } else if !(c.game.state is Awaiting) {
        (Err(MyError::GameStillRunning), c)
    } else if !past_deadline(c) {
        (Err(MyError::GameNotReadyToClose), c)
    } else {
        (
            Ok(()),
            ClaimBack {
                user_lamports: (c.user_lamports + c.vault_lamports) as u64,
                vault_lamports: 0,
                vault_open: false,
                ..c
            },
        )
    }
}

/// Result and records after `c.user` asks to drain the vault.
pub open spec fn close_out_outcome(c: ClaimBack) -> (Result<(), MyError>, ClaimBack) {
    if c.user@ != c.vault.owner@ {
        (Err(MyError::NotTheOwner), c)
    } else {
        (
            Ok(()),
            ClaimBack {
                user_lamports: (c.user_lamports + c.vault_lamports) as u64,
                vault_lamports: 0,
                vault_open: false,
                ..c
            },
        )
    }
}

/// Creates a game owned by `ctx.user` with stake `amount`, opens its vault
/// and moves the stake into it.
pub fn init_game(ctx: &mut InitGame, amount: u64) -> (r: Result<(), MyError>)
    requires
        old(ctx).wf(),
        old(ctx).now <= i64::MAX - DURATION,
    ensures
        (r, *final(ctx)) == init_game_outcome(*old(ctx), amount),
{
    if let Err(e) = transfer(&mut ctx.user_lamports, &mut ctx.vault_lamports, amount) {
        return Err(e);
    }
    ctx.game = Game {
        owner: ctx.user,
        state: GameState::Awaiting,
        created_at: ctx.now,
        end_time: ctx.now + DURATION,
        amount,
        turn: ctx.game.turn,
    };
    ctx.vault = Vault { owner: ctx.user, bump: ctx.vault_bump };
    Ok(())
}

/// `ctx.user` joins an awaiting game as its second party and matches the
/// stake.
pub fn join_game(ctx: &mut JoinGame) -> (r: Result<(), MyError>)
    requires
        old(ctx).wf(),
        can_join(*old(ctx)) ==> old(ctx).now <= i64::MAX - DURATION,
    ensures
        (r, *final(ctx)) == join_game_outcome(*old(ctx)),
{
    if ctx.user.same_as(&ctx.vault.owner) {
        return Err(MyError::AlreadyInGame);
    }
    if ctx.user_lamports < ctx.game.amount {
        return Err(MyError::InsufficientFunds);
    }
    if !ctx.game.state.is_awaiting() {
        return Err(MyError::InvalidGameState);
    }
    let amount = ctx.game.amount;
    if let Err(e) = transfer(&mut ctx.user_lamports, &mut ctx.vault_lamports, amount) {
        return Err(e);
    }
    ctx.game.state = GameState::Active;
    ctx.game.end_time = ctx.now + DURATION;
    Ok(())
}

/// The owner of an unjoined game whose deadline has passed takes the whole
/// vault back; the vault's storage is reclaimed.
pub fn claim_back(ctx: &mut ClaimBack) -> (r: Result<(), MyError>)
    requires
        old(ctx).wf(),
        old(ctx).vault_open,
    ensures
        (r, *final(ctx)) == claim_back_outcome(*old(ctx)),
{
    if !ctx.user.same_as(&ctx.vault.owner) {
        return Err(MyError::NotTheOwner);
    }
    if !ctx.game.state.is_awaiting() {
        return Err(MyError::GameStillRunning);
    }
    let ready = ctx.game.created_at <= i64::MAX - DURATION && ctx.now > ctx.game.created_at
        + DURATION;
    if !ready {
        return Err(MyError::GameNotReadyToClose);
    }
    drain(&mut ctx.vault_lamports, &mut ctx.user_lamports);
    ctx.vault_open = false;
    Ok(())
}

/// Settles the vault: its owner takes its whole balance, whatever state the
/// game is in, and the vault's storage is reclaimed.
pub fn test(ctx: &mut ClaimBack) -> (r: Result<(), MyError>)
    requires
        old(ctx).wf(),
        old(ctx).vault_open,
    ensures
        (r, *final(ctx)) == close_out_outcome(*old(ctx)),
{
    if !ctx.user.same_as(&ctx.vault.owner) {
        return Err(MyError::NotTheOwner);
    }
    drain(&mut ctx.vault_lamports, &mut ctx.user_lamports);
    ctx.vault_open = false;
    Ok(())
}

} // verus!
