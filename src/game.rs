use vstd::prelude::*;

use crate::key::Key;
use vstd::string::*;

verus! {

/// The base58 text of a 32-byte identity.
pub uninterp spec fn base58_of(bytes: Seq<u8>) -> Seq<char>;

/// Relies on the `Display` of anchor_lang's `Pubkey`, which writes the key's
/// bytes in base58.
#[verifier::external_body]
fn base58(k: &Key) -> (r: String)
    ensures
        r@ == base58_of(k@),
{
    anchor_lang::prelude::Pubkey::new_from_array(k.bytes).to_string()
}

/// The text that describes a game state, given the text of its winner.
pub open spec fn label_of(s: GameState, winner_text: Seq<char>) -> Seq<char> {
    match s {
        GameState::Awaiting => "Waiting"@,
        GameState::Active => "In Progress"@,
        GameState::Tie => "Completed"@,
        GameState::Won { .. } => "Won by "@ + winner_text,
    }
}

/// The text of a won game, from the winner's text.
pub fn won_by(winner_text: &str) -> (r: String)
    ensures
        r@ == "Won by "@ + winner_text@,
{
    String::from_str("Won by ").concat(winner_text)
}

/// Where a game stands: open for a second player, running, or decided.
#[derive(Clone, Copy, Debug, PartialEq, Eq)]
pub enum GameState {
    Awaiting,
    Active,
    Tie,
    Won { winner: Key },
}

impl GameState {
    pub fn is_awaiting(&self) -> (r: bool)
        ensures
            r == (*self is Awaiting),
    {
        match self {
            GameState::Awaiting => true,
            _ => false,
        }
    }

    /// The state as text; a winner is written in base58.
    pub fn to_string(&self) -> (r: String)
        ensures
            match *self {
                GameState::Won { winner } => r@ == label_of(*self, base58_of(winner@)),
                _ => r@ == label_of(*self, Seq::empty()),
            },
    {
        match self {
            GameState::Awaiting => String::from_str("Waiting"),
            GameState::Active => String::from_str("In Progress"),
            GameState::Tie => String::from_str("Completed"),
            GameState::Won { winner } => {
                let text = base58(winner);
                won_by(text.as_str())
            },
        }
    }
}

/// The record that custodies the stakes of one game.
#[derive(Clone, Copy, Debug, PartialEq, Eq)]
pub struct Vault {
    /// The identity entitled to take back what the vault holds.
    pub owner: Key,
    /// Discriminant that derives the vault's address from its owner.
    pub bump: u8,
}

/// One match between the owner and a second player.
#[derive(Clone, Copy, Debug, PartialEq, Eq)]
pub struct Game {
    pub owner: Key,
    pub state: GameState,
    pub created_at: i64,
    pub end_time: i64,
    /// Stake that each party puts in; fixed when the game is created.
    pub amount: u64,
    /// Reserved for per-turn play; no operation changes it.
    pub turn: u8,
}

/// Why an operation was refused. A refused operation changes nothing.
#[derive(Clone, Copy, Debug, PartialEq, Eq)]
pub enum MyError {
    NotTheOwner,
    InvalidGameState,
    AlreadyInGame,
    InsufficientFunds,
    GameStillRunning,
    GameNotReadyToClose,
}

} // verus!
