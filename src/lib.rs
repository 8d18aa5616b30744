//! A two-party staking game: a creator opens a game and a vault holding the
//! stake, a second player matches it, and an unjoined game's stake can be
//! taken back after its deadline.

pub mod game;
pub mod key;
pub mod laws;
pub mod ops;
pub mod vault;

pub use game::{Game, GameState, MyError, Vault};
pub use key::Key;
pub use ops::{claim_back, init_game, join_game, ClaimBack, InitGame, JoinGame, DURATION};
