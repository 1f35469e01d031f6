//! A two-player hand cricket engine built on commit-reveal rounds.
//!
//! The engine is a state machine over [`Game`]: every action takes the
//! current game, the authenticated caller and the arguments, and either
//! returns a typed error leaving everything untouched, or updates the game
//! and says whether the hub is owed an end-of-game notice. Authorization,
//! ledger storage, hashing and the hub calls themselves belong to the host.

mod types;
mod proof_check;
mod game;
mod contract;

pub use types::{Address, Error, Phase, DataKey};
pub use proof_check::verify_proof;
pub use game::Game;
pub use contract::{HandCricketContract, toss_seed, player1_is_odd};
