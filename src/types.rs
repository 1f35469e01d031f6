use vstd::prelude::*;

verus! {

/// A participant identity, held as its textual key.
#[derive(Debug)]
pub struct Address {
    pub strkey: String,
}

impl Address {
    pub open spec fn view(&self) -> Seq<char> {
        self.strkey@
    }

    /// The identity with the given textual key.
    pub fn from_key(key: &str) -> (r: Address)
        ensures
            r@ == key@,
    {
        Address { strkey: key.to_owned() }
    }

    /// A copy of this identity.
    pub fn duplicate(&self) -> (r: Address)
        ensures
            r == *self,
    {
        Address { strkey: self.strkey.clone() }
    }

    /// Whether two identities are the same.
    pub fn same(&self, other: &Address) -> (r: bool)
        ensures
            r == (self@ == other@),
    {
        self.strkey == other.strkey
    }
}

impl PartialEq for Address {
    fn eq(&self, other: &Address) -> (r: bool) {
        self.strkey == other.strkey
    }
}

impl vstd::std_specs::cmp::PartialEqSpecImpl for Address {
    open spec fn obeys_eq_spec() -> bool {
        true
    }

    open spec fn eq_spec(&self, other: &Address) -> bool {
        self@ == other@
    }
}

/// The failures an action can report; each leaves the game untouched.
#[derive(Copy, Clone, Debug, PartialEq, Eq, Structural)]
pub enum Error {
    GameNotFound,
    NotPlayer,
    WrongPhase,
    AlreadyCommitted,
    AlreadyRevealed,
    CommitMissing,
    ProofInvalid,
    GameAlreadyEnded,
    SelfPlay,
    NotTossWinner,
}

impl Error {
    /// The stable numeric code of this error.
    pub fn code(&self) -> (r: u32)
        ensures
            r == error_code(*self),
    {
        match self {
            Error::GameNotFound => 1,
            Error::NotPlayer => 2,
            Error::WrongPhase => 3,
            Error::AlreadyCommitted => 4,
            Error::AlreadyRevealed => 5,
            Error::CommitMissing => 6,
            Error::ProofInvalid => 7,
            Error::GameAlreadyEnded => 8,
            Error::SelfPlay => 9,
            Error::NotTossWinner => 10,
        }
    }
}

pub open spec fn error_code(e: Error) -> u32 {
    match e {
        Error::GameNotFound => 1,
        Error::NotPlayer => 2,
        Error::WrongPhase => 3,
        Error::AlreadyCommitted => 4,
        Error::AlreadyRevealed => 5,
        Error::CommitMissing => 6,
        Error::ProofInvalid => 7,
        Error::GameAlreadyEnded => 8,
        Error::SelfPlay => 9,
        Error::NotTossWinner => 10,
    }
}

/// Where a game stands; it decides which actions are valid.
#[derive(Copy, Clone, Debug, PartialEq, Eq, Structural)]
pub enum Phase {
    TossCommit,
    TossReveal,
    BatBowlChoice,
    BallCommit,
    BallReveal,
    Finished,
}

/// The keys under which the contract keeps its state.
#[derive(Copy, Clone, Debug, PartialEq, Eq, Structural)]
pub enum DataKey {
    Game(u32),
    GameHubAddress,
    Admin,
}

} // verus!
