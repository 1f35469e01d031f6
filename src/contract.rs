use vstd::prelude::*;
use vstd::utf8::encode_utf8;
use std::collections::HashMap;
use crate::types::{Address, Error};
use crate::game::{
    Game, new_game, commit_result, reveal_result, choose_result, scores_fit, game_wf,
    lemma_wf_preserved,
};

verus! {

broadcast use vstd::std_specs::hash::group_hash_axioms;

/// The four big-endian bytes of `n`.
pub open spec fn be_bytes(n: u32) -> Seq<u8> {
    seq![
        (n / 0x1000000) as u8,
        (n / 0x10000 % 0x100) as u8,
        (n / 0x100 % 0x100) as u8,
        (n % 0x100) as u8,
    ]
}

/// The bytes whose hash seeds the toss parity of a session: the session id,
/// big-endian, then the keys of both players as text.
pub open spec fn seed_bytes(session_id: u32, player1: Address, player2: Address) -> Seq<u8> {
    be_bytes(session_id) + encode_utf8(player1@) + encode_utf8(player2@)
}

/// Player1 takes "odd" when the low-order byte of the seed hash is odd.
pub open spec fn parity_of(seed_hash: Seq<u8>) -> bool {
    seed_hash[31] % 2 == 1
}

/// The seed for a session's toss parity, to be hashed by the host.
pub fn toss_seed(session_id: u32, player1: &Address, player2: &Address) -> (r: Vec<u8>)
    ensures
        r@ == seed_bytes(session_id, *player1, *player2),
{
    let mut out: Vec<u8> = Vec::new();
    let b0 = (session_id >> 24u32) as u8;
    let b1 = ((session_id >> 16u32) & 0xffu32) as u8;
    let b2 = ((session_id >> 8u32) & 0xffu32) as u8;
    let b3 = (session_id & 0xffu32) as u8;
    assert(b0 == session_id / 0x1000000 && b1 == session_id / 0x10000 % 0x100
        && b2 == session_id / 0x100 % 0x100 && b3 == session_id % 0x100) by (bit_vector)
        requires
            b0 == (session_id >> 24u32) as u8,
            b1 == ((session_id >> 16u32) & 0xffu32) as u8,
            b2 == ((session_id >> 8u32) & 0xffu32) as u8,
            b3 == (session_id & 0xffu32) as u8,
    ;
    out.push(b0);
    out.push(b1);
    out.push(b2);
    out.push(b3);
    let key1: &str = &player1.strkey;
    let key2: &str = &player2.strkey;
    out.extend_from_slice(key1.as_bytes());
    out.extend_from_slice(key2.as_bytes());
    assert(out@ =~= seed_bytes(session_id, *player1, *player2));
    out
}

/// Whether player1 takes "odd", from the hash of the session's seed.
pub fn player1_is_odd(seed_hash: &[u8; 32]) -> (r: bool)
    ensures
        r == parity_of(seed_hash@),
{
    seed_hash[31] % 2 == 1
}

proof fn lemma_new_game_wf(g: Game)
    requires
        g.player1@ != g.player2@,
        g == new_game(g.player1, g.player2, g.player1_points, g.player2_points, g.player1_is_odd),
    ensures
        game_wf(g),
{
}

/// The contract's state: its admin, its hub, and the games by session id.
pub struct HandCricketContract {
    pub admin: Address,
    pub game_hub: Address,
    pub games: HashMap<u32, Game>,
}

impl HandCricketContract {
    /// Every stored game is well formed.
    pub open spec fn wf(&self) -> bool {
        forall|id: u32| #[trigger] self.games@.contains_key(id) ==> game_wf(self.games@[id])
    }

    /// A contract with no games yet.
    pub fn new(admin: Address, game_hub: Address) -> (r: HandCricketContract)
        ensures
            r.admin == admin,
            r.game_hub == game_hub,
            r.games@ == Map::<u32, Game>::empty(),
            r.wf(),
    {
        HandCricketContract { admin, game_hub, games: HashMap::new() }
    }

    /// Starts session `session_id` between two distinct players. The toss
    /// parity comes from `seed_hash`, the hash of `toss_seed` for the same
    /// session and players. On success the hub is owed a start notice with
    /// these same arguments.
    pub fn start_game(
        &mut self,
        session_id: u32,
        player1: Address,
        player2: Address,
        player1_points: i128,
        player2_points: i128,
        seed_hash: &[u8; 32],
    ) -> (r: Result<(), Error>)
        ensures
            old(self).wf() ==> final(self).wf(),
            final(self).admin == old(self).admin,
            final(self).game_hub == old(self).game_hub,
            player1@ == player2@ ==> r == Err::<(), Error>(Error::SelfPlay) && final(self).games@
                == old(self).games@,
            player1@ != player2@ ==> r is Ok && final(self).games@ == old(self).games@.insert(
                session_id,
                new_game(player1, player2, player1_points, player2_points, parity_of(seed_hash@)),
            ),
    {
        if player1.same(&player2) {
            return Err(Error::SelfPlay);
        }
        let odd = player1_is_odd(seed_hash);
        let game = Game::new(player1, player2, player1_points, player2_points, odd);
        proof {
            lemma_new_game_wf(game);
        }
        self.games.insert(session_id, game);
        Ok(())
    }

    /// Commits `player`'s hidden number for the current round of a session.
    pub fn commit_number(&mut self, session_id: u32, player: &Address, commitment: [u8; 32]) -> (r:
        Result<(), Error>)
        ensures
            old(self).wf() ==> final(self).wf(),
            final(self).admin == old(self).admin,
            final(self).game_hub == old(self).game_hub,
            !old(self).games@.contains_key(session_id) ==> r == Err::<(), Error>(Error::GameNotFound)
                && final(self).games@ == old(self).games@,
            old(self).games@.contains_key(session_id) ==> match commit_result(
                old(self).games@[session_id],
                *player,
                commitment,
            ) {
                Ok(g) => r is Ok && final(self).games@ == old(self).games@.insert(session_id, g),
                Err(e) => r == Err::<(), Error>(e) && final(self).games@ == old(self).games@,
            },
    {
        let mut game = match self.games.get(&session_id) {
            Some(g) => g.duplicate(),
            None => return Err(Error::GameNotFound),
        };
        proof {
            if self.wf() {
                assert(self.games@.contains_key(session_id));
                lemma_wf_preserved(game, *player, commitment, 0, Seq::empty(), false);
            }
        }
        game.commit_number(player, commitment)?;
        self.games.insert(session_id, game);
        Ok(())
    }

    /// Reveals `player`'s number for the current round of a session, with
    /// the proof blob that ties it to their commitment. Returns
    /// `Some(player1_won)` when this reveal ends the game: the hub is then
    /// owed an end notice.
    pub fn reveal_number(&mut self, session_id: u32, player: &Address, number: u32, proof_blob: &Vec<
        u8,
    >) -> (r: Result<Option<bool>, Error>)
        requires
            old(self).games@.contains_key(session_id) ==> scores_fit(
                old(self).games@[session_id],
                number,
            ),
        ensures
            old(self).wf() ==> final(self).wf(),
            final(self).admin == old(self).admin,
            final(self).game_hub == old(self).game_hub,
            !old(self).games@.contains_key(session_id) ==> r == Err::<Option<bool>, Error>(
                Error::GameNotFound,
            ) && final(self).games@ == old(self).games@,
            old(self).games@.contains_key(session_id) ==> match reveal_result(
                old(self).games@[session_id],
                *player,
                number,
                proof_blob@,
            ) {
                Ok((g, n)) => r == Ok::<Option<bool>, Error>(n) && final(self).games@
                    == old(self).games@.insert(session_id, g),
                Err(e) => r == Err::<Option<bool>, Error>(e) && final(self).games@ == old(
                    self,
                ).games@,
            },
    {
        let mut game = match self.games.get(&session_id) {
            Some(g) => g.duplicate(),
            None => return Err(Error::GameNotFound),
        };
        proof {
            if self.wf() {
                assert(self.games@.contains_key(session_id));
                lemma_wf_preserved(game, *player, arbitrary(), number, proof_blob@, false);
            }
        }
        let notice = game.reveal_number(player, number, proof_blob)?;
        self.games.insert(session_id, game);
        Ok(notice)
    }

    /// The toss winner of a session chooses to bat (`bat`) or to bowl.
    pub fn choose_role(&mut self, session_id: u32, player: &Address, bat: bool) -> (r: Result<
        (),
        Error,
    >)
        ensures
            old(self).wf() ==> final(self).wf(),
            final(self).admin == old(self).admin,
            final(self).game_hub == old(self).game_hub,
            !old(self).games@.contains_key(session_id) ==> r == Err::<(), Error>(Error::GameNotFound)
                && final(self).games@ == old(self).games@,
            old(self).games@.contains_key(session_id) ==> match choose_result(
                old(self).games@[session_id],
                *player,
                bat,
            ) {
                Ok(g) => r is Ok && final(self).games@ == old(self).games@.insert(session_id, g),
                Err(e) => r == Err::<(), Error>(e) && final(self).games@ == old(self).games@,
            },
    {
        let mut game = match self.games.get(&session_id) {
            Some(g) => g.duplicate(),
            None => return Err(Error::GameNotFound),
        };
        proof {
            if self.wf() {
                assert(self.games@.contains_key(session_id));
                lemma_wf_preserved(game, *player, arbitrary(), 0, Seq::empty(), bat);
            }
        }
        game.choose_role(player, bat)?;
        self.games.insert(session_id, game);
        Ok(())
    }

    /// The game of a session, read without any change.
    pub fn get_game(&self, session_id: u32) -> (r: Result<Game, Error>)
        ensures
            self.games@.contains_key(session_id) ==> r == Ok::<Game, Error>(self.games@[session_id]),
            !self.games@.contains_key(session_id) ==> r == Err::<Game, Error>(Error::GameNotFound),
    {
        match self.games.get(&session_id) {
            Some(g) => Ok(g.duplicate()),
            None => Err(Error::GameNotFound),
        }
    }

    /// The current admin.
    pub fn get_admin(&self) -> (r: Address)
        ensures
            r == self.admin,
    {
        self.admin.duplicate()
    }

    /// Replaces the admin; the caller has been authorized as the current admin.
    pub fn set_admin(&mut self, new_admin: Address)
        ensures
            final(self).admin == new_admin,
            final(self).game_hub == old(self).game_hub,
            final(self).games@ == old(self).games@,
    {
        self.admin = new_admin;
    }

    /// The hub that is told of game starts and ends.
    pub fn get_hub(&self) -> (r: Address)
        ensures
            r == self.game_hub,
    {
        self.game_hub.duplicate()
    }

    /// Replaces the hub; the caller has been authorized as the current admin.
    pub fn set_hub(&mut self, new_hub: Address)
        ensures
            final(self).game_hub == new_hub,
            final(self).admin == old(self).admin,
            final(self).games@ == old(self).games@,
    {
        self.game_hub = new_hub;
    }
}

} // verus!
