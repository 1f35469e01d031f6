use vstd::prelude::*;
use crate::types::{Address, Error, Phase};
use crate::proof_check::{proof_accepts, verify_proof};

verus! {

/// One session of hand cricket.
#[derive(Debug)]
pub struct Game {
    pub player1: Address,
    pub player2: Address,
    pub player1_points: i128,
    pub player2_points: i128,
    pub player1_is_odd: bool,
    pub toss_winner: Option<Address>,
    pub batter: Option<Address>,
    pub p1_commitment: Option<[u8; 32]>,
    pub p2_commitment: Option<[u8; 32]>,
    pub p1_number: Option<u32>,
    pub p2_number: Option<u32>,
    pub p1_score: u32,
    pub p2_score: u32,
    pub innings: u32,
    pub target: u32,
    pub phase: Phase,
    pub winner: Option<Address>,
}

pub open spec fn opt_num(n: Option<u32>) -> u32 {
    match n {
        Some(v) => v,
        None => 0,
    }
}

/// The game as it is created for two players.
pub open spec fn new_game(
    player1: Address,
    player2: Address,
    player1_points: i128,
    player2_points: i128,
    player1_is_odd: bool,
) -> Game {
    Game {
        player1,
        player2,
        player1_points,
        player2_points,
        player1_is_odd,
        toss_winner: None,
        batter: None,
        p1_commitment: None,
        p2_commitment: None,
        p1_number: None,
        p2_number: None,
        p1_score: 0,
        p2_score: 0,
        innings: 1,
        target: 0,
        phase: Phase::TossCommit,
        winner: None,
    }
}

/// The game with both commit-reveal slots emptied.
pub open spec fn cleared(g: Game) -> Game {
    Game { p1_commitment: None, p2_commitment: None, p1_number: None, p2_number: None, ..g }
}

/// The phase that follows a commit phase once both commitments are in.
pub open spec fn after_commits(g: Game) -> Game {
    if g.p1_commitment is Some && g.p2_commitment is Some {
        Game {
            phase: if g.phase == Phase::TossCommit { Phase::TossReveal } else { Phase::BallReveal },
            ..g
        }
    } else {
        g
    }
}

/// What committing `commitment` as `player` makes of the game.
pub open spec fn commit_result(g: Game, player: Address, commitment: [u8; 32]) -> Result<Game, Error> {
    if g.winner is Some {
        Err(Error::GameAlreadyEnded)
    } else if !(g.phase == Phase::TossCommit || g.phase == Phase::BallCommit) {
        Err(Error::WrongPhase)
    } else if player@ == g.player1@ {
        if g.p1_commitment is Some {
            Err(Error::AlreadyCommitted)
        } else {
            Ok(after_commits(Game { p1_commitment: Some(commitment), ..g }))
        }
    } else if player@ == g.player2@ {
        if g.p2_commitment is Some {
            Err(Error::AlreadyCommitted)
        } else {
            Ok(after_commits(Game { p2_commitment: Some(commitment), ..g }))
        }
    } else {
        Err(Error::NotPlayer)
    }
}

/// Whether player1 wins a toss in which `n1` and `n2` were revealed.
pub open spec fn player1_wins_toss(player1_is_odd: bool, n1: u32, n2: u32) -> bool {
    player1_is_odd == ((n1 as int + n2 as int) % 2 == 1)
}

/// The game once the toss is decided from both revealed numbers.
pub open spec fn toss_resolved(g: Game) -> Game {
    cleared(
        Game {
            toss_winner: Some(
                if player1_wins_toss(g.player1_is_odd, opt_num(g.p1_number), opt_num(g.p2_number)) {
                    g.player1
                } else {
                    g.player2
                },
            ),
            phase: Phase::BatBowlChoice,
            ..g
        },
    )
}

/// Equal numbers put the batter out, whatever their value.
pub open spec fn is_out(n1: u32, n2: u32) -> bool {
    n1 == n2
}

/// The game once a ball is played, and whether the hub is owed a result
/// (`Some(player1_won)`).
pub open spec fn ball_resolved(g: Game) -> Result<(Game, Option<bool>), Error> {
    match g.batter {
        None => Err(Error::WrongPhase),
        Some(batter) => {
            let n1 = opt_num(g.p1_number);
            let n2 = opt_num(g.p2_number);
            let batter_is_p1 = batter@ == g.player1@;
            if is_out(n1, n2) {
                if g.innings == 1 {
                    let score = if batter_is_p1 { g.p1_score } else { g.p2_score };
                    Ok((cleared(Game {
                        target: (score + 1) as u32,
                        innings: 2,
                        batter: Some(if batter_is_p1 { g.player2 } else { g.player1 }),
                        phase: Phase::BallCommit,
                        ..g
                    }), None))
                } else {
                    let winner = if batter_is_p1 { g.player2 } else { g.player1 };
                    Ok((Game { winner: Some(winner), phase: Phase::Finished, ..g },
                        Some(winner@ == g.player1@)))
                }
            } else if batter_is_p1 {
                let s = (g.p1_score + n1) as u32;
                if g.innings == 2 && s >= g.target {
                    Ok((Game { p1_score: s, winner: Some(g.player1), phase: Phase::Finished, ..g },
                        Some(true)))
                } else {
                    Ok((cleared(Game { p1_score: s, phase: Phase::BallCommit, ..g }), None))
                }
            } else {
                let s = (g.p2_score + n2) as u32;
                if g.innings == 2 && s >= g.target {
                    Ok((Game { p2_score: s, winner: Some(g.player2), phase: Phase::Finished, ..g },
                        Some(false)))
                } else {
                    Ok((cleared(Game { p2_score: s, phase: Phase::BallCommit, ..g }), None))
                }
            }
        },
    }
}

/// The game once a number is in a slot: resolved when both are in.
pub open spec fn after_reveals(g: Game) -> Result<(Game, Option<bool>), Error> {
    if g.p1_number is Some && g.p2_number is Some {
        if g.phase == Phase::TossReveal {
            Ok((toss_resolved(g), None))
        } else {
            ball_resolved(g)
        }
    } else {
        Ok((g, None))
    }
}

/// What revealing `number` with `proof_blob` as `player` makes of the game,
/// and whether the hub is owed a result.
pub open spec fn reveal_result(g: Game, player: Address, number: u32, proof_blob: Seq<u8>) -> Result<
    (Game, Option<bool>),
    Error,
> {
    if g.winner is Some {
        Err(Error::GameAlreadyEnded)
    } else if !(g.phase == Phase::TossReveal || g.phase == Phase::BallReveal) {
        Err(Error::WrongPhase)
    } else if player@ == g.player1@ {
        if g.p1_number is Some {
            Err(Error::AlreadyRevealed)
        } else if g.p1_commitment is None {
            Err(Error::CommitMissing)
        } else if !proof_accepts(g.p1_commitment.unwrap()@, number, proof_blob) {
            Err(Error::ProofInvalid)
        } else {
            after_reveals(Game { p1_number: Some(number), ..g })
        }
    } else if player@ == g.player2@ {
        if g.p2_number is Some {
            Err(Error::AlreadyRevealed)
        } else if g.p2_commitment is None {
            Err(Error::CommitMissing)
        } else if !proof_accepts(g.p2_commitment.unwrap()@, number, proof_blob) {
            Err(Error::ProofInvalid)
        } else {
            after_reveals(Game { p2_number: Some(number), ..g })
        }
    } else {
        Err(Error::NotPlayer)
    }
}

/// What the toss winner's choice makes of the game.
pub open spec fn choose_result(g: Game, player: Address, bat: bool) -> Result<Game, Error> {
    if g.phase != Phase::BatBowlChoice {
        Err(Error::WrongPhase)
    } else if g.toss_winner is None {
        Err(Error::WrongPhase)
    } else if player@ != g.toss_winner.unwrap()@ {
        Err(Error::NotTossWinner)
    } else {
        let batter = if bat {
            player
        } else if player@ == g.player1@ {
            g.player2
        } else {
            g.player1
        };
        Ok(cleared(Game { batter: Some(batter), phase: Phase::BallCommit, ..g }))
    }
}

/// Scores stay within `u32` whatever number a reveal of `number` adds.
pub open spec fn scores_fit(g: Game, number: u32) -> bool {
    &&& (g.p1_score + number + opt_num(g.p1_number)) < u32::MAX
    &&& (g.p2_score + number + opt_num(g.p2_number)) < u32::MAX
}

fn dup_opt(a: &Option<Address>) -> (r: Option<Address>)
    ensures
        r == *a,
{
    match a {
        Some(x) => Some(x.duplicate()),
        None => None,
    }
}

impl Game {
    /// A fresh game in its toss-commit phase.
    pub fn new(
        player1: Address,
        player2: Address,
        player1_points: i128,
        player2_points: i128,
        player1_is_odd: bool,
    ) -> (r: Game)
        ensures
            r == new_game(player1, player2, player1_points, player2_points, player1_is_odd),
    {
        Game {
            player1,
            player2,
            player1_points,
            player2_points,
            player1_is_odd,
            toss_winner: None,
            batter: None,
            p1_commitment: None,
            p2_commitment: None,
            p1_number: None,
            p2_number: None,
            p1_score: 0,
            p2_score: 0,
            innings: 1,
            target: 0,
            phase: Phase::TossCommit,
            winner: None,
        }
    }

    /// A copy of this game.
    pub fn duplicate(&self) -> (r: Game)
        ensures
            r == *self,
    {
        Game {
            player1: self.player1.duplicate(),
            player2: self.player2.duplicate(),
            player1_points: self.player1_points,
            player2_points: self.player2_points,
            player1_is_odd: self.player1_is_odd,
            toss_winner: dup_opt(&self.toss_winner),
            batter: dup_opt(&self.batter),
            p1_commitment: self.p1_commitment,
            p2_commitment: self.p2_commitment,
            p1_number: self.p1_number,
            p2_number: self.p2_number,
            p1_score: self.p1_score,
            p2_score: self.p2_score,
            innings: self.innings,
            target: self.target,
            phase: self.phase,
            winner: dup_opt(&self.winner),
        }
    }

    fn clear_slots(&mut self)
        ensures
            *final(self) == cleared(*old(self)),
    {
        self.p1_commitment = None;
        self.p2_commitment = None;
        self.p1_number = None;
        self.p2_number = None;
    }

    /// Records `player`'s commitment for the current round; once both are
    /// in, the game moves to the matching reveal phase.
    pub fn commit_number(&mut self, player: &Address, commitment: [u8; 32]) -> (r: Result<(), Error>)
        ensures
            match commit_result(*old(self), *player, commitment) {
                Ok(g) => r is Ok && *final(self) == g,
                Err(e) => r == Err::<(), Error>(e) && *final(self) == *old(self),
            },
    {
        if self.winner.is_some() {
            return Err(Error::GameAlreadyEnded);
        }
        match self.phase {
            Phase::TossCommit | Phase::BallCommit => {},
            _ => return Err(Error::WrongPhase),
        }
        if player.same(&self.player1) {
            if self.p1_commitment.is_some() {
                return Err(Error::AlreadyCommitted);
            }
            self.p1_commitment = Some(commitment);
        } else if player.same(&self.player2) {
            if self.p2_commitment.is_some() {
                return Err(Error::AlreadyCommitted);
            }
            self.p2_commitment = Some(commitment);
        } else {
            return Err(Error::NotPlayer);
        }
        if self.p1_commitment.is_some() && self.p2_commitment.is_some() {
            self.phase = match self.phase {
                Phase::TossCommit => Phase::TossReveal,
                _ => Phase::BallReveal,
            };
        }
        Ok(())
    }

    /// Decides the toss from both revealed numbers and opens the bat/bowl choice.
    pub fn resolve_toss(&mut self)
        ensures
            *final(self) == toss_resolved(*old(self)),
            final(self).toss_winner == Some(
                if player1_wins_toss(old(self).player1_is_odd, opt_num(old(self).p1_number), opt_num(old(self).p2_number)) {
                    old(self).player1
                } else {
                    old(self).player2
                },
            ),
    {
        let n1 = match self.p1_number { Some(v) => v, None => 0 };
        let n2 = match self.p2_number { Some(v) => v, None => 0 };
        let sum_is_odd = (n1 % 2 + n2 % 2) % 2 == 1;
        assert(sum_is_odd == ((n1 as int + n2 as int) % 2 == 1));
        let player1_wins = (self.player1_is_odd && sum_is_odd) || (!self.player1_is_odd && !sum_is_odd);
        self.toss_winner = if player1_wins {
            Some(self.player1.duplicate())
        } else {
            Some(self.player2.duplicate())
        };
        self.clear_slots();
        self.phase = Phase::BatBowlChoice;
    }

    /// Plays out a ball from both revealed numbers: an out, runs, or a win.
    /// Returns `Some(player1_won)` when the game has just been won.
    pub fn resolve_ball(&mut self) -> (r: Result<Option<bool>, Error>)
        requires
            (old(self).p1_score + opt_num(old(self).p1_number)) < u32::MAX,
            (old(self).p2_score + opt_num(old(self).p2_number)) < u32::MAX,
        ensures
            match ball_resolved(*old(self)) {
                Ok((g, n)) => r == Ok::<Option<bool>, Error>(n) && *final(self) == g,
                Err(e) => r == Err::<Option<bool>, Error>(e) && *final(self) == *old(self),
            },
    {
        let p1_num = match self.p1_number { Some(v) => v, None => 0 };
        let p2_num = match self.p2_number { Some(v) => v, None => 0 };
        let batter_is_p1 = match &self.batter {
            Some(b) => b.same(&self.player1),
            None => return Err(Error::WrongPhase),
        };
        if p1_num == p2_num {
            if self.innings == 1 {
                let score = if batter_is_p1 { self.p1_score } else { self.p2_score };
                self.target = score + 1;
                self.innings = 2;
                self.batter = if batter_is_p1 {
                    Some(self.player2.duplicate())
                } else {
                    Some(self.player1.duplicate())
                };
                self.clear_slots();
                self.phase = Phase::BallCommit;
                Ok(None)
            } else {
                let winner = if batter_is_p1 { self.player2.duplicate() } else { self.player1.duplicate() };
                let player1_won = winner.same(&self.player1);
                self.winner = Some(winner);
                self.phase = Phase::Finished;
                Ok(Some(player1_won))
            }
        } else {
            if batter_is_p1 {
                self.p1_score = self.p1_score + p1_num;
                if self.innings == 2 && self.p1_score >= self.target {
                    self.winner = Some(self.player1.duplicate());
                    self.phase = Phase::Finished;
                    return Ok(Some(true));
                }
            } else {
                self.p2_score = self.p2_score + p2_num;
                if self.innings == 2 && self.p2_score >= self.target {
                    self.winner = Some(self.player2.duplicate());
                    self.phase = Phase::Finished;
                    return Ok(Some(false));
                }
            }
            self.clear_slots();
            self.phase = Phase::BallCommit;
            Ok(None)
        }
    }

    /// Reveals `player`'s number for the current round, checked by
    /// `proof_blob` against their commitment; once both are in, the toss or
    /// the ball is resolved. Returns `Some(player1_won)` when the game has
    /// just been won.
    pub fn reveal_number(&mut self, player: &Address, number: u32, proof_blob: &Vec<u8>) -> (r: Result<Option<bool>, Error>)
        requires
            scores_fit(*old(self), number),
        ensures
            match reveal_result(*old(self), *player, number, proof_blob@) {
                Ok((g, n)) => r == Ok::<Option<bool>, Error>(n) && *final(self) == g,
                Err(e) => r == Err::<Option<bool>, Error>(e) && *final(self) == *old(self),
            },
    {
        if self.winner.is_some() {
            return Err(Error::GameAlreadyEnded);
        }
        match self.phase {
            Phase::TossReveal | Phase::BallReveal => {},
            _ => return Err(Error::WrongPhase),
        }
        let mut next = self.duplicate();
        if player.same(&self.player1) {
            if self.p1_number.is_some() {
                return Err(Error::AlreadyRevealed);
            }
            match &self.p1_commitment {
                None => return Err(Error::CommitMissing),
                Some(c) => {
                    if !verify_proof(c, number, proof_blob) {
                        return Err(Error::ProofInvalid);
                    }
                },
            }
            next.p1_number = Some(number);
        } else if player.same(&self.player2) {
            if self.p2_number.is_some() {
                return Err(Error::AlreadyRevealed);
            }
            match &self.p2_commitment {
                None => return Err(Error::CommitMissing),
                Some(c) => {
                    if !verify_proof(c, number, proof_blob) {
                        return Err(Error::ProofInvalid);
                    }
                },
            }
            next.p2_number = Some(number);
        } else {
            return Err(Error::NotPlayer);
        }
        let mut notice: Option<bool> = None;
        if next.p1_number.is_some() && next.p2_number.is_some() {
            match next.phase {
                Phase::TossReveal => next.resolve_toss(),
                _ => {
                    notice = next.resolve_ball()?;
                },
            }
        }
        *self = next;
        Ok(notice)
    }

    /// The toss winner chooses to bat (`bat`) or to bowl; the first ball's
    /// commit round opens.
    pub fn choose_role(&mut self, player: &Address, bat: bool) -> (r: Result<(), Error>)
        ensures
            match choose_result(*old(self), *player, bat) {
                Ok(g) => r is Ok && *final(self) == g,
                Err(e) => r == Err::<(), Error>(e) && *final(self) == *old(self),
            },
    {
        if self.phase != Phase::BatBowlChoice {
            return Err(Error::WrongPhase);
        }
        let is_winner = match &self.toss_winner {
            None => return Err(Error::WrongPhase),
            Some(w) => player.same(w),
        };
        if !is_winner {
            return Err(Error::NotTossWinner);
        }
        self.batter = if bat {
            Some(player.duplicate())
        } else if player.same(&self.player1) {
            Some(self.player2.duplicate())
        } else {
            Some(self.player1.duplicate())
        };
        self.clear_slots();
        self.phase = Phase::BallCommit;
        Ok(())
    }
}

/// How one transition may move scores, innings and target: scores never go
/// down; the innings only goes from 1 to 2, and that is the one move that
/// sets the target, to the first batter's score plus one.
pub open spec fn progress_kept(g: Game, next: Game) -> bool {
    &&& next.p1_score >= g.p1_score
    &&& next.p2_score >= g.p2_score
    &&& next.innings == g.innings ==> next.target == g.target
    &&& next.innings != g.innings ==> {
        &&& g.innings == 1
        &&& next.innings == 2
        &&& g.batter is Some
        &&& next.target == (if g.batter.unwrap()@ == g.player1@ { g.p1_score } else { g.p2_score })
            + 1
    }
}

/// The toss goes to player1 exactly when the parity of the two revealed
/// numbers matches player1's side.
pub proof fn lemma_toss_parity(g: Game)
    requires
        g.player1@ != g.player2@,
    ensures
        (toss_resolved(g).toss_winner.unwrap()@ == g.player1@) <==> (g.player1_is_odd == ((
        opt_num(g.p1_number) + opt_num(g.p2_number)) % 2 == 1)),
{
}

/// Equal revealed numbers put the batter out, whatever the number: in the
/// first innings the sides swap and the chase begins, in the second the
/// bowler wins. No runs are scored.
pub proof fn lemma_equal_numbers_out(g: Game, n: u32)
    requires
        g.batter is Some,
        g.p1_number == Some(n),
        g.p2_number == Some(n),
    ensures
        ball_resolved(g) is Ok,
        ({
            let (next, notice) = ball_resolved(g).unwrap();
            let batter_is_p1 = g.batter.unwrap()@ == g.player1@;
            &&& next.p1_score == g.p1_score
            &&& next.p2_score == g.p2_score
            &&& g.innings == 1 ==> next.innings == 2 && next.phase == Phase::BallCommit
                && next.batter == Some(if batter_is_p1 { g.player2 } else { g.player1 })
                && notice is None
            &&& g.innings != 1 ==> next.phase == Phase::Finished && next.winner == Some(
                if batter_is_p1 { g.player2 } else { g.player1 },
            ) && notice is Some
        }),
{
}

/// No action lowers a score, and the target is set once, when the first
/// innings ends, and kept from then on.
pub proof fn lemma_progress_kept(
    g: Game,
    player: Address,
    commitment: [u8; 32],
    number: u32,
    proof_blob: Seq<u8>,
    bat: bool,
)
    requires
        scores_fit(g, number),
    ensures
        commit_result(g, player, commitment) is Ok ==> progress_kept(
            g,
            commit_result(g, player, commitment).unwrap(),
        ),
        reveal_result(g, player, number, proof_blob) is Ok ==> progress_kept(
            g,
            reveal_result(g, player, number, proof_blob).unwrap().0,
        ),
        choose_result(g, player, bat) is Ok ==> progress_kept(g, choose_result(g, player, bat).unwrap()),
{
}

/// A filled commitment slot is not filled again before it is cleared: a
/// second commit by the same player fails, with `AlreadyCommitted` while the
/// round is still collecting commitments.
pub proof fn lemma_commit_slot_refilled(g: Game, player: Address, first: [u8; 32], second: [u8; 32])
    requires
        commit_result(g, player, first) is Ok,
    ensures
        commit_result(commit_result(g, player, first).unwrap(), player, second) is Err,
        commit_result(commit_result(g, player, first).unwrap(), player, second) != Err::<Game, Error>(
            Error::AlreadyCommitted,
        ) ==> commit_result(g, player, first).unwrap().phase != g.phase,
{
}

/// A filled number slot is not filled again before it is cleared: a second
/// reveal by the same player fails, with `AlreadyRevealed` while the round is
/// still collecting numbers.
pub proof fn lemma_number_slot_refilled(
    g: Game,
    player: Address,
    first: u32,
    first_blob: Seq<u8>,
    second: u32,
    second_blob: Seq<u8>,
)
    requires
        scores_fit(g, first),
        reveal_result(g, player, first, first_blob) is Ok,
    ensures
        reveal_result(reveal_result(g, player, first, first_blob).unwrap().0, player, second, second_blob) is Err,
        reveal_result(reveal_result(g, player, first, first_blob).unwrap().0, player, second, second_blob)
            != Err::<(Game, Option<bool>), Error>(Error::AlreadyRevealed)
            ==> reveal_result(g, player, first, first_blob).unwrap().0.phase != g.phase,
{
}

/// Whether `a` is one of the game's two players.
pub open spec fn is_player(g: Game, a: Address) -> bool {
    a@ == g.player1@ || a@ == g.player2@
}

/// The game's invariant: two distinct players; innings 1 (no target yet) or
/// 2; a winner exactly when finished; a toss winner once the toss is over;
/// a batter during play; commitments complete while numbers are revealed and
/// no number while commitments are collected.
pub open spec fn game_wf(g: Game) -> bool {
    &&& g.player1@ != g.player2@
    &&& g.innings == 1 || g.innings == 2
    &&& g.innings == 1 ==> g.target == 0
    &&& (g.phase == Phase::Finished) == (g.winner is Some)
    &&& g.winner is Some ==> is_player(g, g.winner.unwrap())
    &&& g.toss_winner is Some ==> is_player(g, g.toss_winner.unwrap())
    &&& g.batter is Some ==> is_player(g, g.batter.unwrap())
    &&& (g.phase == Phase::TossCommit || g.phase == Phase::TossReveal) == (g.toss_winner is None)
    &&& (g.phase == Phase::BallCommit || g.phase == Phase::BallReveal || g.phase == Phase::Finished)
        == (g.batter is Some)
    &&& (g.phase == Phase::TossCommit || g.phase == Phase::BallCommit) ==> g.p1_number is None
        && g.p2_number is None
    &&& (g.phase == Phase::TossReveal || g.phase == Phase::BallReveal) ==> g.p1_commitment is Some
        && g.p2_commitment is Some
}

/// A game created for two distinct players is well formed, and every action
/// that succeeds keeps it so.
pub proof fn lemma_wf_preserved(
    g: Game,
    player: Address,
    commitment: [u8; 32],
    number: u32,
    proof_blob: Seq<u8>,
    bat: bool,
)
    requires
        game_wf(g),
    ensures
        g.player1@ != g.player2@ ==> game_wf(
            new_game(g.player1, g.player2, g.player1_points, g.player2_points, g.player1_is_odd),
        ),
        commit_result(g, player, commitment) is Ok ==> game_wf(
            commit_result(g, player, commitment).unwrap(),
        ),
        reveal_result(g, player, number, proof_blob) is Ok ==> game_wf(
            reveal_result(g, player, number, proof_blob).unwrap().0,
        ),
        choose_result(g, player, bat) is Ok ==> game_wf(choose_result(g, player, bat).unwrap()),
{
}

} // verus!
