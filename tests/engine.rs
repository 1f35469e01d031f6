use hand_cricket::{
    player1_is_odd, toss_seed, verify_proof, Address, DataKey, Error, Game, HandCricketContract,
    Phase,
};

const A: &str = "GAPLAYERAAAAAAAAAAAAAAAAAAAAAAAAAAAAAAAAAAAAAAAAAAAAAAAA";
const B: &str = "GBPLAYERBBBBBBBBBBBBBBBBBBBBBBBBBBBBBBBBBBBBBBBBBBBBBBBB";
const C: &str = "GCSTRANGERCCCCCCCCCCCCCCCCCCCCCCCCCCCCCCCCCCCCCCCCCCCCCC";

fn addr(key: &str) -> Address {
    Address::from_key(key)
}

fn commitment_of(tag: u8) -> [u8; 32] {
    let mut c = [0u8; 32];
    for (i, b) in c.iter_mut().enumerate() {
        *b = tag.wrapping_add(i as u8);
    }
    c
}

fn blob(commitment: &[u8; 32], number: u32, len: usize) -> Vec<u8> {
    let mut b = vec![0u8; len];
    if len >= 4 {
        b[3] = 2;
    }
    for i in 0..32 {
        if 4 + i < len {
            b[4 + i] = commitment[i];
        }
    }
    let n = number.to_be_bytes();
    for i in 0..4 {
        if 64 + i < len {
            b[64 + i] = n[i];
        }
    }
    b
}

fn hash_with_last(last: u8) -> [u8; 32] {
    let mut h = [7u8; 32];
    h[31] = last;
    h
}

fn contract() -> HandCricketContract {
    HandCricketContract::new(addr("GADMIN"), addr("CHUB"))
}

/// Commits and reveals one round: `n1` for `p1`, `n2` for `p2`.
fn play_round(
    k: &mut HandCricketContract,
    session: u32,
    p1: &str,
    n1: u32,
    p2: &str,
    n2: u32,
) -> Option<bool> {
    let c1 = commitment_of(n1 as u8 + 1);
    let c2 = commitment_of(n2 as u8 + 101);
    k.commit_number(session, &addr(p1), c1).unwrap();
    k.commit_number(session, &addr(p2), c2).unwrap();
    let first = k.reveal_number(session, &addr(p1), n1, &blob(&c1, n1, 132)).unwrap();
    assert_eq!(first, None);
    k.reveal_number(session, &addr(p2), n2, &blob(&c2, n2, 132)).unwrap()
}

/// Session 1 between A and B, with A on "odd".
fn started() -> HandCricketContract {
    let mut k = contract();
    k.start_game(1, addr(A), addr(B), 100, 200, &hash_with_last(3)).unwrap();
    k
}

/// Session 1 after the toss (won by A on 2 + 3) and A's choice to bowl.
fn b_batting() -> HandCricketContract {
    let mut k = started();
    assert_eq!(play_round(&mut k, 1, A, 2, B, 3), None);
    k.choose_role(1, &addr(A), false).unwrap();
    k
}

#[test]
fn verify_proof_accepts_layout() {
    let c = commitment_of(9);
    assert!(verify_proof(&c, 7, &blob(&c, 7, 132)));
}

#[test]
fn verify_proof_ignores_trailing_bytes() {
    let c = commitment_of(9);
    let mut b = blob(&c, 7, 200);
    for i in 68..200 {
        b[i] = (i * 31) as u8;
    }
    assert!(verify_proof(&c, 7, &b));
    let mut b2 = blob(&c, 7, 132);
    b2[36] = 0xff;
    b2[100] = 0xee;
    assert!(verify_proof(&c, 7, &b2));
}

#[test]
fn verify_proof_rejects_short_blob() {
    let c = commitment_of(9);
    assert!(!verify_proof(&c, 7, &blob(&c, 7, 131)));
    assert!(!verify_proof(&c, 7, &Vec::new()));
}

#[test]
fn verify_proof_rejects_wrong_input_count() {
    let c = commitment_of(9);
    let mut b = blob(&c, 7, 132);
    b[3] = 3;
    assert!(!verify_proof(&c, 7, &b));
    let mut b2 = blob(&c, 7, 132);
    b2[0] = 1;
    assert!(!verify_proof(&c, 7, &b2));
}

#[test]
fn verify_proof_rejects_other_commitment() {
    let c = commitment_of(9);
    let mut b = blob(&c, 7, 132);
    b[35] ^= 1;
    assert!(!verify_proof(&c, 7, &b));
    assert!(!verify_proof(&commitment_of(10), 7, &blob(&c, 7, 132)));
}

#[test]
fn verify_proof_rejects_other_number() {
    let c = commitment_of(9);
    assert!(!verify_proof(&c, 8, &blob(&c, 7, 132)));
    let b = blob(&c, 0x01020304, 132);
    assert_eq!(&b[64..68], &[1, 2, 3, 4]);
    assert!(verify_proof(&c, 0x01020304, &b));
    assert!(!verify_proof(&c, 0x04030201, &b));
}

#[test]
fn error_codes_are_stable() {
    let all = [
        (Error::GameNotFound, 1),
        (Error::NotPlayer, 2),
        (Error::WrongPhase, 3),
        (Error::AlreadyCommitted, 4),
        (Error::AlreadyRevealed, 5),
        (Error::CommitMissing, 6),
        (Error::ProofInvalid, 7),
        (Error::GameAlreadyEnded, 8),
        (Error::SelfPlay, 9),
        (Error::NotTossWinner, 10),
    ];
    for (e, code) in all {
        assert_eq!(e.code(), code);
    }
}

#[test]
fn toss_seed_layout() {
    let s = toss_seed(0x01020304, &addr("GA"), &addr("GBC"));
    assert_eq!(s, vec![1, 2, 3, 4, b'G', b'A', b'G', b'B', b'C']);
}

#[test]
fn parity_from_low_order_byte() {
    assert!(player1_is_odd(&hash_with_last(1)));
    assert!(player1_is_odd(&hash_with_last(255)));
    assert!(!player1_is_odd(&hash_with_last(0)));
    assert!(!player1_is_odd(&hash_with_last(254)));
}

#[test]
fn start_game_rejects_self_play() {
    let mut k = contract();
    assert_eq!(k.start_game(4, addr(A), addr(A), 1, 1, &hash_with_last(1)), Err(Error::SelfPlay));
    assert!(matches!(k.get_game(4), Err(Error::GameNotFound)));
}

#[test]
fn start_game_creates_fresh_game() {
    let k = started();
    let g = k.get_game(1).unwrap();
    assert_eq!(g.player1, addr(A));
    assert_eq!(g.player2, addr(B));
    assert_eq!((g.player1_points, g.player2_points), (100, 200));
    assert!(g.player1_is_odd);
    assert_eq!(g.phase, Phase::TossCommit);
    assert_eq!((g.p1_score, g.p2_score, g.innings, g.target), (0, 0, 1, 0));
    assert!(g.toss_winner.is_none() && g.batter.is_none() && g.winner.is_none());
    assert!(g.p1_commitment.is_none() && g.p2_commitment.is_none());
    assert!(g.p1_number.is_none() && g.p2_number.is_none());
}

#[test]
fn even_hash_makes_player1_even() {
    let mut k = contract();
    k.start_game(2, addr(A), addr(B), 0, 0, &hash_with_last(8)).unwrap();
    assert!(!k.get_game(2).unwrap().player1_is_odd);
    // 2 + 3 is odd, so the "even" player1 loses the toss.
    assert_eq!(play_round(&mut k, 2, A, 2, B, 3), None);
    assert_eq!(k.get_game(2).unwrap().toss_winner, Some(addr(B)));
}

#[test]
fn scenario_toss_and_bowl_choice() {
    let mut k = started();
    assert_eq!(play_round(&mut k, 1, A, 2, B, 3), None);
    let g = k.get_game(1).unwrap();
    assert_eq!(g.toss_winner, Some(addr(A)));
    assert_eq!(g.phase, Phase::BatBowlChoice);
    assert!(g.p1_number.is_none() && g.p1_commitment.is_none());
    k.choose_role(1, &addr(A), false).unwrap();
    let g = k.get_game(1).unwrap();
    assert_eq!(g.batter, Some(addr(B)));
    assert_eq!(g.phase, Phase::BallCommit);
}

#[test]
fn choose_to_bat_makes_winner_batter() {
    let mut k = started();
    play_round(&mut k, 1, A, 2, B, 3);
    k.choose_role(1, &addr(A), true).unwrap();
    assert_eq!(k.get_game(1).unwrap().batter, Some(addr(A)));
}

#[test]
fn scenario_out_in_first_innings() {
    let mut k = b_batting();
    assert_eq!(play_round(&mut k, 1, A, 4, B, 4), None);
    let g = k.get_game(1).unwrap();
    assert_eq!(g.innings, 2);
    assert_eq!(g.target, 1);
    assert_eq!(g.batter, Some(addr(A)));
    assert_eq!(g.phase, Phase::BallCommit);
    assert!(g.p1_commitment.is_none() && g.p2_number.is_none());
}

#[test]
fn zero_against_zero_is_out() {
    let mut k = b_batting();
    assert_eq!(play_round(&mut k, 1, A, 0, B, 0), None);
    let g = k.get_game(1).unwrap();
    assert_eq!((g.innings, g.target, g.p2_score), (2, 1, 0));
}

#[test]
fn scenario_chase_reaches_target() {
    let mut k = b_batting();
    // B scores 4, then is out: target 5.
    assert_eq!(play_round(&mut k, 1, A, 1, B, 4), None);
    assert_eq!(k.get_game(1).unwrap().p2_score, 4);
    assert_eq!(play_round(&mut k, 1, A, 6, B, 6), None);
    let g = k.get_game(1).unwrap();
    assert_eq!((g.innings, g.target), (2, 5));
    assert_eq!(g.batter, Some(addr(A)));
    // A chases: 3 then 3.
    let mut notices = Vec::new();
    notices.push(play_round(&mut k, 1, A, 3, B, 1));
    let g = k.get_game(1).unwrap();
    assert_eq!((g.p1_score, g.phase), (3, Phase::BallCommit));
    notices.push(play_round(&mut k, 1, A, 3, B, 2));
    let g = k.get_game(1).unwrap();
    assert_eq!(g.p1_score, 6);
    assert_eq!(g.winner, Some(addr(A)));
    assert_eq!(g.phase, Phase::Finished);
    assert_eq!(notices, vec![None, Some(true)]);
    assert_eq!(notices.iter().filter(|n| n.is_some()).count(), 1);
    // Terminal: slots are left as they were.
    assert_eq!(g.p1_number, Some(3));
    assert_eq!(g.p2_number, Some(2));
    // Nothing more can happen.
    assert_eq!(k.commit_number(1, &addr(A), commitment_of(1)), Err(Error::GameAlreadyEnded));
    assert!(matches!(k.reveal_number(1, &addr(A), 1, &vec![0u8; 132]), Err(Error::GameAlreadyEnded)));
}

#[test]
fn out_in_second_innings_gives_bowler_the_win() {
    let mut k = b_batting();
    play_round(&mut k, 1, A, 5, B, 5);
    // A bats now; out again: B wins.
    assert_eq!(play_round(&mut k, 1, A, 2, B, 2), Some(false));
    let g = k.get_game(1).unwrap();
    assert_eq!(g.winner, Some(addr(B)));
    assert_eq!(g.phase, Phase::Finished);
}

#[test]
fn first_innings_score_does_not_win() {
    let mut k = b_batting();
    assert_eq!(play_round(&mut k, 1, A, 1, B, 9), None);
    let g = k.get_game(1).unwrap();
    assert_eq!((g.p2_score, g.innings, g.target), (9, 1, 0));
    assert!(g.winner.is_none());
}

#[test]
fn unknown_session_is_not_found() {
    let mut k = contract();
    assert!(matches!(k.get_game(9), Err(Error::GameNotFound)));
    assert_eq!(k.commit_number(9, &addr(A), commitment_of(0)), Err(Error::GameNotFound));
    assert_eq!(k.reveal_number(9, &addr(A), 1, &vec![0u8; 132]), Err(Error::GameNotFound));
    assert_eq!(k.choose_role(9, &addr(A), true), Err(Error::GameNotFound));
}

#[test]
fn stranger_is_not_player() {
    let mut k = started();
    assert_eq!(k.commit_number(1, &addr(C), commitment_of(0)), Err(Error::NotPlayer));
    k.commit_number(1, &addr(A), commitment_of(1)).unwrap();
    k.commit_number(1, &addr(B), commitment_of(2)).unwrap();
    let c = commitment_of(1);
    assert_eq!(k.reveal_number(1, &addr(C), 1, &blob(&c, 1, 132)), Err(Error::NotPlayer));
}

#[test]
fn second_commit_is_refused() {
    let mut k = started();
    k.commit_number(1, &addr(A), commitment_of(1)).unwrap();
    assert_eq!(k.commit_number(1, &addr(A), commitment_of(2)), Err(Error::AlreadyCommitted));
    let g = k.get_game(1).unwrap();
    assert_eq!(g.p1_commitment, Some(commitment_of(1)));
    assert_eq!(g.phase, Phase::TossCommit);
}

#[test]
fn second_reveal_is_refused() {
    let mut k = started();
    let c = commitment_of(1);
    k.commit_number(1, &addr(A), c).unwrap();
    k.commit_number(1, &addr(B), commitment_of(2)).unwrap();
    assert_eq!(k.get_game(1).unwrap().phase, Phase::TossReveal);
    assert_eq!(k.reveal_number(1, &addr(A), 4, &blob(&c, 4, 132)), Ok(None));
    assert_eq!(k.reveal_number(1, &addr(A), 4, &blob(&c, 4, 132)), Err(Error::AlreadyRevealed));
    assert_eq!(k.get_game(1).unwrap().p1_number, Some(4));
}

#[test]
fn wrong_phase_is_refused() {
    let mut k = started();
    let c = commitment_of(1);
    assert_eq!(k.reveal_number(1, &addr(A), 1, &blob(&c, 1, 132)), Err(Error::WrongPhase));
    assert_eq!(k.choose_role(1, &addr(A), true), Err(Error::WrongPhase));
    k.commit_number(1, &addr(A), c).unwrap();
    k.commit_number(1, &addr(B), commitment_of(2)).unwrap();
    assert_eq!(k.commit_number(1, &addr(A), c), Err(Error::WrongPhase));
}

#[test]
fn bad_proof_is_refused() {
    let mut k = started();
    let c = commitment_of(1);
    k.commit_number(1, &addr(A), c).unwrap();
    k.commit_number(1, &addr(B), commitment_of(2)).unwrap();
    assert_eq!(k.reveal_number(1, &addr(A), 5, &blob(&c, 6, 132)), Err(Error::ProofInvalid));
    assert_eq!(k.reveal_number(1, &addr(A), 5, &blob(&commitment_of(2), 5, 132)), Err(Error::ProofInvalid));
    assert_eq!(k.reveal_number(1, &addr(A), 5, &blob(&c, 5, 100)), Err(Error::ProofInvalid));
    assert!(k.get_game(1).unwrap().p1_number.is_none());
}

#[test]
fn missing_commitment_is_refused() {
    let mut g = Game::new(addr(A), addr(B), 0, 0, true);
    g.phase = Phase::TossReveal;
    g.p2_commitment = Some(commitment_of(2));
    let c = commitment_of(1);
    assert_eq!(g.reveal_number(&addr(A), 1, &blob(&c, 1, 132)), Err(Error::CommitMissing));
    assert!(g.p1_number.is_none());
}

#[test]
fn only_toss_winner_chooses() {
    let mut k = started();
    play_round(&mut k, 1, A, 2, B, 3);
    assert_eq!(k.choose_role(1, &addr(B), true), Err(Error::NotTossWinner));
    assert_eq!(k.choose_role(1, &addr(C), true), Err(Error::NotTossWinner));
    assert_eq!(k.get_game(1).unwrap().phase, Phase::BatBowlChoice);
}

#[test]
fn missing_batter_fails_the_reveal_untouched() {
    let mut g = Game::new(addr(A), addr(B), 0, 0, true);
    g.phase = Phase::BallReveal;
    let c1 = commitment_of(1);
    let c2 = commitment_of(2);
    g.p1_commitment = Some(c1);
    g.p2_commitment = Some(c2);
    g.p1_number = Some(3);
    assert_eq!(g.reveal_number(&addr(B), 4, &blob(&c2, 4, 132)), Err(Error::WrongPhase));
    assert!(g.p2_number.is_none());
    assert_eq!(g.p1_score, 0);
}

#[test]
fn get_game_reads_without_change() {
    let mut k = started();
    k.commit_number(1, &addr(A), commitment_of(1)).unwrap();
    let g1 = k.get_game(1).unwrap();
    let g2 = k.get_game(1).unwrap();
    assert_eq!(format!("{:?}", g1), format!("{:?}", g2));
    assert_eq!(g1.p1_commitment, Some(commitment_of(1)));
    // The commitment slot is still free for B, as before the reads.
    k.commit_number(1, &addr(B), commitment_of(2)).unwrap();
    assert_eq!(k.get_game(1).unwrap().phase, Phase::TossReveal);
}

#[test]
fn sessions_are_independent() {
    let mut k = started();
    k.start_game(2, addr(B), addr(C), 5, 5, &hash_with_last(2)).unwrap();
    k.commit_number(1, &addr(A), commitment_of(1)).unwrap();
    assert!(k.get_game(2).unwrap().p1_commitment.is_none());
    assert_eq!(k.commit_number(2, &addr(A), commitment_of(1)), Err(Error::NotPlayer));
}

#[test]
fn admin_and_hub_are_replaced() {
    let mut k = contract();
    assert_eq!(k.get_admin(), addr("GADMIN"));
    assert_eq!(k.get_hub(), addr("CHUB"));
    k.set_admin(addr("GNEWADMIN"));
    k.set_hub(addr("CNEWHUB"));
    assert_eq!(k.get_admin(), addr("GNEWADMIN"));
    assert_eq!(k.get_hub(), addr("CNEWHUB"));
}

#[test]
fn data_keys_compare() {
    assert_eq!(DataKey::Game(3), DataKey::Game(3));
    assert_ne!(DataKey::Game(3), DataKey::Game(4));
    assert_ne!(DataKey::Admin, DataKey::GameHubAddress);
}
