use guessing_game::engine::{apply_guess, Outcome};
use guessing_game::player::{Error, Player, PublicPlayer};
use guessing_game::service::GameService;

fn fresh_player(name: &str, now: u64) -> (GameService, PublicPlayer) {
    let mut svc = GameService::new();
    let pp = svc.add_player(name.to_string(), now).expect("id space is fresh");
    (svc, pp)
}

#[test]
fn create_player_starts_fresh() {
    let (_svc, pp) = fresh_player("Ana", 1000);
    assert_eq!(pp.id, 0);
    assert_eq!(pp.name, "Ana");
    assert_eq!(pp.score, 0);
    assert_eq!(pp.attempts_left, 7);
    assert_eq!(pp.clue, "");
}

#[test]
fn ids_increase_one_by_one() {
    let mut svc = GameService::new();
    let a = svc.add_player("a".to_string(), 1).unwrap();
    let b = svc.add_player("b".to_string(), 2).unwrap();
    let c = svc.add_player("c".to_string(), 3).unwrap();
    assert_eq!(a.id, 0);
    assert_eq!(b.id, 1);
    assert_eq!(c.id, 2);
}

#[test]
fn get_player_round_trips_the_record() {
    let (svc, pp) = fresh_player("Ana Müller 🎲", 1000);
    let got = svc.get_player(pp.id).expect("the player was just stored");
    assert_eq!(got.id, pp.id);
    assert_eq!(got.name, "Ana Müller 🎲");
    assert_eq!(got.score, 0);
    assert_eq!(got.attempts_left, 7);
    assert_eq!(got.clue, "");
}

#[test]
fn empty_name_round_trips() {
    let (svc, pp) = fresh_player("", 1000);
    let got = svc.get_player(pp.id).unwrap();
    assert_eq!(got.name, "");
    assert_eq!(got.attempts_left, 7);
}

#[test]
fn get_player_missing_is_not_found() {
    let svc = GameService::new();
    let r = svc.get_player(5);
    assert!(matches!(r, Err(Error::NotFound { .. })));
}

#[test]
fn get_player_is_idempotent() {
    let (svc, pp) = fresh_player("Ana", 1000);
    let first = svc.get_player(pp.id).unwrap();
    let second = svc.get_player(pp.id).unwrap();
    assert_eq!(first.id, second.id);
    assert_eq!(first.name, second.name);
    assert_eq!(first.score, second.score);
    assert_eq!(first.attempts_left, second.attempts_left);
    assert_eq!(first.clue, second.clue);
}

#[test]
fn first_guess_initializes_before_judging() {
    // The round starts lazily: the secret drawn at `now == 50` is 50, so a
    // guess of 10 is judged against it and costs one of the 7 fresh attempts.
    let (mut svc, pp) = fresh_player("Ana", 1000);
    let after = svc.play_game(pp.id, 10, 50).expect("a clue is owed");
    assert_eq!(after.attempts_left, 6);
    assert_eq!(after.score, 0);
    assert_eq!(after.clue, "The secret number is higher than your guess.");
}

#[test]
fn first_guess_can_win_against_the_fresh_secret() {
    let (mut svc, pp) = fresh_player("Ana", 1000);
    // The secret drawn at `now == 50` is 50 itself.
    let after = svc.play_game(pp.id, 50, 50).expect("a winning clue is owed");
    assert_eq!(after.score, 10);
    assert_eq!(after.attempts_left, 7);
    assert_eq!(after.clue, "Congratulations! You've guessed the number! A new game has started.");
}

#[test]
fn wrong_guesses_decrement_attempts_one_by_one() {
    let (mut svc, pp) = fresh_player("Ana", 1000);
    for expected_left in (0..7).rev() {
        // The secret stays 50 while the round runs; 90 is always wrong.
        let after = svc.play_game(pp.id, 90, 50).expect("a clue is owed");
        assert_eq!(after.attempts_left, expected_left);
        assert_eq!(after.score, 0);
        assert_eq!(after.clue, "The secret number is lower than your guess.");
    }
}

#[test]
fn exhausted_round_signals_game_over_and_resets() {
    let (mut svc, pp) = fresh_player("Ana", 1000);
    for _ in 0..7 {
        svc.play_game(pp.id, 90, 50).expect("a clue is owed while attempts remain");
    }
    // The budget is spent: the next call signals game over...
    let r = svc.play_game(pp.id, 90, 50);
    assert!(matches!(r, Err(Error::NotFound { .. })));
    if let Err(Error::NotFound { msg }) = r {
        assert!(msg.contains("Game over"));
    }
    // ...and the stored round has restarted with a full budget.
    let got = svc.get_player(pp.id).unwrap();
    assert_eq!(got.attempts_left, 7);
    assert_eq!(got.score, 0);
}

#[test]
fn winning_adds_ten_and_resets_attempts() {
    let (mut svc, pp) = fresh_player("Ana", 1000);
    // Miss twice, then hit the secret of 50.
    svc.play_game(pp.id, 1, 50).unwrap();
    svc.play_game(pp.id, 2, 50).unwrap();
    let won = svc.play_game(pp.id, 50, 50).expect("a winning clue is owed");
    assert_eq!(won.score, 10);
    assert_eq!(won.attempts_left, 7);
    // The winning call passed now == 50, so the next round's secret is 50
    // again; guessing it once more stacks another ten points.
    let won_again = svc.play_game(pp.id, 50, 99).expect("a winning clue is owed");
    assert_eq!(won_again.score, 20);
    assert_eq!(won_again.attempts_left, 7);
}

#[test]
fn update_score_overwrites_and_stamps() {
    let (mut svc, pp) = fresh_player("Ana", 1000);
    let updated = svc.update_score(pp.id, 55, 2000).expect("the player exists");
    assert_eq!(updated.score, 55);
    assert_eq!(updated.clue, "");
    let got = svc.get_player(pp.id).unwrap();
    assert_eq!(got.score, 55);
}

#[test]
fn update_score_missing_is_not_found() {
    let mut svc = GameService::new();
    let r = svc.update_score(3, 55, 2000);
    assert!(matches!(r, Err(Error::NotFound { .. })));
}

#[test]
fn delete_returns_the_full_record() {
    let (mut svc, pp) = fresh_player("Ana", 1000);
    svc.play_game(pp.id, 10, 50).unwrap();
    let removed: Player = svc.delete_player(pp.id).expect("the player exists");
    assert_eq!(removed.id, pp.id);
    assert_eq!(removed.name, "Ana");
    assert!(removed.secret_value <= 100);
    assert_eq!(removed.attempts_left, 6);
}

#[test]
fn delete_then_get_is_not_found() {
    let (mut svc, pp) = fresh_player("Ana", 1000);
    svc.delete_player(pp.id).expect("the player exists");
    let r = svc.get_player(pp.id);
    assert!(matches!(r, Err(Error::NotFound { .. })));
}

#[test]
fn delete_of_a_never_created_id_is_not_found() {
    let mut svc = GameService::new();
    let r = svc.delete_player(42);
    assert!(matches!(r, Err(Error::NotFound { .. })));
}

#[test]
fn guessing_on_a_missing_id_creates_nothing() {
    let mut svc = GameService::new();
    let r = svc.play_game(9, 50, 50);
    assert!(matches!(r, Err(Error::NotFound { .. })));
    assert!(matches!(svc.get_player(9), Err(Error::NotFound { .. })));
}

#[test]
fn engine_initializes_the_sentinel_round() {
    let p = Player {
        id: 4,
        name: "Bo".to_string(),
        score: 30,
        secret_value: 0,
        attempts_left: 3,
        created_at: 1,
        updated_at: None,
    };
    // now == 210: the fresh secret is 210 % 101 == 8; the budget is restored
    // to 7 before the wrong guess of 9 is judged against the new secret.
    let (q, outcome) = apply_guess(p, 9, 210);
    assert_eq!(q.secret_value, 8);
    assert_eq!(q.attempts_left, 6);
    assert_eq!(q.score, 30);
    assert_eq!(outcome, Outcome::Lower);
}

#[test]
fn engine_reports_game_over_and_restarts() {
    let p = Player {
        id: 4,
        name: "Bo".to_string(),
        score: 30,
        secret_value: 77,
        attempts_left: 0,
        created_at: 1,
        updated_at: None,
    };
    let (q, outcome) = apply_guess(p, 77, 210);
    assert_eq!(outcome, Outcome::GameOver);
    assert_eq!(q.attempts_left, 7);
    assert_eq!(q.secret_value, 8);
    assert_eq!(q.score, 30);
    assert_eq!(q.updated_at, Some(210));
}

#[test]
fn engine_win_scores_exactly_ten() {
    let p = Player {
        id: 4,
        name: "Bo".to_string(),
        score: 30,
        secret_value: 77,
        attempts_left: 2,
        created_at: 1,
        updated_at: None,
    };
    let (q, outcome) = apply_guess(p, 77, 210);
    assert_eq!(outcome, Outcome::Won);
    assert_eq!(q.score, 40);
    assert_eq!(q.attempts_left, 7);
}

#[test]
fn scenario_ana() {
    // Create "Ana": score 0, attempts 7.
    let mut svc = GameService::new();
    let ana = svc.add_player("Ana".to_string(), 7777).unwrap();
    assert_eq!(ana.score, 0);
    assert_eq!(ana.attempts_left, 7);
    // Guess 50 at now == 123: the secret is 123 % 101 == 22, so the guess is
    // wrong; the response carries a non-empty clue and one attempt is gone.
    let first = svc.play_game(ana.id, 50, 123).unwrap();
    assert!(!first.clue.is_empty());
    assert_eq!(first.attempts_left, 6);
    // Six more wrong guesses spend the budget...
    for _ in 0..6 {
        svc.play_game(ana.id, 50, 123).unwrap();
    }
    // ...and the call after the seventh wrong guess signals game over and
    // resets the attempts to 7.
    let over = svc.play_game(ana.id, 50, 123);
    assert!(matches!(over, Err(Error::NotFound { .. })));
    assert_eq!(svc.get_player(ana.id).unwrap().attempts_left, 7);
    // Deleting a fresh id that was never created answers NotFound.
    let r = svc.delete_player(555);
    assert!(matches!(r, Err(Error::NotFound { .. })));
}
