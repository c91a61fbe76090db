use vstd::prelude::*;

use crate::player::{Player, PlayerView};

verus! {

/// How a guess came out: a directional clue, a win, or the signal that the
/// round had already exhausted its attempts.
#[derive(Clone, Copy, Debug, PartialEq, Eq, Structural)]
pub enum Outcome {
    Won,
    Higher,
    Lower,
    GameOver,
}

/// The pseudo-random secret drawn for a round: the current wall-clock time
/// modulo 101, an inclusive draw from [0, 100].
pub open spec fn draw_secret(now: u64) -> u64 {
    now % 101
}

/// Step one of a guess: a player whose round was never started (sentinel
/// secret of 0) gets a fresh secret and a full attempts budget; anyone else is
/// left alone.
pub open spec fn initialized(p: PlayerView, now: u64) -> PlayerView {
    if p.secret_value == 0 {
        PlayerView { secret_value: draw_secret(now), attempts_left: 7, ..p }
    } else {
        p
    }
}

/// The round state machine, applied to a player whose round is initialized.
/// An exhausted round restarts fresh; a correct guess scores ten and restarts;
/// a wrong guess costs one attempt and changes nothing else.
pub open spec fn step_player(p: PlayerView, guess: u64, now: u64) -> PlayerView {
    if p.attempts_left == 0 {
        PlayerView { attempts_left: 7, secret_value: draw_secret(now), updated_at: Some(now), ..p }
    } else if guess == p.secret_value {
        PlayerView {
            score: (p.score + 10) as u64,
            attempts_left: 7,
            secret_value: draw_secret(now),
            updated_at: Some(now),
            ..p
        }
    } else {
        PlayerView { attempts_left: (p.attempts_left - 1) as u64, ..p }
    }
}

/// The player produced by one guess, initialization included.
pub open spec fn guess_player(p: PlayerView, guess: u64, now: u64) -> PlayerView {
    step_player(initialized(p, now), guess, now)
}

/// The outcome reported for one guess, initialization included.
pub open spec fn guess_outcome(p: PlayerView, guess: u64, now: u64) -> Outcome {
    let q = initialized(p, now);
    if q.attempts_left == 0 {
        Outcome::GameOver
    } else if guess == q.secret_value {
        Outcome::Won
    } else if guess < q.secret_value {
        Outcome::Higher
    } else {
        Outcome::Lower
    }
}

/// Applies one guess to a player and reports how it came out. Pure: the
/// caller persists the returned player.
pub fn apply_guess(player: Player, guess: u64, now: u64) -> (r: (Player, Outcome))
    requires
        guess_outcome(player@, guess, now) == Outcome::Won ==> player.score + 10 <= u64::MAX,
    ensures
        r.0@ == guess_player(player@, guess, now),
        r.1 == guess_outcome(player@, guess, now),
{
    let mut p = player;
    if p.secret_value == 0 {
        p.secret_value = now % 101;
        p.attempts_left = 7;
    }
    if p.attempts_left == 0 {
        p.updated_at = Some(now);
        p.attempts_left = 7;
        p.secret_value = now % 101;
        (p, Outcome::GameOver)
    } else if guess == p.secret_value {
        p.score = p.score + 10;
        p.updated_at = Some(now);
        p.attempts_left = 7;
        p.secret_value = now % 101;
        (p, Outcome::Won)
    } else if guess < p.secret_value {
        p.attempts_left = p.attempts_left - 1;
        (p, Outcome::Higher)
    } else {
        p.attempts_left = p.attempts_left - 1;
        (p, Outcome::Lower)
    }
}

/// Law: the first guess of a player whose round was never started draws a
/// secret in [0, 100] and restores the full attempts budget before the guess
/// is judged, and never signals game over.
pub proof fn lemma_first_guess_initializes(p: PlayerView, guess: u64, now: u64)
    requires
        p.secret_value == 0,
    ensures
        initialized(p, now).secret_value == draw_secret(now),
        draw_secret(now) <= 100,
        initialized(p, now).attempts_left == 7,
        guess_player(p, guess, now) == step_player(initialized(p, now), guess, now),
        guess_outcome(p, guess, now) != Outcome::GameOver,
{
}

/// Law: a wrong guess in a live round costs exactly one attempt, keeps the
/// score and the secret, and answers with the direction of the secret.
pub proof fn lemma_wrong_guess_decrements(p: PlayerView, guess: u64, now: u64)
    requires
        p.secret_value != 0,
        p.attempts_left > 0,
        guess != p.secret_value,
    ensures
        guess_player(p, guess, now).attempts_left == p.attempts_left - 1,
        guess_player(p, guess, now).score == p.score,
        guess_player(p, guess, now).secret_value == p.secret_value,
        guess_outcome(p, guess, now) == (if guess < p.secret_value {
            Outcome::Higher
        } else {
            Outcome::Lower
        }),
{
}

/// Law: once a round has exhausted its attempts, the next guess signals game
/// over and starts a fresh round with a full budget and a new secret; the
/// score is kept.
pub proof fn lemma_exhausted_resets(p: PlayerView, guess: u64, now: u64)
    requires
        p.secret_value != 0,
        p.attempts_left == 0,
    ensures
        guess_outcome(p, guess, now) == Outcome::GameOver,
        guess_player(p, guess, now).attempts_left == 7,
        guess_player(p, guess, now).secret_value == draw_secret(now),
        guess_player(p, guess, now).score == p.score,
{
}

/// Law: a correct guess in a live round raises the score by exactly ten and
/// restarts the round with a full budget and a fresh secret.
pub proof fn lemma_win_scores(p: PlayerView, guess: u64, now: u64)
    requires
        p.secret_value != 0,
        p.attempts_left > 0,
        guess == p.secret_value,
        p.score + 10 <= u64::MAX,
    ensures
        guess_outcome(p, guess, now) == Outcome::Won,
        guess_player(p, guess, now).score == p.score + 10,
        guess_player(p, guess, now).attempts_left == 7,
{
}

} // verus!
