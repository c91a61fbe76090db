use vstd::prelude::*;

verus! {

/// A stored player record. `secret_value == 0` is the sentinel for "no round
/// started yet"; a live round keeps its secret in [0, 100]. Since a freshly
/// drawn secret of 0 is indistinguishable from the sentinel, such a round is
/// silently re-initialized on the next guess.
pub struct Player {
    pub id: u64,
    pub name: String,
    pub score: u64,
    pub secret_value: u64,
    pub attempts_left: u64,
    pub created_at: u64,
    pub updated_at: Option<u64>,
}

/// The mathematical image of a stored player record.
pub ghost struct PlayerView {
    pub id: u64,
    pub name: Seq<char>,
    pub score: u64,
    pub secret_value: u64,
    pub attempts_left: u64,
    pub created_at: u64,
    pub updated_at: Option<u64>,
}

impl View for Player {
    type V = PlayerView;

    open spec fn view(&self) -> PlayerView {
        PlayerView {
            id: self.id,
            name: self.name@,
            score: self.score,
            secret_value: self.secret_value,
            attempts_left: self.attempts_left,
            created_at: self.created_at,
            updated_at: self.updated_at,
        }
    }
}

/// What a caller may see of a player: everything but the secret value and the
/// timestamps, plus the clue of the guess being answered (empty elsewhere).
pub struct PublicPlayer {
    pub id: u64,
    pub name: String,
    pub score: u64,
    pub attempts_left: u64,
    pub clue: String,
}

/// The mathematical image of a visible player.
pub ghost struct PublicPlayerView {
    pub id: u64,
    pub name: Seq<char>,
    pub score: u64,
    pub attempts_left: u64,
    pub clue: Seq<char>,
}

impl View for PublicPlayer {
    type V = PublicPlayerView;

    open spec fn view(&self) -> PublicPlayerView {
        PublicPlayerView {
            id: self.id,
            name: self.name@,
            score: self.score,
            attempts_left: self.attempts_left,
            clue: self.clue@,
        }
    }
}

/// The single error kind the store raises: an operation named an id that holds
/// no player, or a guess arrived on a round that had already run out of
/// attempts.
#[derive(Debug)]
pub enum Error {
    NotFound { msg: String },
}

/// The visible projection of a player with a clue attached.
pub open spec fn public_of(p: PlayerView, clue: Seq<char>) -> PublicPlayerView {
    PublicPlayerView { id: p.id, name: p.name, score: p.score, attempts_left: p.attempts_left, clue: clue }
}

/// Builds the caller-visible projection of `player`, embedding `clue`.
/// The secret value and the timestamps never reach the result.
pub fn project(player: &Player, clue: String) -> (r: PublicPlayer)
    ensures
        r@ == public_of(player@, clue@),
{
    PublicPlayer {
        id: player.id,
        name: player.name.clone(),
        score: player.score,
        attempts_left: player.attempts_left,
        clue,
    }
}

} // verus!
