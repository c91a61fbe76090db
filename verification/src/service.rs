use vstd::prelude::*;

use crate::codec::{decode_player, encode_player, encode_spec};
use crate::engine::{apply_guess, guess_outcome, guess_player, Outcome};
use crate::player::{project, public_of, Error, Player, PlayerView, PublicPlayer};
use crate::storage::{
    counter_get, counter_set, new_durable_store, raw_get, raw_insert, raw_remove, store_counter,
    store_entries, DurableStore,
};

verus! {

/// The guessing-game service: the durable player record store, the id
/// allocator over it, and the round engine applied to stored records.
pub struct GameService {
    store: DurableStore,
    model: Ghost<Map<u64, PlayerView>>,
    counter: Ghost<u64>,
}

/// The record a fresh player starts with: nothing scored, no round begun
/// (sentinel secret), a full attempts budget, never updated.
pub open spec fn new_player_view(id: u64, name: Seq<char>, now: u64) -> PlayerView {
    PlayerView {
        id,
        name,
        score: 0,
        secret_value: 0,
        attempts_left: 7,
        created_at: now,
        updated_at: None,
    }
}

/// A record after its score is overwritten at time `now`.
pub open spec fn set_score_view(p: PlayerView, score: u64, now: u64) -> PlayerView {
    PlayerView { score, updated_at: Some(now), ..p }
}

/// The clue text reported for an outcome. The game-over signal is reported as
/// an error, not a clue.
pub open spec fn clue_of(o: Outcome) -> Seq<char> {
    match o {
        Outcome::Won => "Congratulations! You've guessed the number! A new game has started."@,
        Outcome::Higher => "The secret number is higher than your guess."@,
        Outcome::Lower => "The secret number is lower than your guess."@,
        Outcome::GameOver => Seq::<char>::empty(),
    }
}

/// Law: once a player is deleted, looking the same id up finds nothing, until
/// a new record is stored under that id.
pub proof fn lemma_delete_then_get(players: Map<u64, PlayerView>, id: u64)
    ensures
        !players.remove(id).dom().contains(id),
{
}

impl GameService {
    /// The stored players, by id.
    pub closed spec fn players(&self) -> Map<u64, PlayerView> {
        self.model@
    }

    /// The id the allocator hands out next.
    pub closed spec fn next_id(&self) -> u64 {
        self.counter@
    }

    /// Well-formedness: the ghost map mirrors the durable record map, every
    /// stored image is the encoding of its player, and every player sits
    /// under its own id.
    pub closed spec fn wf(&self) -> bool {
        &&& self.counter@ == store_counter(self.store)
        &&& forall|id: u64| #[trigger]
            store_entries(self.store).dom().contains(id) ==> self.model@.dom().contains(id)
        &&& forall|id: u64| #[trigger]
            self.model@.dom().contains(id) ==> store_entries(self.store).dom().contains(id)
        &&& forall|id: u64| #[trigger]
            self.model@.dom().contains(id) ==> store_entries(self.store)[id] == encode_spec(
                self.model@[id],
            ) && self.model@[id].id == id
    }

    /// Starts the service over the durable regions, taking over whatever
    /// records they already hold.
    pub fn new() -> (s: GameService)
        ensures
            s.wf(),
    {
        let store = new_durable_store();
        let ghost m = Map::<u64, PlayerView>::new(
            |id: u64| store_entries(store).dom().contains(id),
            |id: u64|
                choose|p: PlayerView| store_entries(store)[id] == encode_spec(p) && p.id == id,
        );
        let s = GameService { store, model: Ghost(m), counter: Ghost(store_counter(store)) };
        proof {
            assert forall|id: u64| #[trigger] s.model@.dom().contains(id) implies store_entries(
                s.store,
            )[id] == encode_spec(s.model@[id]) && s.model@[id].id == id by {
                assert(exists|p: PlayerView|
                    store_entries(store)[id] == encode_spec(p) && p.id == id);
            }
        }
        s
    }

    /// Fetches the full stored record under an id, or nothing. Reads only.
    pub fn _get_player(&self, id: u64) -> (r: Option<Player>)
        requires
            self.wf(),
        ensures
            r matches Some(p) ==> self.players().dom().contains(id) && p@ == self.players()[id],
            r is None ==> !self.players().dom().contains(id),
    {
        match raw_get(&self.store, id) {
            Some(bytes) => {
                proof {
                    assert(bytes@ == encode_spec(self.model@[id]));
                }
                Some(decode_player(&bytes))
            },
            None => None,
        }
    }

    /// Stores a record under its own id, replacing any previous one: the
    /// idempotent, last-write-wins upsert of the record store.
    pub fn do_insert(&mut self, player: &Player)
        requires
            old(self).wf(),
        ensures
            final(self).wf(),
            final(self).players() == old(self).players().insert(player.id, player@),
            final(self).next_id() == old(self).next_id(),
    {
        let bytes = encode_player(player);
        raw_insert(&mut self.store, player.id, bytes);
        self.model = Ghost(self.model@.insert(player.id, player@));
        proof {
            assert forall|i: u64| #[trigger] self.model@.dom().contains(i) implies store_entries(
                self.store,
            )[i] == encode_spec(self.model@[i]) && self.model@[i].id == i by {}
        }
    }

    /// Allocates a fresh id, stores a new player under it, and answers with
    /// the visible projection (no clue). Fails only when the id space is
    /// spent, which the allocator's durable counter makes impossible to
    /// recover from.
    pub fn add_player(&mut self, name: String, now: u64) -> (r: Option<PublicPlayer>)
        requires
            old(self).wf(),
        ensures
            final(self).wf(),
            old(self).next_id() < u64::MAX ==> (r matches Some(pp) && pp@ == public_of(
                new_player_view(old(self).next_id(), name@, now),
                Seq::<char>::empty(),
            ) && final(self).players() == old(self).players().insert(
                old(self).next_id(),
                new_player_view(old(self).next_id(), name@, now),
            ) && final(self).next_id() == old(self).next_id() + 1),
            old(self).next_id() == u64::MAX ==> (r is None && final(self).players() == old(
                self,
            ).players() && final(self).next_id() == old(self).next_id()),
    {
        let id = counter_get(&self.store);
        if id == u64::MAX {
            return None;
        }
        counter_set(&mut self.store, id + 1);
        self.counter = Ghost((id + 1) as u64);
        let player = Player {
            id,
            name,
            score: 0,
            secret_value: 0,
            attempts_left: 7,
            created_at: now,
            updated_at: None,
        };
        self.do_insert(&player);
        Some(project(&player, String::new()))
    }

    /// Answers the visible projection of a stored player, with no clue.
    /// Reads only: asking twice answers alike.
    pub fn get_player(&self, id: u64) -> (r: Result<PublicPlayer, Error>)
        requires
            self.wf(),
        ensures
            r matches Ok(pp) ==> self.players().dom().contains(id) && pp@ == public_of(
                self.players()[id],
                Seq::<char>::empty(),
            ),
            r matches Err(e) ==> !self.players().dom().contains(id) && (e matches Error::NotFound {
                msg,
            } && msg@ == "A player with the given id was not found"@),
    {
        match self._get_player(id) {
            Some(player) => Ok(project(&player, String::new())),
            None => Err(
                Error::NotFound { msg: "A player with the given id was not found".to_owned() },
            ),
        }
    }

    /// Overwrites a stored player's score unconditionally and stamps the
    /// update time; answers the visible projection with no clue.
    pub fn update_score(&mut self, id: u64, score: u64, now: u64) -> (r: Result<
        PublicPlayer,
        Error,
    >)
        requires
            old(self).wf(),
        ensures
            final(self).wf(),
            final(self).next_id() == old(self).next_id(),
            r matches Ok(pp) ==> old(self).players().dom().contains(id) && final(self).players()
                == old(self).players().insert(
                id,
                set_score_view(old(self).players()[id], score, now),
            ) && pp@ == public_of(
                set_score_view(old(self).players()[id], score, now),
                Seq::<char>::empty(),
            ),
            r matches Err(e) ==> !old(self).players().dom().contains(id) && final(self).players()
                == old(self).players() && (e matches Error::NotFound { msg } && msg@
                == "Could not update the score: no player with the given id"@),
    {
        match self._get_player(id) {
            Some(mut player) => {
                player.score = score;
                player.updated_at = Some(now);
                self.do_insert(&player);
                Ok(project(&player, String::new()))
            },
            None => Err(
                Error::NotFound {
                    msg: "Could not update the score: no player with the given id".to_owned(),
                },
            ),
        }
    }

    /// Removes a stored player and answers the full record, secret included;
    /// the id is never handed out again.
    pub fn delete_player(&mut self, id: u64) -> (r: Result<Player, Error>)
        requires
            old(self).wf(),
        ensures
            final(self).wf(),
            final(self).next_id() == old(self).next_id(),
            r matches Ok(p) ==> old(self).players().dom().contains(id) && p@ == old(
                self,
            ).players()[id] && final(self).players() == old(self).players().remove(id),
            r matches Err(e) ==> !old(self).players().dom().contains(id) && final(self).players()
                == old(self).players() && (e matches Error::NotFound { msg } && msg@
                == "Could not delete: no player with the given id"@),
    {
        match raw_remove(&mut self.store, id) {
            Some(bytes) => {
                proof {
                    assert(bytes@ == encode_spec(old(self).model@[id]));
                }
                self.model = Ghost(self.model@.remove(id));
                let player = decode_player(&bytes);
                proof {
                    assert forall|i: u64| #[trigger]
                        self.model@.dom().contains(i) implies store_entries(self.store)[i]
                        == encode_spec(self.model@[i]) && self.model@[i].id == i by {}
                }
                Ok(player)
            },
            None => Err(
                Error::NotFound { msg: "Could not delete: no player with the given id".to_owned() },
            ),
        }
    }

    /// Applies one guess to a stored player: lazily starts the round, judges
    /// the guess, persists the moved round, and answers the projection with a
    /// clue — or the game-over signal when the round had no attempts left.
    pub fn play_game(&mut self, id: u64, guess: u64, now: u64) -> (r: Result<PublicPlayer, Error>)
        requires
            old(self).wf(),
            old(self).players().dom().contains(id) && guess_outcome(
                old(self).players()[id],
                guess,
                now,
            ) == Outcome::Won ==> old(self).players()[id].score + 10 <= u64::MAX,
        ensures
            final(self).wf(),
            final(self).next_id() == old(self).next_id(),
            !old(self).players().dom().contains(id) ==> (final(self).players() == old(
                self,
            ).players() && (r matches Err(e) && e matches Error::NotFound { msg } && msg@
                == "No player with the given id, and no clue available"@)),
            old(self).players().dom().contains(id) ==> final(self).players() == old(
                self,
            ).players().insert(id, guess_player(old(self).players()[id], guess, now)),
            old(self).players().dom().contains(id) && guess_outcome(
                old(self).players()[id],
                guess,
                now,
            ) == Outcome::GameOver ==> (r matches Err(e) && e matches Error::NotFound { msg }
                && msg@ == "Game over! No attempts were left; a fresh round has begun"@),
            old(self).players().dom().contains(id) && guess_outcome(
                old(self).players()[id],
                guess,
                now,
            ) != Outcome::GameOver ==> (r matches Ok(pp) && pp@ == public_of(
                guess_player(old(self).players()[id], guess, now),
                clue_of(guess_outcome(old(self).players()[id], guess, now)),
            )),
    {
        match self._get_player(id) {
            Some(player) => {
                let (updated, outcome) = apply_guess(player, guess, now);
                proof {
                    assert(updated.id == id);
                }
                self.do_insert(&updated);
                match outcome {
                    Outcome::GameOver => Err(
                        Error::NotFound {
                            msg: "Game over! No attempts were left; a fresh round has begun"
                                .to_owned(),
                        },
                    ),
                    Outcome::Won => Ok(
                        project(
                            &updated,
                            "Congratulations! You've guessed the number! A new game has started."
                                .to_owned(),
                        ),
                    ),
                    Outcome::Higher => Ok(
                        project(&updated, "The secret number is higher than your guess.".to_owned()),
                    ),
                    Outcome::Lower => Ok(
                        project(&updated, "The secret number is lower than your guess.".to_owned()),
                    ),
                }
            },
            None => Err(
                Error::NotFound {
                    msg: "No player with the given id, and no clue available".to_owned(),
                },
            ),
        }
    }
}

} // verus!
