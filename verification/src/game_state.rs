//! The registry of a session: every match, plane and user under its
//! identifier, and the index of the matches that are being played.
//!
//! The registry is the only component that changes the membership or the
//! lifecycle state of a match, and it keeps the index of active matches in
//! step with the states of the matches on every such change.

use crate::error::GameError;
use crate::game_match::{Match, MatchState, MatchView};
use crate::ids::{MatchId, PlaneId, UserId};
use crate::plane::{Plane, PlaneView};
use crate::user::{User, UserView};
use std::collections::hash_map::Entry;
use std::collections::{HashMap, HashSet};
use vstd::prelude::*;
use vstd::std_specs::hash::spec_hash_keys_iter;
use vstd::std_specs::iter::IteratorSpec;

verus! {

broadcast use vstd::std_specs::hash::group_hash_axioms;

/// The registry of a session.
#[derive(Debug)]
pub struct GameState {
    matches: HashMap<u128, Match>,
    ongoing_matches: HashSet<u128>,
    planes: HashMap<u128, Plane>,
    users: HashMap<u128, User>,
}

/// What a registry is, as a mathematical value.
pub struct GameStateView {
    pub matches: Map<MatchId, MatchView>,
    /// The index of the matches that are being played.
    pub ongoing: Set<MatchId>,
    pub planes: Map<PlaneId, PlaneView>,
    pub users: Map<UserId, UserView>,
}

impl GameStateView {
    /// The registry without any entity.
    pub open spec fn empty() -> GameStateView {
        GameStateView {
            matches: Map::empty(),
            ongoing: Set::empty(),
            planes: Map::empty(),
            users: Map::empty(),
        }
    }

    /// Every entity is filed under its own identifier and is well formed.
    pub open spec fn wf(self) -> bool {
        &&& forall|id: MatchId|
            #![trigger self.matches.contains_key(id)]
            #![trigger self.matches[id]]
            self.matches.contains_key(id) ==> self.matches[id].id == id && self.matches[id].wf()
        &&& forall|id: PlaneId|
            #![trigger self.planes.contains_key(id)]
            #![trigger self.planes[id]]
            self.planes.contains_key(id) ==> self.planes[id].id == id && self.planes[id].wf()
        &&& forall|id: UserId|
            #![trigger self.users.contains_key(id)]
            #![trigger self.users[id]]
            self.users.contains_key(id) ==> self.users[id].id == id
    }

    /// The index holds exactly the matches whose state is `Active`.
    pub open spec fn index_consistent(self) -> bool {
        forall|id: MatchId|
            #![trigger self.ongoing.contains(id)]
            #![trigger self.matches.contains_key(id)]
            #![trigger self.matches[id]]
            self.ongoing.contains(id) <==> (self.matches.contains_key(id) && self.matches[id].state
                == MatchState::Active)
    }

    /// The registry after it took in `m`: the match is filed under its
    /// identifier, in place of any match that was filed there, and enters
    /// the index if it is active.
    pub open spec fn create_match(self, m: MatchView) -> GameStateView {
        GameStateView {
            matches: self.matches.insert(m.id, m),
            ongoing: if m.state == MatchState::Active {
                self.ongoing.insert(m.id)
            } else {
                self.ongoing
            },
            ..self
        }
    }

    /// What putting the match `match_id` in the state `state` gives: the
    /// match changed and the index brought in step, or `NotFound`.
    pub open spec fn set_match_state(self, match_id: MatchId, state: MatchState) -> Result<
        GameStateView,
        GameError,
    > {
        if !self.matches.contains_key(match_id) {
            Err(GameError::NotFound)
        } else {
            Ok(
                GameStateView {
                    matches: self.matches.insert(
                        match_id,
                        self.matches[match_id].with_state(state),
                    ),
                    ongoing: if state == MatchState::Active {
                        self.ongoing.insert(match_id)
                    } else {
                        self.ongoing.remove(match_id)
                    },
                    ..self
                },
            )
        }
    }

    /// What adding the plane `plane_id` to the match `match_id` gives: the
    /// match with the plane among its members, `NotFound` for an unknown
    /// match, or `InvalidState` for a match that is active or has ended.
    pub open spec fn add_plane_to_match(self, match_id: MatchId, plane_id: PlaneId) -> Result<
        GameStateView,
        GameError,
    > {
        if !self.matches.contains_key(match_id) {
            Err(GameError::NotFound)
        } else if self.matches[match_id].state == MatchState::Active
            || self.matches[match_id].state == MatchState::Ended {
            Err(GameError::InvalidState)
        } else {
            Ok(
                GameStateView {
                    matches: self.matches.insert(
                        match_id,
                        self.matches[match_id].add_plane(plane_id),
                    ),
                    ..self
                },
            )
        }
    }
}

impl View for GameState {
    type V = GameStateView;

    closed spec fn view(&self) -> GameStateView {
        GameStateView {
            matches: Map::new(
                |id: MatchId| self.matches@.contains_key(id.value),
                |id: MatchId| self.matches@[id.value]@,
            ),
            ongoing: Set::new(|id: MatchId| self.ongoing_matches@.contains(id.value)),
            planes: Map::new(
                |id: PlaneId| self.planes@.contains_key(id.value),
                |id: PlaneId| self.planes@[id.value]@,
            ),
            users: Map::new(
                |id: UserId| self.users@.contains_key(id.value),
                |id: UserId| self.users@[id.value]@,
            ),
        }
    }
}

impl GameState {
    /// A registry without any entity.
    pub fn new() -> (state: GameState)
        ensures
            state@ == GameStateView::empty(),
            state@.wf(),
            state@.index_consistent(),
    {
        let state = GameState {
            matches: HashMap::new(),
            ongoing_matches: HashSet::new(),
            planes: HashMap::new(),
            users: HashMap::new(),
        };
        assert(state@.matches =~= Map::empty());
        assert(state@.ongoing =~= Set::empty());
        assert(state@.planes =~= Map::empty());
        assert(state@.users =~= Map::empty());
        state
    }

    /// Takes in the match `m` and returns its identifier. A match that was
    /// filed under the same identifier is replaced.
    pub fn create_match(&mut self, m: Match) -> (id: MatchId)
        ensures
            id == m@.id,
            final(self)@ == old(self)@.create_match(m@),
            old(self)@.wf() && m@.wf() ==> final(self)@.wf(),
            old(self)@.index_consistent() && (m@.state == MatchState::Active || !old(
                self,
            )@.ongoing.contains(m@.id)) ==> final(self)@.index_consistent(),
    {
        let id = m.id();
        if m.state() == MatchState::Active {
            self.ongoing_matches.insert(id.value);
        }
        self.matches.insert(id.value, m);
        assert(self@.matches =~= old(self)@.create_match(m@).matches);
        assert(self@.ongoing =~= old(self)@.create_match(m@).ongoing);
        id
    }

    /// Puts the match `match_id` in the state `new_state` and brings the
    /// index of active matches in step. No change of state is forbidden.
    pub fn set_match_state(&mut self, match_id: MatchId, new_state: MatchState) -> (r: Result<
        (),
        GameError,
    >)
        ensures
            match old(self)@.set_match_state(match_id, new_state) {
                Ok(view) => r is Ok && final(self)@ == view,
                Err(e) => r == Err::<(), _>(e) && final(self)@ == old(self)@,
            },
            old(self)@.wf() ==> final(self)@.wf(),
            old(self)@.index_consistent() ==> final(self)@.index_consistent(),
    {
        let found = match self.matches.entry(match_id.value) {
            Entry::Occupied(occupied) => {
                occupied.into_mut().set_state(new_state);
                true
            },
            Entry::Vacant(_) => false,
        };
        if !found {
            assert(self.matches@ =~= old(self).matches@);
            return Err(GameError::NotFound);
        }
        if new_state == MatchState::Active {
            self.ongoing_matches.insert(match_id.value);
        } else {
            self.ongoing_matches.remove(&match_id.value);
        }
        assert(self@.matches =~= old(self)@.set_match_state(match_id, new_state)->Ok_0.matches);
        assert(self@.ongoing =~= old(self)@.set_match_state(match_id, new_state)->Ok_0.ongoing);
        Ok(())
    }

    /// The identifiers of the matches that are being played, each once, in
    /// no particular order.
    pub fn list_ongoing_match_ids(&self) -> (ids: Vec<MatchId>)
        ensures
            ids@.to_set() == self@.ongoing,
            ids@.no_duplicates(),
            ids@.len() == self@.ongoing.len(),
            self@.index_consistent() ==> forall|id: MatchId|
                #![trigger ids@.contains(id)]
                #![trigger self@.matches.contains_key(id)]
                ids@.contains(id) <==> (self@.matches.contains_key(id) && self@.matches[id].state
                    == MatchState::Active),
    {
        let ghost keys = spec_hash_keys_iter(&self.ongoing_matches).remaining();
        let mut ids: Vec<MatchId> = Vec::new();
        for value in it: self.ongoing_matches.iter()
            invariant
                it.seq() == keys,
                ids@.len() == it.index(),
                forall|j: int| 0 <= j < ids@.len() ==> (#[trigger] ids@[j]).value == *keys[j],
        {
            ids.push(MatchId { value: *value });
        }
        proof {
            assert forall|id: MatchId| #[trigger]
                ids@.contains(id) == self@.ongoing.contains(id) by {
                if self@.ongoing.contains(id) {
                    assert(keys.unref().to_set().contains(id.value));
                    let j = choose|j: int| 0 <= j < keys.len() && keys.unref()[j] == id.value;
                    assert(ids@[j] == id);
                }
                if ids@.contains(id) {
                    let j = choose|j: int| 0 <= j < ids@.len() && ids@[j] == id;
                    assert(keys.unref()[j] == id.value);
                }
            }
            assert(ids@.to_set() =~= self@.ongoing);
            ids@.unique_seq_to_set();
        }
        ids
    }

    /// Adds the plane `plane_id` to the match `match_id`, which must be
    /// waiting. A plane that already takes part is not added again, and
    /// that is no error.
    pub fn add_plane_to_match(&mut self, match_id: MatchId, plane_id: PlaneId) -> (r: Result<
        (),
        GameError,
    >)
        ensures
            match old(self)@.add_plane_to_match(match_id, plane_id) {
                Ok(view) => r is Ok && final(self)@ == view,
                Err(e) => r == Err::<(), _>(e) && final(self)@ == old(self)@,
            },
            old(self)@.matches.contains_key(match_id) && (old(self)@.matches[match_id].state
                == MatchState::Active || old(self)@.matches[match_id].state == MatchState::Ended)
                ==> r == Err::<(), _>(GameError::InvalidState),
            old(self)@.wf() ==> final(self)@.wf(),
            old(self)@.index_consistent() ==> final(self)@.index_consistent(),
    {
        let r = match self.matches.entry(match_id.value) {
            Entry::Occupied(occupied) => {
                let m = occupied.into_mut();
                let state = m.state();
                if state == MatchState::Active || state == MatchState::Ended {
                    Err(GameError::InvalidState)
                } else {
                    m.add_plane(plane_id);
                    Ok(())
                }
            },
            Entry::Vacant(_) => Err(GameError::NotFound),
        };
        proof {
            if r is Ok {
                assert(self@.matches =~= old(self)@.add_plane_to_match(
                    match_id,
                    plane_id,
                )->Ok_0.matches);
            } else {
                assert(self.matches@ =~= old(self).matches@);
            }
        }
        r
    }

    /// The match filed under `match_id`, if there is one.
    pub fn get_match(&self, match_id: MatchId) -> (found: Option<&Match>)
        ensures
            match found {
                Some(m) => self@.matches.contains_key(match_id) && m@ == self@.matches[match_id],
                None => !self@.matches.contains_key(match_id),
            },
    {
        self.matches.get(&match_id.value)
    }
}

} // verus!
