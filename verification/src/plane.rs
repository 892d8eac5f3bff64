//! A plane: one player-controlled entity, with its pilot, its connection
//! status and the match it has joined.
//!
//! A plane decides the legality of its own transitions. The membership
//! list of a match is kept by the registry, which a plane asks when it
//! joins; leaving a match or disconnecting changes the plane alone and
//! leaves that list as it is.

use crate::error::GameError;
use crate::game_state::{GameState, GameStateView};
use crate::ids::{is_random_uuid, MatchId, PlaneId, UserId};
use vstd::prelude::*;

verus! {

/// One player-controlled entity.
#[derive(Debug)]
pub struct Plane {
    id: PlaneId,
    name: String,
    pilot_id: Option<UserId>,
    joined_match_id: Option<MatchId>,
    online: bool,
    is_joined: bool,
    is_disqualified: bool,
    hits: u16,
    hits_taken: u16,
}

/// What a plane is, as a mathematical value.
pub struct PlaneView {
    pub id: PlaneId,
    pub name: Seq<char>,
    pub pilot_id: Option<UserId>,
    pub joined_match_id: Option<MatchId>,
    pub online: bool,
    pub is_joined: bool,
    pub is_disqualified: bool,
    pub hits: u16,
    pub hits_taken: u16,
}

impl PlaneView {
    /// The name is not empty, and the plane counts as joined exactly when
    /// it records the match it joined.
    pub open spec fn wf(self) -> bool {
        &&& self.name.len() > 0
        &&& self.is_joined <==> self.joined_match_id is Some
    }

    /// What constructing a plane gives: a plane that is offline, in no
    /// match, not disqualified and without hits, unless the name is empty.
    pub open spec fn create(id: PlaneId, name: Seq<char>, pilot_id: Option<UserId>) -> Result<
        PlaneView,
        GameError,
    > {
        if name.len() == 0 {
            Err(GameError::InvalidArgument)
        } else {
            Ok(
                PlaneView {
                    id,
                    name,
                    pilot_id,
                    joined_match_id: None,
                    online: false,
                    is_joined: false,
                    is_disqualified: false,
                    hits: 0,
                    hits_taken: 0,
                },
            )
        }
    }

    /// The plane once it is online.
    pub open spec fn register(self) -> PlaneView {
        PlaneView { online: true, ..self }
    }

    /// The plane once it is offline, which also takes it out of its match.
    pub open spec fn disconnect(self) -> PlaneView {
        PlaneView { online: false, is_joined: false, joined_match_id: None, ..self }
    }

    /// The plane once it has joined `match_id`.
    pub open spec fn joined(self, match_id: MatchId) -> PlaneView {
        PlaneView { is_joined: true, joined_match_id: Some(match_id), ..self }
    }

    /// What joining the match `match_id` of `registry` gives: the plane
    /// joined and the registry with the plane among the members of the
    /// match, `AlreadyJoined` for a plane that is in a match, or the
    /// refusal of the registry.
    pub open spec fn join_match(self, registry: GameStateView, match_id: MatchId) -> Result<
        (PlaneView, GameStateView),
        GameError,
    > {
        if self.is_joined {
            Err(GameError::AlreadyJoined)
        } else {
            match registry.add_plane_to_match(match_id, self.id) {
                Ok(after) => Ok((self.joined(match_id), after)),
                Err(e) => Err(e),
            }
        }
    }

    /// The plane once it is in no match.
    pub open spec fn leave_match(self) -> PlaneView {
        PlaneView { is_joined: false, joined_match_id: None, ..self }
    }

    /// What assigning the pilot `pilot_id` gives. A plane that has a pilot
    /// refuses a second one, and a plane in a match refuses any.
    pub open spec fn set_pilot(self, pilot_id: UserId) -> Result<PlaneView, GameError> {
        if self.pilot_id is Some {
            Err(GameError::AlreadyLinked)
        } else if self.is_joined {
            Err(GameError::InvalidState)
        } else {
            Ok(PlaneView { pilot_id: Some(pilot_id), ..self })
        }
    }

    /// What removing the pilot gives. A plane in a match refuses; a plane
    /// without a pilot stays as it is.
    pub open spec fn reset_pilot(self) -> Result<PlaneView, GameError> {
        if self.is_joined {
            Err(GameError::InvalidState)
        } else {
            Ok(PlaneView { pilot_id: None, ..self })
        }
    }
}

impl View for Plane {
    type V = PlaneView;

    closed spec fn view(&self) -> PlaneView {
        PlaneView {
            id: self.id,
            name: self.name@,
            pilot_id: self.pilot_id,
            joined_match_id: self.joined_match_id,
            online: self.online,
            is_joined: self.is_joined,
            is_disqualified: self.is_disqualified,
            hits: self.hits,
            hits_taken: self.hits_taken,
        }
    }
}

impl Plane {
    /// Constructs a plane under a freshly drawn identifier. An empty name
    /// is refused before any identifier is drawn.
    pub fn new(name: String, pilot_id: Option<UserId>) -> (r: Result<Plane, GameError>)
        ensures
            name@.len() == 0 ==> r is Err && r->Err_0 == GameError::InvalidArgument,
            name@.len() > 0 ==> {
                &&& r is Ok
                &&& PlaneView::create(r->Ok_0@.id, name@, pilot_id) == Ok::<_, GameError>(r->Ok_0@)
                &&& r->Ok_0@.wf()
                &&& is_random_uuid(r->Ok_0@.id.value)
            },
    {
        if name.as_str().is_empty() {
            return Err(GameError::InvalidArgument);
        }
        Plane::with_id(PlaneId::generate(), name, pilot_id)
    }

    /// Constructs a plane under the identifier `id`.
    pub fn with_id(id: PlaneId, name: String, pilot_id: Option<UserId>) -> (r: Result<
        Plane,
        GameError,
    >)
        ensures
            match PlaneView::create(id, name@, pilot_id) {
                Ok(view) => r is Ok && r->Ok_0@ == view && view.wf(),
                Err(e) => r is Err && r->Err_0 == e,
            },
    {
        if name.as_str().is_empty() {
            return Err(GameError::InvalidArgument);
        }
        Ok(
            Plane {
                id,
                name,
                pilot_id,
                joined_match_id: None,
                online: false,
                is_joined: false,
                is_disqualified: false,
                hits: 0,
                hits_taken: 0,
            },
        )
    }

    /// The identifier of the plane.
    pub fn id(&self) -> (id: PlaneId)
        ensures
            id == self@.id,
    {
        self.id
    }

    /// The display name of the plane, which never changes.
    pub fn name(&self) -> (name: &str)
        ensures
            name@ == self@.name,
    {
        self.name.as_str()
    }

    /// The user who pilots the plane, if any.
    pub fn pilot_id(&self) -> (pilot_id: Option<UserId>)
        ensures
            pilot_id == self@.pilot_id,
    {
        self.pilot_id
    }

    /// The match that the plane has joined, if any.
    pub fn joined_match_id(&self) -> (joined_match_id: Option<MatchId>)
        ensures
            joined_match_id == self@.joined_match_id,
    {
        self.joined_match_id
    }

    /// Whether the plane is online.
    pub fn online(&self) -> (online: bool)
        ensures
            online == self@.online,
    {
        self.online
    }

    /// Whether the plane is in a match.
    pub fn is_joined(&self) -> (is_joined: bool)
        ensures
            is_joined == self@.is_joined,
    {
        self.is_joined
    }

    /// Whether the plane is disqualified.
    pub fn is_disqualified(&self) -> (is_disqualified: bool)
        ensures
            is_disqualified == self@.is_disqualified,
    {
        self.is_disqualified
    }

    /// The number of hits that the plane has scored.
    pub fn hits(&self) -> (hits: u16)
        ensures
            hits == self@.hits,
    {
        self.hits
    }

    /// The number of hits that the plane has taken.
    pub fn hits_taken(&self) -> (hits_taken: u16)
        ensures
            hits_taken == self@.hits_taken,
    {
        self.hits_taken
    }

    /// Marks the plane as online.
    pub fn register(&mut self)
        ensures
            final(self)@ == old(self)@.register(),
            old(self)@.wf() ==> final(self)@.wf(),
    {
        self.online = true;
    }

    /// Marks the plane as offline and takes it out of its match. The
    /// membership list of that match is not touched.
    pub fn disconnect(&mut self)
        ensures
            final(self)@ == old(self)@.disconnect(),
            old(self)@.wf() ==> final(self)@.wf(),
    {
        self.online = false;
        self.is_joined = false;
        self.joined_match_id = None;
    }

    /// Adds the plane to the match `match_id` of `state` and records the
    /// match on the plane. Where the plane is in a match already, or the
    /// registry refuses, neither the plane nor the registry changes.
    pub fn join_match(&mut self, state: &mut GameState, match_id: MatchId) -> (r: Result<
        (),
        GameError,
    >)
        ensures
            match old(self)@.join_match(old(state)@, match_id) {
                Ok((plane, registry)) => {
                    &&& r is Ok
                    &&& final(self)@ == plane
                    &&& final(state)@ == registry
                },
                Err(e) => {
                    &&& r == Err::<(), _>(e)
                    &&& final(self)@ == old(self)@
                    &&& final(state)@ == old(state)@
                },
            },
            old(self)@.wf() ==> final(self)@.wf(),
            old(state)@.wf() ==> final(state)@.wf(),
            old(state)@.index_consistent() ==> final(state)@.index_consistent(),
    {
        if self.is_joined {
            return Err(GameError::AlreadyJoined);
        }
        match state.add_plane_to_match(match_id, self.id) {
            Ok(()) => {
                self.is_joined = true;
                self.joined_match_id = Some(match_id);
                Ok(())
            },
            Err(e) => Err(e),
        }
    }

    /// Takes the plane out of its match. The membership list of that match
    /// is not touched.
    pub fn leave_match(&mut self)
        ensures
            final(self)@ == old(self)@.leave_match(),
            old(self)@.wf() ==> final(self)@.wf(),
    {
        self.is_joined = false;
        self.joined_match_id = None;
    }

    /// Assigns a pilot to a plane that has none and is in no match.
    pub fn set_pilot(&mut self, pilot_id: UserId) -> (r: Result<(), GameError>)
        ensures
            match old(self)@.set_pilot(pilot_id) {
                Ok(view) => r is Ok && final(self)@ == view,
                Err(e) => r == Err::<(), _>(e) && final(self)@ == old(self)@,
            },
            old(self)@.wf() ==> final(self)@.wf(),
    {
        if self.pilot_id.is_some() {
            return Err(GameError::AlreadyLinked);
        }
        if self.is_joined {
            return Err(GameError::InvalidState);
        }
        self.pilot_id = Some(pilot_id);
        Ok(())
    }

    /// Removes the pilot of a plane that is in no match.
    pub fn reset_pilot(&mut self) -> (r: Result<(), GameError>)
        ensures
            match old(self)@.reset_pilot() {
                Ok(view) => r is Ok && final(self)@ == view,
                Err(e) => r == Err::<(), _>(e) && final(self)@ == old(self)@,
            },
            old(self)@.is_joined ==> r is Err && final(self)@.pilot_id == old(self)@.pilot_id,
            !old(self)@.is_joined ==> r is Ok && final(self)@.pilot_id is None,
            old(self)@.wf() ==> final(self)@.wf(),
    {
        if self.is_joined {
            return Err(GameError::InvalidState);
        }
        self.pilot_id = None;
        Ok(())
    }
}

} // verus!
