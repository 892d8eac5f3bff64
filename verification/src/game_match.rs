//! A match: one game round, the planes that take part in it, and its
//! lifecycle state.
//!
//! A match holds its data and guards its membership against duplicates.
//! Whether a plane may be added, and whether the state may change, is
//! decided by the registry that owns the match.

use crate::ids::{is_random_uuid, MatchId, PlaneId};
use vstd::prelude::*;

verus! {

/// The lifecycle state of a match.
#[derive(Clone, Copy, Debug, PartialEq, Eq, Structural)]
pub enum MatchState {
    /// Created, gathering planes.
    Waiting,
    /// Being played.
    Active,
    /// Over.
    Ended,
}

/// One game round.
#[derive(Debug)]
pub struct Match {
    id: MatchId,
    planes: Vec<PlaneId>,
    start_time: u64,
    duration: u64,
    state: MatchState,
}

/// What a match is, as a mathematical value.
pub struct MatchView {
    pub id: MatchId,
    /// The participating planes, in the order in which they were added.
    pub planes: Seq<PlaneId>,
    /// The time at which the match started.
    pub start_time: u64,
    /// The time span of the match, in whole seconds.
    pub duration: u64,
    pub state: MatchState,
}

impl MatchView {
    /// No plane takes part twice.
    pub open spec fn wf(self) -> bool {
        self.planes.no_duplicates()
    }

    /// The match as it is created: waiting, without planes, at time zero
    /// and of no duration.
    pub open spec fn fresh(id: MatchId) -> MatchView {
        MatchView {
            id,
            planes: Seq::empty(),
            start_time: 0,
            duration: 0,
            state: MatchState::Waiting,
        }
    }

    /// The match after `plane_id` was added: appended at the end where it
    /// was absent, the same match where it was present.
    pub open spec fn add_plane(self, plane_id: PlaneId) -> MatchView {
        if self.planes.contains(plane_id) {
            self
        } else {
            MatchView { planes: self.planes.push(plane_id), ..self }
        }
    }

    /// The match in another lifecycle state.
    pub open spec fn with_state(self, state: MatchState) -> MatchView {
        MatchView { state, ..self }
    }
}

impl View for Match {
    type V = MatchView;

    closed spec fn view(&self) -> MatchView {
        MatchView {
            id: self.id,
            planes: self.planes@,
            start_time: self.start_time,
            duration: self.duration,
            state: self.state,
        }
    }
}

impl Match {
    /// A waiting match without planes, under a freshly drawn identifier.
    pub fn new() -> (m: Match)
        ensures
            m@ == MatchView::fresh(m@.id),
            m@.wf(),
            is_random_uuid(m@.id.value),
    {
        Match::with_id(MatchId::generate())
    }

    /// A waiting match without planes, under the identifier `id`.
    pub fn with_id(id: MatchId) -> (m: Match)
        ensures
            m@ == MatchView::fresh(id),
            m@.wf(),
    {
        Match { id, planes: Vec::new(), start_time: 0, duration: 0, state: MatchState::Waiting }
    }

    /// The identifier of the match.
    pub fn id(&self) -> (id: MatchId)
        ensures
            id == self@.id,
    {
        self.id
    }

    /// The participating planes, in the order in which they were added.
    pub fn planes(&self) -> (planes: &Vec<PlaneId>)
        ensures
            planes@ == self@.planes,
    {
        &self.planes
    }

    /// The time at which the match started; zero until it is set.
    pub fn start_time(&self) -> (start_time: u64)
        ensures
            start_time == self@.start_time,
    {
        self.start_time
    }

    /// The time span of the match, in whole seconds; zero until it is set.
    pub fn duration(&self) -> (duration: u64)
        ensures
            duration == self@.duration,
    {
        self.duration
    }

    /// The lifecycle state of the match.
    pub fn state(&self) -> (state: MatchState)
        ensures
            state == self@.state,
    {
        self.state
    }

    /// Whether `plane_id` takes part in the match.
    pub fn has_plane(&self, plane_id: PlaneId) -> (found: bool)
        ensures
            found == self@.planes.contains(plane_id),
    {
        let mut i: usize = 0;
        while i < self.planes.len()
            invariant
                i <= self.planes.len(),
                forall|j: int| 0 <= j < i ==> self.planes@[j] != plane_id,
            decreases self.planes.len() - i,
        {
            if self.planes[i] == plane_id {
                return true;
            }
            i += 1;
        }
        false
    }

    /// Puts the match in the lifecycle state `state`. Which changes are
    /// legal is for the registry to decide.
    pub(crate) fn set_state(&mut self, state: MatchState)
        ensures
            final(self)@ == old(self)@.with_state(state),
            old(self)@.wf() ==> final(self)@.wf(),
    {
        self.state = state;
    }

    /// Adds `plane_id` to the match unless it already takes part.
    pub fn add_plane(&mut self, plane_id: PlaneId)
        ensures
            final(self)@ == old(self)@.add_plane(plane_id),
            old(self)@.wf() ==> final(self)@.wf(),
    {
        if !self.has_plane(plane_id) {
            self.planes.push(plane_id);
        }
    }
}

} // verus!
