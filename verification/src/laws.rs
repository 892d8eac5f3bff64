//! Laws of the session: what holds of every match, plane and registry
//! across the operations that change them.
//!
//! The laws are stated over the views and the transitions on views by
//! which the operations are specified, so each of them holds of the
//! executable operations as well.

use crate::error::GameError;
use crate::game_match::{MatchState, MatchView};
use crate::game_state::GameStateView;
use crate::ids::{MatchId, PlaneId, UserId};
use crate::plane::PlaneView;
use crate::user::UserView;
use vstd::prelude::*;

verus! {

/// Adding a plane to a match gives a match that has the plane among its
/// members and no member twice, keeps the earlier members in their places,
/// and changes nothing when it is done a second time.
pub proof fn lemma_match_add_plane(m: MatchView, plane_id: PlaneId)
    requires
        m.wf(),
    ensures
        m.add_plane(plane_id).wf(),
        m.add_plane(plane_id).planes.contains(plane_id),
        m.planes.is_prefix_of(m.add_plane(plane_id).planes),
        m.add_plane(plane_id).add_plane(plane_id) == m.add_plane(plane_id),
{
    let added = m.add_plane(plane_id);
    if !m.planes.contains(plane_id) {
        assert(added.planes[m.planes.len() as int] == plane_id);
    }
}

/// The registry without any entity is well formed, and its index of active
/// matches is consistent.
pub proof fn lemma_empty_registry()
    ensures
        GameStateView::empty().wf(),
        GameStateView::empty().index_consistent(),
{
}

/// Taking in a match keeps the index of active matches consistent, unless
/// the match is not active and replaces a match that the index holds.
pub proof fn lemma_create_match_keeps_index(registry: GameStateView, m: MatchView)
    requires
        registry.index_consistent(),
        m.state == MatchState::Active || !registry.ongoing.contains(m.id),
    ensures
        registry.create_match(m).index_consistent(),
{
}

/// Taking in a match that is not active in place of a match that the index
/// holds leaves the index inconsistent: the index still holds the
/// identifier.
pub proof fn lemma_create_match_over_active(registry: GameStateView, m: MatchView)
    requires
        registry.ongoing.contains(m.id),
        m.state != MatchState::Active,
    ensures
        !registry.create_match(m).index_consistent(),
{
    let after = registry.create_match(m);
    assert(after.ongoing.contains(m.id));
    assert(after.matches[m.id] == m);
}

/// Taking in a well-formed match keeps the registry well formed.
pub proof fn lemma_create_match_keeps_wf(registry: GameStateView, m: MatchView)
    requires
        registry.wf(),
        m.wf(),
    ensures
        registry.create_match(m).wf(),
{
}

/// Changing the state of a match keeps the registry well formed and the
/// index of active matches consistent, whatever the old and the new state
/// are, and the index then holds the match exactly if the new state is
/// `Active`.
pub proof fn lemma_set_match_state_keeps_invariants(
    registry: GameStateView,
    match_id: MatchId,
    state: MatchState,
)
    ensures
        registry.set_match_state(match_id, state) matches Ok(after) ==> {
            &&& registry.wf() ==> after.wf()
            &&& registry.index_consistent() ==> after.index_consistent()
            &&& after.ongoing.contains(match_id) <==> state == MatchState::Active
        },
        registry.set_match_state(match_id, state) is Err <==> !registry.matches.contains_key(
            match_id,
        ),
{
}

/// Adding a plane to a match keeps the registry well formed and the index
/// of active matches consistent.
pub proof fn lemma_add_plane_to_match_keeps_invariants(
    registry: GameStateView,
    match_id: MatchId,
    plane_id: PlaneId,
)
    ensures
        registry.add_plane_to_match(match_id, plane_id) matches Ok(after) ==> {
            &&& registry.wf() ==> after.wf()
            &&& registry.index_consistent() ==> after.index_consistent()
        },
{
    if registry.add_plane_to_match(match_id, plane_id) is Ok && registry.wf() {
        lemma_match_add_plane(registry.matches[match_id], plane_id);
    }
}

/// Adding a plane to a waiting match is idempotent: the first call
/// succeeds and leaves the plane among the members, which hold no plane
/// twice, and a second call with the same arguments succeeds and changes
/// nothing.
pub proof fn lemma_add_plane_to_match_idempotent(
    registry: GameStateView,
    match_id: MatchId,
    plane_id: PlaneId,
)
    requires
        registry.wf(),
        registry.matches.contains_key(match_id),
        registry.matches[match_id].state == MatchState::Waiting,
    ensures
        registry.add_plane_to_match(match_id, plane_id) matches Ok(once) && {
            &&& once.matches[match_id].planes.contains(plane_id)
            &&& once.matches[match_id].planes.no_duplicates()
            &&& once.add_plane_to_match(match_id, plane_id) == Ok::<_, GameError>(once)
        },
{
    let once = registry.add_plane_to_match(match_id, plane_id)->Ok_0;
    lemma_match_add_plane(registry.matches[match_id], plane_id);
    let twice = once.add_plane_to_match(match_id, plane_id)->Ok_0;
    assert(twice.matches =~= once.matches);
}

/// A match that is active or has ended refuses every plane, whether the
/// plane takes part in it or not.
pub proof fn lemma_add_plane_to_match_refused(
    registry: GameStateView,
    match_id: MatchId,
    plane_id: PlaneId,
)
    requires
        registry.matches.contains_key(match_id),
        registry.matches[match_id].state == MatchState::Active
            || registry.matches[match_id].state == MatchState::Ended,
    ensures
        registry.add_plane_to_match(match_id, plane_id) == Err::<GameStateView, _>(
            GameError::InvalidState,
        ),
{
}

/// On a plane that is in no match, assigning a pilot and then removing the
/// pilot leaves the plane without a pilot and otherwise as it was, whether
/// or not the plane took the pilot.
pub proof fn lemma_set_then_reset_pilot(plane: PlaneView, pilot_id: UserId)
    requires
        !plane.is_joined,
    ensures
        ({
            let assigned = match plane.set_pilot(pilot_id) {
                Ok(after) => after,
                Err(_) => plane,
            };
            assigned.reset_pilot() == Ok::<_, GameError>(PlaneView { pilot_id: None, ..plane })
        }),
{
}

/// A plane that is in a match refuses to give up its pilot.
pub proof fn lemma_reset_pilot_refused(plane: PlaneView)
    requires
        plane.is_joined,
    ensures
        plane.reset_pilot() == Err::<PlaneView, _>(GameError::InvalidState),
{
}

/// Every transition of a plane keeps it well formed.
pub proof fn lemma_plane_transitions_keep_wf(
    plane: PlaneView,
    pilot_id: UserId,
    match_id: MatchId,
)
    requires
        plane.wf(),
    ensures
        plane.register().wf(),
        plane.disconnect().wf(),
        plane.joined(match_id).wf(),
        plane.leave_match().wf(),
        plane.set_pilot(pilot_id) matches Ok(after) ==> after.wf(),
        plane.reset_pilot() matches Ok(after) ==> after.wf(),
{
}

/// No transition of a plane changes its identifier or its name.
pub proof fn lemma_plane_transitions_keep_identity(
    plane: PlaneView,
    pilot_id: UserId,
    match_id: MatchId,
)
    ensures
        plane.register().id == plane.id && plane.register().name == plane.name,
        plane.disconnect().id == plane.id && plane.disconnect().name == plane.name,
        plane.joined(match_id).id == plane.id && plane.joined(match_id).name == plane.name,
        plane.leave_match().id == plane.id && plane.leave_match().name == plane.name,
        plane.set_pilot(pilot_id) matches Ok(after) ==> after.id == plane.id && after.name
            == plane.name,
        plane.reset_pilot() matches Ok(after) ==> after.id == plane.id && after.name == plane.name,
{
}

/// A plane that is in no match joins a waiting match of a well-formed
/// registry: the plane then records the match, and the match holds the
/// plane among its members, none of them twice.
pub proof fn lemma_join_waiting_match(
    plane: PlaneView,
    registry: GameStateView,
    match_id: MatchId,
)
    requires
        plane.wf(),
        registry.wf(),
        !plane.is_joined,
        registry.matches.contains_key(match_id),
        registry.matches[match_id].state == MatchState::Waiting,
    ensures
        plane.join_match(registry, match_id) matches Ok((joined, after)) && {
            &&& joined.wf()
            &&& joined.joined_match_id == Some(match_id)
            &&& after.wf()
            &&& after.matches[match_id].planes.contains(plane.id)
            &&& after.matches[match_id].state == MatchState::Waiting
        },
{
    lemma_add_plane_to_match_idempotent(registry, match_id, plane.id);
    lemma_add_plane_to_match_keeps_invariants(registry, match_id, plane.id);
}

/// Joining is refused exactly when the plane is in a match, the match is
/// unknown, or the match is active or has ended; the refusals are told
/// apart in that order.
pub proof fn lemma_join_match_refusals(
    plane: PlaneView,
    registry: GameStateView,
    match_id: MatchId,
)
    ensures
        plane.join_match(registry, match_id) == Err::<(PlaneView, GameStateView), _>(
            GameError::AlreadyJoined,
        ) <==> plane.is_joined,
        plane.join_match(registry, match_id) == Err::<(PlaneView, GameStateView), _>(
            GameError::NotFound,
        ) <==> !plane.is_joined && !registry.matches.contains_key(match_id),
        plane.join_match(registry, match_id) == Err::<(PlaneView, GameStateView), _>(
            GameError::InvalidState,
        ) <==> !plane.is_joined && registry.matches.contains_key(match_id)
            && registry.matches[match_id].state != MatchState::Waiting,
{
}

/// A plane has at most one pilot: once a user is linked to a plane, the
/// plane refuses every further link, from that user as from any other.
pub proof fn lemma_linked_plane_refuses_link(user: UserView, plane: PlaneView, other: UserView)
    requires
        user.link(plane) is Ok,
    ensures
        other.link(user.link(plane)->Ok_0.1) == Err::<(UserView, PlaneView), _>(
            GameError::AlreadyLinked,
        ),
{
}

/// Linking is all or nothing: it succeeds exactly when the plane takes the
/// pilot, and then the user holds the plane last in its list and the plane
/// holds the user as its pilot.
pub proof fn lemma_link_atomic(user: UserView, plane: PlaneView)
    ensures
        user.link(plane) is Ok <==> plane.set_pilot(user.id) is Ok,
        user.link(plane) is Ok <==> plane.pilot_id is None && !plane.is_joined,
        user.link(plane) matches Ok((linked_user, linked_plane)) ==> {
            &&& linked_user.planes == user.planes.push(plane.id)
            &&& linked_plane.pilot_id == Some(user.id)
        },
{
}

} // verus!
