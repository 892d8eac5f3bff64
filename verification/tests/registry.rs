use plane_session::{GameError, GameState, Match, MatchId, MatchState, PlaneId};

fn match_id(value: u128) -> MatchId {
    MatchId { value }
}

fn plane_id(value: u128) -> PlaneId {
    PlaneId { value }
}

fn sorted(mut ids: Vec<MatchId>) -> Vec<u128> {
    let mut values: Vec<u128> = ids.drain(..).map(|id| id.value).collect();
    values.sort();
    values
}

#[test]
fn new_registry_is_empty() {
    let state = GameState::new();
    assert!(state.list_ongoing_match_ids().is_empty());
    assert!(state.get_match(match_id(1)).is_none());
}

#[test]
fn create_match_returns_the_match_identifier_and_files_it() {
    let mut state = GameState::new();
    let id = state.create_match(Match::with_id(match_id(7)));
    assert_eq!(id, match_id(7));
    let stored = state.get_match(id).unwrap();
    assert_eq!(stored.id(), match_id(7));
    assert_eq!(stored.state(), MatchState::Waiting);
    assert!(stored.planes().is_empty());
    assert!(state.list_ongoing_match_ids().is_empty());
}

#[test]
fn create_match_files_a_generated_match_under_its_own_identifier() {
    let mut state = GameState::new();
    let m = Match::new();
    let own = m.id();
    let id = state.create_match(m);
    assert_eq!(id, own);
    assert_eq!(state.get_match(own).unwrap().id(), own);
}

#[test]
fn get_match_reports_absence_without_failing() {
    let mut state = GameState::new();
    state.create_match(Match::with_id(match_id(1)));
    assert!(state.get_match(match_id(2)).is_none());
    assert!(state.get_match(match_id(1)).is_some());
}

#[test]
fn set_match_state_on_unknown_match_is_not_found() {
    let mut state = GameState::new();
    state.create_match(Match::with_id(match_id(1)));
    assert_eq!(
        state.set_match_state(match_id(2), MatchState::Active),
        Err(GameError::NotFound)
    );
    assert!(state.list_ongoing_match_ids().is_empty());
    assert_eq!(state.get_match(match_id(1)).unwrap().state(), MatchState::Waiting);
}

#[test]
fn index_holds_exactly_the_active_matches_after_each_change() {
    let mut state = GameState::new();
    let ids = [match_id(1), match_id(2), match_id(3)];
    for id in ids {
        state.create_match(Match::with_id(id));
        assert!(sorted(state.list_ongoing_match_ids()).is_empty());
    }
    let steps = [
        (1u128, MatchState::Active, vec![1u128]),
        (2, MatchState::Active, vec![1, 2]),
        (1, MatchState::Active, vec![1, 2]),
        (3, MatchState::Ended, vec![1, 2]),
        (1, MatchState::Ended, vec![2]),
        (1, MatchState::Ended, vec![2]),
        (2, MatchState::Waiting, vec![]),
        (3, MatchState::Active, vec![3]),
    ];
    for (value, new_state, expected) in steps {
        assert_eq!(state.set_match_state(match_id(value), new_state), Ok(()));
        assert_eq!(sorted(state.list_ongoing_match_ids()), expected);
        for id in ids {
            let active = state.get_match(id).unwrap().state() == MatchState::Active;
            let indexed = state.list_ongoing_match_ids().contains(&id);
            assert_eq!(active, indexed);
        }
    }
}

#[test]
fn list_ongoing_match_ids_names_each_active_match_once() {
    let mut state = GameState::new();
    for value in 0..20u128 {
        state.create_match(Match::with_id(match_id(value)));
    }
    for value in (0..20u128).filter(|v| v % 3 == 0) {
        assert_eq!(state.set_match_state(match_id(value), MatchState::Active), Ok(()));
    }
    assert_eq!(
        sorted(state.list_ongoing_match_ids()),
        vec![0, 3, 6, 9, 12, 15, 18]
    );
}

#[test]
fn no_change_of_state_is_forbidden() {
    let mut state = GameState::new();
    let id = state.create_match(Match::with_id(match_id(1)));
    assert_eq!(state.set_match_state(id, MatchState::Ended), Ok(()));
    assert_eq!(state.get_match(id).unwrap().state(), MatchState::Ended);
    assert_eq!(state.set_match_state(id, MatchState::Waiting), Ok(()));
    assert_eq!(state.get_match(id).unwrap().state(), MatchState::Waiting);
    assert_eq!(state.set_match_state(id, MatchState::Active), Ok(()));
    assert_eq!(state.get_match(id).unwrap().state(), MatchState::Active);
    assert_eq!(state.set_match_state(id, MatchState::Waiting), Ok(()));
    assert!(state.list_ongoing_match_ids().is_empty());
}

#[test]
fn set_match_state_keeps_the_members_of_the_match() {
    let mut state = GameState::new();
    let id = state.create_match(Match::with_id(match_id(1)));
    assert_eq!(state.add_plane_to_match(id, plane_id(5)), Ok(()));
    assert_eq!(state.set_match_state(id, MatchState::Active), Ok(()));
    assert_eq!(state.get_match(id).unwrap().planes(), &vec![plane_id(5)]);
}

#[test]
fn add_plane_to_match_appends_in_order() {
    let mut state = GameState::new();
    let id = state.create_match(Match::with_id(match_id(1)));
    assert_eq!(state.add_plane_to_match(id, plane_id(30)), Ok(()));
    assert_eq!(state.add_plane_to_match(id, plane_id(10)), Ok(()));
    assert_eq!(state.add_plane_to_match(id, plane_id(20)), Ok(()));
    assert_eq!(
        state.get_match(id).unwrap().planes(),
        &vec![plane_id(30), plane_id(10), plane_id(20)]
    );
    assert_eq!(state.get_match(id).unwrap().state(), MatchState::Waiting);
}

#[test]
fn add_plane_to_match_twice_keeps_one_entry() {
    let mut state = GameState::new();
    let id = state.create_match(Match::with_id(match_id(1)));
    assert_eq!(state.add_plane_to_match(id, plane_id(5)), Ok(()));
    assert_eq!(state.add_plane_to_match(id, plane_id(6)), Ok(()));
    assert_eq!(state.add_plane_to_match(id, plane_id(5)), Ok(()));
    assert_eq!(
        state.get_match(id).unwrap().planes(),
        &vec![plane_id(5), plane_id(6)]
    );
}

#[test]
fn add_plane_to_match_on_unknown_match_is_not_found() {
    let mut state = GameState::new();
    assert_eq!(
        state.add_plane_to_match(match_id(1), plane_id(5)),
        Err(GameError::NotFound)
    );
    assert!(state.get_match(match_id(1)).is_none());
}

#[test]
fn add_plane_to_match_fails_on_an_active_match() {
    let mut state = GameState::new();
    let id = state.create_match(Match::with_id(match_id(1)));
    assert_eq!(state.add_plane_to_match(id, plane_id(5)), Ok(()));
    assert_eq!(state.set_match_state(id, MatchState::Active), Ok(()));
    assert_eq!(
        state.add_plane_to_match(id, plane_id(6)),
        Err(GameError::InvalidState)
    );
    assert_eq!(
        state.add_plane_to_match(id, plane_id(5)),
        Err(GameError::InvalidState)
    );
    assert_eq!(state.get_match(id).unwrap().planes(), &vec![plane_id(5)]);
}

#[test]
fn add_plane_to_match_fails_on_an_ended_match() {
    let mut state = GameState::new();
    let id = state.create_match(Match::with_id(match_id(1)));
    assert_eq!(state.add_plane_to_match(id, plane_id(5)), Ok(()));
    assert_eq!(state.set_match_state(id, MatchState::Ended), Ok(()));
    assert_eq!(
        state.add_plane_to_match(id, plane_id(6)),
        Err(GameError::InvalidState)
    );
    assert_eq!(
        state.add_plane_to_match(id, plane_id(5)),
        Err(GameError::InvalidState)
    );
    assert_eq!(state.get_match(id).unwrap().planes(), &vec![plane_id(5)]);
}

#[test]
fn create_match_replaces_a_match_with_the_same_identifier() {
    let mut state = GameState::new();
    let id = state.create_match(Match::with_id(match_id(1)));
    assert_eq!(state.add_plane_to_match(id, plane_id(5)), Ok(()));
    let again = state.create_match(Match::with_id(match_id(1)));
    assert_eq!(again, id);
    assert!(state.get_match(id).unwrap().planes().is_empty());
}

#[test]
fn create_match_over_an_active_match_leaves_the_identifier_in_the_index() {
    let mut state = GameState::new();
    let id = state.create_match(Match::with_id(match_id(1)));
    assert_eq!(state.set_match_state(id, MatchState::Active), Ok(()));
    state.create_match(Match::with_id(match_id(1)));
    assert_eq!(state.get_match(id).unwrap().state(), MatchState::Waiting);
    assert_eq!(state.list_ongoing_match_ids(), vec![id]);
    assert_eq!(state.set_match_state(id, MatchState::Waiting), Ok(()));
    assert!(state.list_ongoing_match_ids().is_empty());
}

#[test]
fn create_match_keeps_the_planes_added_before_filing() {
    let mut state = GameState::new();
    let mut m = Match::with_id(match_id(1));
    m.add_plane(plane_id(8));
    m.add_plane(plane_id(9));
    let id = state.create_match(m);
    assert_eq!(
        state.get_match(id).unwrap().planes(),
        &vec![plane_id(8), plane_id(9)]
    );
    assert_eq!(state.add_plane_to_match(id, plane_id(8)), Ok(()));
    assert_eq!(
        state.get_match(id).unwrap().planes(),
        &vec![plane_id(8), plane_id(9)]
    );
}
