use plane_session::ids::{RANDOM_VERSION_VARIANT, VERSION_VARIANT_MASK};
use plane_session::{
    GameError, GameState, Match, MatchId, MatchState, Plane, PlaneId, User, UserId,
};
use uuid::{Uuid, Variant};

#[test]
fn end_to_end_scenario() {
    let mut pilot = User::new("Sim User 1".to_string());
    let mut first_plane = Plane::new("Foxtrot-4".to_string(), None).unwrap();
    let second_plane = Plane::new("Delta-7".to_string(), None).unwrap();

    assert_eq!(pilot.link(&mut first_plane), Ok(()));
    assert_eq!(first_plane.pilot_id(), Some(pilot.id()));
    assert_eq!(pilot.planes(), &vec![first_plane.id()]);

    let mut state = GameState::new();
    let m = Match::new();
    assert_eq!(m.state(), MatchState::Waiting);
    let id = state.create_match(m);
    assert_eq!(state.add_plane_to_match(id, first_plane.id()), Ok(()));
    assert_eq!(state.get_match(id).unwrap().planes(), &vec![first_plane.id()]);

    assert_eq!(state.set_match_state(id, MatchState::Active), Ok(()));
    assert!(state.list_ongoing_match_ids().contains(&id));

    assert_eq!(
        state.add_plane_to_match(id, second_plane.id()),
        Err(GameError::InvalidState)
    );
    assert_eq!(state.get_match(id).unwrap().planes(), &vec![first_plane.id()]);
}

#[test]
fn driver_sequence_links_two_planes_to_two_users() {
    let mut user_1 = User::new("Sim User 1".to_string());
    let mut user_2 = User::new("Sim User 2".to_string());
    let mut plane_1 = Plane::new("Foxtrot-4".to_string(), None).unwrap();
    let mut plane_2 = Plane::new("Delta-7".to_string(), None).unwrap();
    plane_1.register();
    plane_2.register();
    assert_eq!(user_1.link(&mut plane_1), Ok(()));
    assert_eq!(user_2.link(&mut plane_2), Ok(()));
    assert!(plane_1.online() && plane_2.online());
    assert_eq!(plane_1.pilot_id(), Some(user_1.id()));
    assert_eq!(plane_2.pilot_id(), Some(user_2.id()));
    assert_eq!(user_1.planes(), &vec![plane_1.id()]);
    assert_eq!(user_2.planes(), &vec![plane_2.id()]);
}

#[test]
fn generated_identifiers_are_random_uuids() {
    let values = [
        MatchId::generate().value,
        PlaneId::generate().value,
        UserId::generate().value,
        Match::new().id().value,
        Plane::new("a".to_string(), None).unwrap().id().value,
        User::new("a".to_string()).id().value,
    ];
    for value in values {
        assert_eq!(value & VERSION_VARIANT_MASK, RANDOM_VERSION_VARIANT);
        let uuid = Uuid::from_u128(value);
        assert_eq!(uuid.get_version_num(), 4);
        assert_eq!(uuid.get_variant(), Variant::RFC4122);
    }
}

#[test]
fn generated_identifiers_differ() {
    let mut seen: Vec<u128> = Vec::new();
    for _ in 0..64 {
        let value = PlaneId::generate().value;
        assert!(!seen.contains(&value));
        seen.push(value);
    }
    let a = Match::new();
    let b = Match::new();
    assert_ne!(a.id(), b.id());
}

#[test]
fn version_and_variant_masks_select_the_uuid_marks() {
    assert_eq!(VERSION_VARIANT_MASK, (0xf_u128 << 76) | (0xc_u128 << 60));
    assert_eq!(RANDOM_VERSION_VARIANT, (0x4_u128 << 76) | (0x8_u128 << 60));
    let marked = Uuid::parse_str("a1a2a3a4-b1b2-41c2-91d2-d3d4d5d6d7d8").unwrap();
    assert_eq!(
        marked.as_u128() & VERSION_VARIANT_MASK,
        RANDOM_VERSION_VARIANT
    );
    let other = Uuid::parse_str("a1a2a3a4-b1b2-11c2-91d2-d3d4d5d6d7d8").unwrap();
    assert_ne!(
        other.as_u128() & VERSION_VARIANT_MASK,
        RANDOM_VERSION_VARIANT
    );
}

#[test]
fn identifiers_of_one_domain_compare_by_value() {
    assert_eq!(MatchId { value: 1 }, MatchId { value: 1 });
    assert_ne!(MatchId { value: 1 }, MatchId { value: 2 });
    assert_eq!(PlaneId { value: 1 }, PlaneId { value: 1 });
    assert_ne!(UserId { value: 1 }, UserId { value: 2 });
}
