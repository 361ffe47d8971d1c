use room_member::{Event, MemberEvent, MemberEventContent, MembershipState, RoomMember, User};

fn member_event(sender: &str, room: Option<&str>, membership: MembershipState) -> MemberEvent {
    MemberEvent {
        sender: sender.to_string(),
        room_id: room.map(|r| r.to_string()),
        content: MemberEventContent { membership },
        state_key: sender.to_string(),
    }
}

#[test]
fn new_member_has_declared_membership_and_one_event() {
    let event = member_event("@alice:example.org", Some("!room:example.org"), MembershipState::Join);
    let member = RoomMember::new(&event);
    assert_eq!(member.membership, MembershipState::Join);
    assert_eq!(member.events.len(), 1);
    match &member.events[0] {
        Event::RoomMember(logged) => {
            assert_eq!(logged.sender, "@alice:example.org");
            assert_eq!(logged.room_id.as_deref(), Some("!room:example.org"));
            assert_eq!(logged.content.membership, MembershipState::Join);
            assert_eq!(logged.state_key, "@alice:example.org");
        }
        Event::RoomPowerLevels(_) => panic!("the log must start with the membership event"),
    }
}

#[test]
fn new_member_copies_identity_and_starts_without_power() {
    let event = MemberEvent {
        sender: "@bob:example.org".to_string(),
        room_id: Some("!room:example.org".to_string()),
        content: MemberEventContent { membership: MembershipState::Invite },
        state_key: "bob".to_string(),
    };
    let member = RoomMember::new(&event);
    assert_eq!(member.user_id, "@bob:example.org");
    assert_eq!(member.room_id.as_deref(), Some("!room:example.org"));
    assert_eq!(member.typing, None);
    assert_eq!(member.power_level, None);
    assert_eq!(member.power_level_norm, None);
    assert_eq!(member.membership, MembershipState::Invite);
    assert_eq!(member.name, "bob");
    assert_eq!(member.user.name, "bob");
}

#[test]
fn new_member_without_room() {
    let event = member_event("@carol:example.org", None, MembershipState::Knock);
    let member = RoomMember::new(&event);
    assert_eq!(member.room_id, None);
    assert_eq!(member.membership, MembershipState::Knock);
    assert_eq!(member.events.len(), 1);
}

#[test]
fn user_is_named_by_state_key() {
    let event = MemberEvent {
        sender: "@dave:example.org".to_string(),
        room_id: None,
        content: MemberEventContent { membership: MembershipState::Join },
        state_key: "dave".to_string(),
    };
    let user = User::new(&event);
    assert_eq!(user.name, "dave");
}

#[test]
fn member_event_clone_keeps_every_field() {
    let event = member_event("@erin:example.org", Some("!r:example.org"), MembershipState::Ban);
    let copy = event.clone();
    assert_eq!(copy.sender, event.sender);
    assert_eq!(copy.room_id, event.room_id);
    assert_eq!(copy.content.membership, MembershipState::Ban);
    assert_eq!(copy.state_key, event.state_key);
}

#[test]
fn update_member_reports_a_change_then_none() {
    let mut member = RoomMember::new(&member_event("@a:x", None, MembershipState::Invite));
    let join = member_event("@a:x", None, MembershipState::Join);
    assert!(member.update_member(&join));
    assert_eq!(member.membership, MembershipState::Join);
    assert!(!member.update_member(&join));
    assert_eq!(member.membership, MembershipState::Join);
}

#[test]
fn update_member_with_the_held_state_reports_no_change() {
    let mut member = RoomMember::new(&member_event("@a:x", None, MembershipState::Join));
    let join = member_event("@a:x", None, MembershipState::Join);
    assert!(!member.update_member(&join));
    assert!(!member.update_member(&join));
    assert_eq!(member.membership, MembershipState::Join);
}

#[test]
fn update_member_accepts_any_transition() {
    let mut member = RoomMember::new(&member_event("@a:x", None, MembershipState::Ban));
    for state in [
        MembershipState::Join,
        MembershipState::Knock,
        MembershipState::Invite,
        MembershipState::Leave,
        MembershipState::Ban,
    ] {
        assert!(member.update_member(&member_event("@a:x", None, state)));
        assert_eq!(member.membership, state);
    }
}

#[test]
fn update_member_leaves_the_rest_alone() {
    let mut member =
        RoomMember::new(&member_event("@a:x", Some("!r:x"), MembershipState::Invite));
    member.update_member(&member_event("@other:x", Some("!s:x"), MembershipState::Leave));
    assert_eq!(member.user_id, "@a:x");
    assert_eq!(member.room_id.as_deref(), Some("!r:x"));
    assert_eq!(member.name, "@a:x");
    assert_eq!(member.events.len(), 1);
    assert_eq!(member.power_level, None);
    assert_eq!(member.power_level_norm, None);
}
