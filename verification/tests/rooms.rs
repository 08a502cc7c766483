use bakopa::ids::{ParticipantId, RoomId};
use bakopa::room::{JoinRoomError, RoomManager, MAX_PARTICIPANTS};

#[test]
fn generated_room_id_is_valid_uuid() {
    let room_id = RoomId::new();

    assert_ne!(room_id.as_uuid(), uuid::Uuid::nil());
}

#[test]
fn generated_participant_id_is_valid_uuid() {
    let participant_id = ParticipantId::new();

    assert_ne!(participant_id.as_uuid(), uuid::Uuid::nil());
}

#[test]
fn create_room_returns_ids_and_self_is_only_participant() {
    let mut manager = RoomManager::new();
    let room_owner_id = ParticipantId::new();

    let result = manager.create_room(room_owner_id);

    assert!(result.room_id.as_uuid() != uuid::Uuid::nil());
    assert!(result.self_id.as_uuid() != uuid::Uuid::nil());
    assert_eq!(result.participants, vec![result.self_id.clone()]);
}

#[test]
fn join_adds_unique_participant() {
    let mut manager = RoomManager::new();
    let owner = ParticipantId::new();
    let create = manager.create_room(owner.clone());
    let room_id = create.room_id.clone();

    let new_participant = ParticipantId::new();
    let joined = manager
        .join_room(&room_id, new_participant.clone())
        .expect("room should exist")
        .expect("should join without error");
    assert_eq!(joined.len(), 2);
    assert!(joined.contains(&owner));
    assert!(joined.contains(&new_participant));

    let joined_again = manager
        .join_room(&room_id, new_participant.clone())
        .expect("room should exist")
        .expect("should allow duplicate join as no-op");
    assert_eq!(joined_again.len(), 2);
}

#[test]
fn join_rejects_when_full() {
    let mut manager = RoomManager::new();
    let owner = ParticipantId::new();
    let create = manager.create_room(owner);
    let room_id = create.room_id.clone();

    for _ in 0..6 {
        let _ = manager
            .join_room(&room_id, ParticipantId::new())
            .expect("room exists")
            .expect("should not be full yet");
    }
    let _ = manager
        .join_room(&room_id, ParticipantId::new())
        .expect("room exists")
        .expect("eighth participant is accepted");

    let ninth_result = manager
        .join_room(&room_id, ParticipantId::new())
        .expect("room exists");

    match ninth_result {
        Err(JoinRoomError::RoomFull) => {}
        Ok(list) => panic!("ninth participant must be refused, got {:?}", list),
    }
}

#[test]
fn leave_removes_participant_and_keeps_others() {
    let mut manager = RoomManager::new();
    let owner = ParticipantId::new();
    let create = manager.create_room(owner.clone());
    let room_id = create.room_id.clone();

    let p2 = ParticipantId::new();
    let p3 = ParticipantId::new();
    let _ = manager
        .join_room(&room_id, p2.clone())
        .expect("room exists")
        .expect("join p2 ok");
    let _ = manager
        .join_room(&room_id, p3.clone())
        .expect("room exists")
        .expect("join p3 ok");

    let after_leave = manager
        .leave_room(&room_id, &p2)
        .expect("room exists for leave");

    assert!(!after_leave.contains(&p2));
    assert!(after_leave.contains(&owner));
    assert!(after_leave.contains(&p3));
    assert_eq!(after_leave.len(), 2);
}

#[test]
fn leave_removes_room_when_empty() {
    let mut manager = RoomManager::new();
    let owner = ParticipantId::new();
    let create = manager.create_room(owner.clone());
    let room_id = create.room_id.clone();

    let after_leave = manager
        .leave_room(&room_id, &owner)
        .expect("room exists for leave");
    assert!(after_leave.is_empty());

    let join_after_empty = manager.join_room(&room_id, ParticipantId::new());
    assert!(join_after_empty.is_none());
}

#[test]
fn order_preserved_on_join_and_leave() {
    let mut manager = RoomManager::new();
    let owner = ParticipantId::new();
    let create = manager.create_room(owner.clone());
    let room_id = create.room_id.clone();

    let p2 = ParticipantId::new();
    let p3 = ParticipantId::new();

    let after_p2 = manager
        .join_room(&room_id, p2.clone())
        .expect("room exists")
        .expect("join p2 ok");
    assert_eq!(after_p2, vec![owner.clone(), p2.clone()]);

    let after_p3 = manager
        .join_room(&room_id, p3.clone())
        .expect("room exists")
        .expect("join p3 ok");
    assert_eq!(after_p3, vec![owner.clone(), p2.clone(), p3.clone()]);

    let after_leave_p2 = manager
        .leave_room(&room_id, &p2)
        .expect("room exists after leave");
    assert_eq!(after_leave_p2, vec![owner.clone(), p3.clone()]);

    let p4 = ParticipantId::new();
    let after_p4 = manager
        .join_room(&room_id, p4.clone())
        .expect("room exists")
        .expect("join p4 ok");
    assert_eq!(after_p4, vec![owner, p3, p4]);
}

#[test]
fn smoke_sequence_reflects_state() {
    let mut manager = RoomManager::new();
    let owner = ParticipantId::new();
    let create = manager.create_room(owner.clone());
    let room_id = create.room_id.clone();

    let p2 = ParticipantId::new();
    let p3 = ParticipantId::new();
    let p4 = ParticipantId::new();

    let _ = manager
        .join_room(&room_id, p2.clone())
        .expect("room exists")
        .expect("join p2 ok");
    let after_p3 = manager
        .join_room(&room_id, p3.clone())
        .expect("room exists")
        .expect("join p3 ok");
    assert_eq!(after_p3, vec![owner.clone(), p2.clone(), p3.clone()]);

    let after_leave_p2 = manager
        .leave_room(&room_id, &p2)
        .expect("room exists after leave");
    assert_eq!(after_leave_p2, vec![owner.clone(), p3.clone()]);

    let after_p4 = manager
        .join_room(&room_id, p4.clone())
        .expect("room exists")
        .expect("join p4 ok");
    assert_eq!(after_p4, vec![owner.clone(), p3.clone(), p4.clone()]);

    let final_list = manager
        .leave_room(&room_id, &owner)
        .expect("room exists after owner leaves");
    assert_eq!(final_list, vec![p3.clone(), p4.clone()]);
}

#[test]
fn join_then_leave_restores_the_room() {
    let mut manager = RoomManager::new();
    let owner = ParticipantId::new();
    let room_id = manager.create_room(owner).room_id;
    let before = manager.participants(&room_id).expect("room exists");

    let guest = ParticipantId::new();
    manager
        .join_room(&room_id, guest)
        .expect("room exists")
        .expect("join ok");
    let after = manager.leave_room(&room_id, &guest).expect("room exists");

    assert_eq!(after, before);
    assert_eq!(manager.participants(&room_id), Some(before));
}

#[test]
fn join_and_leave_on_unknown_room_give_none() {
    let mut manager = RoomManager::new();
    let unknown = RoomId::new();

    assert!(manager.join_room(&unknown, ParticipantId::new()).is_none());
    assert!(manager.leave_room(&unknown, &ParticipantId::new()).is_none());
    assert!(manager.participants(&unknown).is_none());
}

#[test]
fn full_room_still_accepts_a_member_joining_again() {
    let mut manager = RoomManager::new();
    let owner = ParticipantId::new();
    let room_id = manager.create_room(owner).room_id;
    for _ in 1..MAX_PARTICIPANTS {
        manager
            .join_room(&room_id, ParticipantId::new())
            .expect("room exists")
            .expect("room not full");
    }

    let again = manager
        .join_room(&room_id, owner)
        .expect("room exists")
        .expect("a member joining again is no new seat");
    assert_eq!(again.len(), MAX_PARTICIPANTS);
    assert_eq!(again[0], owner);
}

#[test]
fn leaving_twice_changes_nothing_the_second_time() {
    let mut manager = RoomManager::new();
    let owner = ParticipantId::new();
    let room_id = manager.create_room(owner).room_id;
    let guest = ParticipantId::new();
    manager
        .join_room(&room_id, guest)
        .expect("room exists")
        .expect("join ok");

    let first = manager.leave_room(&room_id, &guest).expect("room exists");
    let second = manager.leave_room(&room_id, &guest).expect("room exists");

    assert_eq!(first, vec![owner]);
    assert_eq!(second, vec![owner]);
}

#[test]
fn ids_print_and_parse_back() {
    let room_id = RoomId::new();
    let text = room_id.to_string();

    assert_eq!(text.len(), 36);
    assert_eq!(text, room_id.as_uuid().to_string());
    assert_eq!(RoomId::parse_str(&text), Ok(room_id));

    let participant = ParticipantId::new();
    let text = participant.to_string();
    assert_eq!(text, participant.as_uuid().hyphenated().to_string());
    assert_eq!(text.parse::<ParticipantId>(), Ok(participant));
}

#[test]
fn parse_refuses_text_that_is_no_uuid() {
    assert!(RoomId::parse_str("not-a-uuid").is_err());
    assert!(ParticipantId::parse_str("").is_err());
}

#[test]
fn generated_ids_are_version_four() {
    let id = ParticipantId::new();
    assert_eq!(id.as_uuid().get_version_num(), 4);
    assert_ne!(RoomId::new(), RoomId::new());
}

#[test]
fn id_value_is_the_uuid_value() {
    let id = RoomId::new();
    assert_eq!(id.as_u128(), id.as_uuid().as_u128());
    assert_ne!(id.as_u128(), 0);
}
