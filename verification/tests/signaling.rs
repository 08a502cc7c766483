use bakopa::api::{ErrorCode, RelayIce, RelaySdp, ServerToClient};
use bakopa::ids::ParticipantId;
use bakopa::signaling::{
    relay_answer, relay_answer_checked, relay_ice_candidate, relay_ice_candidate_checked,
    relay_offer, relay_offer_checked, shape_answer_event, shape_ice_event, shape_offer_event,
    DeliverySink, MockDeliverySink,
};

fn three_participants() -> (ParticipantId, ParticipantId, ParticipantId) {
    (
        ParticipantId::new(),
        ParticipantId::new(),
        ParticipantId::new(),
    )
}

#[test]
fn mock_delivery_sink_records_messages_by_recipient() {
    let mut sink = MockDeliverySink::new();
    let p1 = ParticipantId::new();
    let p2 = ParticipantId::new();

    sink.send(
        &p1,
        ServerToClient::PeerConnected {
            participant_id: p2.to_string(),
        },
    );
    sink.send(
        &p1,
        ServerToClient::PeerDisconnected {
            participant_id: p2.to_string(),
        },
    );
    sink.send(
        &p2,
        ServerToClient::PeerConnected {
            participant_id: p1.to_string(),
        },
    );

    let to_p1 = sink.messages_for(&p1).expect("p1 should have messages");
    assert_eq!(to_p1.len(), 2);
    assert!(matches!(to_p1[0], ServerToClient::PeerConnected { .. }));
    assert!(matches!(to_p1[1], ServerToClient::PeerDisconnected { .. }));

    let to_p2 = sink.messages_for(&p2).expect("p2 should have messages");
    assert_eq!(to_p2.len(), 1);
    assert!(matches!(to_p2[0], ServerToClient::PeerConnected { .. }));
}

#[test]
fn relay_offer_sends_only_to_target_peer() {
    let mut sink = MockDeliverySink::new();
    let sender = ParticipantId::new();
    let receiver = ParticipantId::new();
    let payload = RelaySdp {
        sdp: "v=0 offer".into(),
    };

    relay_offer(&mut sink, &sender, &receiver, payload.clone());

    let to_receiver = sink
        .messages_for(&receiver)
        .expect("receiver should get message");
    assert_eq!(to_receiver.len(), 1);
    assert_eq!(
        to_receiver[0],
        ServerToClient::Offer {
            from: sender.to_string(),
            payload
        }
    );

    assert!(sink.messages_for(&sender).is_none());
}

#[test]
fn shaped_offer_event_has_from_and_no_to() {
    let from_id = ParticipantId::new();
    let payload = RelaySdp {
        sdp: "v=0 offer".into(),
    };

    let shaped = shape_offer_event(&from_id, payload.clone());

    match shaped {
        ServerToClient::Offer {
            ref from,
            payload: ref p,
        } => {
            assert_eq!(from, &from_id.to_string());
            assert_eq!(p, &payload);
        }
        other => panic!("an Offer event was expected, got {:?}", other),
    }
}

#[test]
fn relay_answer_sends_only_to_target_peer() {
    let mut sink = MockDeliverySink::new();
    let sender = ParticipantId::new();
    let receiver = ParticipantId::new();
    let payload = RelaySdp {
        sdp: "v=0 answer".into(),
    };

    relay_answer(&mut sink, &sender, &receiver, payload.clone());

    let to_receiver = sink
        .messages_for(&receiver)
        .expect("receiver should get message");
    assert_eq!(to_receiver.len(), 1);
    assert_eq!(
        to_receiver[0],
        ServerToClient::Answer {
            from: sender.to_string(),
            payload
        }
    );

    assert!(sink.messages_for(&sender).is_none());
}

#[test]
fn relay_answer_checked_errors_when_recipient_missing() {
    let mut sink = MockDeliverySink::new();
    let (sender, receiver, missing) = three_participants();
    let participants = vec![sender.clone(), receiver.clone()];
    let payload = RelaySdp {
        sdp: "v=0 answer".into(),
    };

    let result = relay_answer_checked(&mut sink, &participants, &sender, &missing, payload.clone());

    assert_eq!(result, Err(ErrorCode::ParticipantNotFound));
    assert!(sink.messages_for(&receiver).is_none());
    assert!(sink.messages_for(&missing).is_none());
}

#[test]
fn relay_answer_checked_errors_when_sender_missing() {
    let mut sink = MockDeliverySink::new();
    let (sender_missing, receiver, extra) = three_participants();
    let participants = vec![receiver.clone(), extra];
    let payload = RelaySdp {
        sdp: "v=0 answer".into(),
    };

    let result = relay_answer_checked(
        &mut sink,
        &participants,
        &sender_missing,
        &receiver,
        payload,
    );

    assert_eq!(result, Err(ErrorCode::ParticipantNotFound));
    assert!(sink.messages_for(&receiver).is_none());
    assert!(sink.messages_for(&sender_missing).is_none());
}

#[test]
fn relay_ice_candidate_sends_only_to_target_peer() {
    let mut sink = MockDeliverySink::new();
    let sender = ParticipantId::new();
    let receiver = ParticipantId::new();
    let payload = RelayIce {
        candidate: "cand1".into(),
    };

    relay_ice_candidate(&mut sink, &sender, &receiver, payload.clone());

    let to_receiver = sink
        .messages_for(&receiver)
        .expect("receiver should get message");
    assert_eq!(to_receiver.len(), 1);
    assert_eq!(
        to_receiver[0],
        ServerToClient::IceCandidate {
            from: sender.to_string(),
            payload
        }
    );

    assert!(sink.messages_for(&sender).is_none());
}

#[test]
fn relay_ice_candidate_checked_errors_when_recipient_missing() {
    let mut sink = MockDeliverySink::new();
    let (sender, receiver, missing) = three_participants();
    let participants = vec![sender.clone(), receiver.clone()];
    let payload = RelayIce {
        candidate: "cand1".into(),
    };

    let result = relay_ice_candidate_checked(
        &mut sink,
        &participants,
        &sender,
        &missing,
        payload.clone(),
    );

    assert_eq!(result, Err(ErrorCode::ParticipantNotFound));
    assert!(sink.messages_for(&receiver).is_none());
    assert!(sink.messages_for(&missing).is_none());
}

#[test]
fn relay_ice_candidate_checked_errors_when_sender_missing() {
    let mut sink = MockDeliverySink::new();
    let (sender_missing, receiver, extra) = three_participants();
    let participants = vec![receiver.clone(), extra];
    let payload = RelayIce {
        candidate: "cand1".into(),
    };

    let result = relay_ice_candidate_checked(
        &mut sink,
        &participants,
        &sender_missing,
        &receiver,
        payload,
    );

    assert_eq!(result, Err(ErrorCode::ParticipantNotFound));
    assert!(sink.messages_for(&receiver).is_none());
    assert!(sink.messages_for(&sender_missing).is_none());
}

#[test]
fn relay_offer_checked_returns_error_and_delivers_to_no_one_when_recipient_missing() {
    let mut sink = MockDeliverySink::new();
    let sender = ParticipantId::new();
    let existing = ParticipantId::new();
    let missing = ParticipantId::new();
    let participants = vec![sender.clone(), existing];
    let payload = RelaySdp {
        sdp: "v=0 offer".into(),
    };

    let result = relay_offer_checked(&mut sink, &participants, &sender, &missing, payload.clone());

    assert_eq!(result, Err(ErrorCode::ParticipantNotFound));
    assert!(sink.messages_for(&missing).is_none());
    assert!(sink.messages_for(&sender).is_none());
}

#[test]
fn relay_offer_checked_returns_error_when_sender_not_in_room() {
    let mut sink = MockDeliverySink::new();
    let sender_not_in_room = ParticipantId::new();
    let receiver_in_room = ParticipantId::new();
    let participants = vec![receiver_in_room.clone()];
    let payload = RelaySdp {
        sdp: "v=0 offer".into(),
    };

    let result = relay_offer_checked(
        &mut sink,
        &participants,
        &sender_not_in_room,
        &receiver_in_room,
        payload,
    );

    assert_eq!(result, Err(ErrorCode::ParticipantNotFound));
    assert!(sink.messages_for(&receiver_in_room).is_none());
    assert!(sink.messages_for(&sender_not_in_room).is_none());
}

#[test]
fn relay_offer_does_not_leak_to_other_participants() {
    let mut sink = MockDeliverySink::new();
    let (sender, receiver, bystander) = three_participants();

    let participants = vec![sender.clone(), receiver.clone(), bystander.clone()];
    let payload = RelaySdp {
        sdp: "v=0 offer".into(),
    };

    relay_offer_checked(
        &mut sink,
        &participants,
        &sender,
        &receiver,
        payload.clone(),
    )
    .expect("should deliver");

    let to_receiver = sink
        .messages_for(&receiver)
        .expect("receiver should get message");
    assert_eq!(to_receiver.len(), 1);
    assert!(matches!(to_receiver[0], ServerToClient::Offer { .. }));

    assert!(sink.messages_for(&bystander).is_none());
}

#[test]
fn shaped_answer_and_ice_events_carry_sender_and_payload() {
    let from_id = ParticipantId::new();
    let sdp = RelaySdp {
        sdp: "v=0 answer".into(),
    };
    let ice = RelayIce {
        candidate: "candidate:1 1 udp 2122260223 10.0.0.1 54321 typ host".into(),
    };

    assert_eq!(
        shape_answer_event(&from_id, sdp.clone()),
        ServerToClient::Answer {
            from: from_id.to_string(),
            payload: sdp
        }
    );
    assert_eq!(
        shape_ice_event(&from_id, ice.clone()),
        ServerToClient::IceCandidate {
            from: from_id.to_string(),
            payload: ice
        }
    );
}

#[test]
fn checked_relay_between_members_delivers_exactly_once() {
    let mut sink = MockDeliverySink::new();
    let (a, b, c) = three_participants();
    let participants = vec![a.clone(), b.clone(), c.clone()];

    relay_answer_checked(
        &mut sink,
        &participants,
        &b,
        &a,
        RelaySdp { sdp: "ans".into() },
    )
    .expect("both are members");
    relay_ice_candidate_checked(
        &mut sink,
        &participants,
        &b,
        &a,
        RelayIce {
            candidate: "c".into(),
        },
    )
    .expect("both are members");

    let to_a = sink.messages_for(&a).expect("a gets both");
    assert_eq!(to_a.len(), 2);
    assert_eq!(
        to_a[1],
        ServerToClient::IceCandidate {
            from: b.to_string(),
            payload: RelayIce {
                candidate: "c".into()
            }
        }
    );
    assert!(sink.messages_for(&b).is_none());
    assert!(sink.messages_for(&c).is_none());
}

#[test]
fn relay_to_self_reaches_the_sender() {
    let mut sink = MockDeliverySink::default();
    let a = ParticipantId::new();

    relay_offer(&mut sink, &a, &a, RelaySdp { sdp: "x".into() });

    assert_eq!(sink.messages_for(&a).map(|m| m.len()), Some(1));
}
