use bakopa::bridge::RuntimeMode;
use bakopa::client_errors::CoreError;
use bakopa::ecs::{EcsCore, FrameId, InputEvent, InputSnapshot, Pose, RenderFrame, UnitQuat, Vec3};
use bakopa::sync::{
    runtime_mode_label, ParticipantId, PoseSyncCoordinator, PoseVersion, RemoteLiveness,
    RemotePoseRepository, RemotePoseUpdate, ScopeBoundaryError, ScopeBoundaryPolicy,
    SignalingRoute, SyncDelta, SyncSessionError, SyncSessionPort,
};

fn bits(x: f32) -> u32 {
    x.to_bits()
}

fn pose_at(x: f32, y: f32, z: f32) -> Pose {
    Pose {
        position: Vec3 {
            x: bits(x),
            y: bits(y),
            z: bits(z),
        },
        orientation: UnitQuat::identity(),
    }
}

/// Core that numbers frames and moves the local pose along x by
/// `axis_x * dt` for each move input, standing in for the engine's
/// simulation.
struct MovingCore {
    frame: u64,
    x: f32,
}

impl MovingCore {
    fn new() -> Self {
        Self { frame: 0, x: 0.0 }
    }
}

impl EcsCore for MovingCore {
    fn init_world(&mut self) -> Result<(), CoreError> {
        self.frame = 0;
        self.x = 0.0;
        Ok(())
    }

    fn tick(&mut self, input: InputSnapshot) -> Result<RenderFrame, CoreError> {
        let dt = f32::from_bits(input.dt_seconds);
        for event in &input.inputs {
            if let InputEvent::Move { axis_x, .. } = event {
                self.x += f32::from_bits(*axis_x) * dt;
            }
        }
        self.frame += 1;
        Ok(RenderFrame::from_primary_pose(
            FrameId(self.frame),
            pose_at(self.x, 0.0, 0.0),
        ))
    }
}

struct FailingCore;

impl EcsCore for FailingCore {
    fn init_world(&mut self) -> Result<(), CoreError> {
        Ok(())
    }

    fn tick(&mut self, _input: InputSnapshot) -> Result<RenderFrame, CoreError> {
        Err(CoreError::InitFailed {
            reason: "world missing".to_string(),
        })
    }
}

fn move_input(frame: u64, dt: f32) -> InputSnapshot {
    InputSnapshot {
        frame: FrameId(frame),
        dt_seconds: bits(dt),
        inputs: vec![InputEvent::Move {
            axis_x: bits(1.0),
            axis_y: bits(0.0),
        }],
    }
}

fn idle_input(frame: u64) -> InputSnapshot {
    InputSnapshot {
        frame: FrameId(frame),
        dt_seconds: bits(0.1),
        inputs: Vec::new(),
    }
}

#[derive(Default)]
struct FakeSyncSessionPort {
    sent: Vec<(FrameId, RuntimeMode, Pose)>,
}

impl SyncSessionPort for FakeSyncSessionPort {
    fn send_local_pose(
        &mut self,
        frame: FrameId,
        mode: RuntimeMode,
        pose: Pose,
    ) -> Result<(), SyncSessionError> {
        self.sent.push((frame, mode, pose));
        Ok(())
    }
    fn poll_events(&mut self) -> Vec<SyncDelta> {
        Vec::new()
    }

    fn begin_shutdown(&mut self) {}

    fn drain_pending_events(&mut self) -> Vec<SyncDelta> {
        Vec::new()
    }

}

#[test]
fn pose_sync_coordinator_sends_updated_local_pose_after_frame_update() {
    let mut coordinator =
        PoseSyncCoordinator::new(MovingCore::new(), FakeSyncSessionPort::default());
    let frame = coordinator
        .apply_frame(RuntimeMode::Desktop, move_input(0, 1.0))
        .expect("coordinator apply frame");

    assert_eq!(frame.frame, FrameId(1));
    assert!(f32::from_bits(frame.primary_pose().position.x) > 0.0);
    assert_eq!(coordinator.sync_port().sent.len(), 1);
    let (_, mode, sent_pose) = coordinator.sync_port().sent[0];
    assert_eq!(mode, RuntimeMode::Desktop);
    assert_eq!(sent_pose, *frame.primary_pose());
}

#[derive(Default)]
struct FailingSyncSessionPort;

impl SyncSessionPort for FailingSyncSessionPort {
    fn send_local_pose(
        &mut self,
        _frame: FrameId,
        _mode: RuntimeMode,
        _pose: Pose,
    ) -> Result<(), SyncSessionError> {
        Err(SyncSessionError::TransportUnavailable {
            reason: "test transport down".to_string(),
        })
    }
    fn poll_events(&mut self) -> Vec<SyncDelta> {
        Vec::new()
    }

    fn begin_shutdown(&mut self) {}

    fn drain_pending_events(&mut self) -> Vec<SyncDelta> {
        Vec::new()
    }

}

struct NotReadySyncSessionPort;

impl SyncSessionPort for NotReadySyncSessionPort {
    fn send_local_pose(
        &mut self,
        _frame: FrameId,
        _mode: RuntimeMode,
        _pose: Pose,
    ) -> Result<(), SyncSessionError> {
        Err(SyncSessionError::NotReady {
            reason: "room not joined".to_string(),
        })
    }
    fn poll_events(&mut self) -> Vec<SyncDelta> {
        Vec::new()
    }

    fn begin_shutdown(&mut self) {}

    fn drain_pending_events(&mut self) -> Vec<SyncDelta> {
        Vec::new()
    }

}

#[test]
fn pose_sync_coordinator_continues_frame_when_send_fails() {
    let mut coordinator = PoseSyncCoordinator::new(MovingCore::new(), FailingSyncSessionPort);

    let frame = coordinator
        .apply_frame(RuntimeMode::Vr, move_input(0, 0.5))
        .expect("frame must continue even if sync send fails");

    assert_eq!(frame.frame, FrameId(1));
    assert!(matches!(
        coordinator.last_sync_error_ref(),
        Some(SyncSessionError::TransportUnavailable { .. })
    ));
}

#[test]
fn pose_sync_coordinator_skips_send_when_sync_session_not_ready() {
    let mut coordinator = PoseSyncCoordinator::new(MovingCore::new(), NotReadySyncSessionPort);
    let frame = coordinator
        .apply_frame(RuntimeMode::Desktop, move_input(0, 0.25))
        .expect("frame must continue when sync session is not ready");

    assert_eq!(frame.frame, FrameId(1));
    assert!(coordinator.last_sync_error_ref().is_none());
}

#[derive(Default)]
struct PollingSyncSessionPort {
    pending_deltas: Vec<SyncDelta>,
}

impl SyncSessionPort for PollingSyncSessionPort {
    fn send_local_pose(
        &mut self,
        _frame: FrameId,
        _mode: RuntimeMode,
        _pose: Pose,
    ) -> Result<(), SyncSessionError> {
        Ok(())
    }

    fn poll_events(&mut self) -> Vec<SyncDelta> {
        std::mem::take(&mut self.pending_deltas)
    }
    fn begin_shutdown(&mut self) {}

    fn drain_pending_events(&mut self) -> Vec<SyncDelta> {
        Vec::new()
    }

}

#[test]
fn pose_sync_coordinator_applies_polled_sync_events_before_composing_frame() {
    let participant_id = ParticipantId::new("peer-polled");
    let remote_pose = pose_at(3.0, 0.5, -1.0);
    let mut coordinator = PoseSyncCoordinator::new(
        MovingCore::new(),
        PollingSyncSessionPort {
            pending_deltas: vec![
                SyncDelta::PeerJoined {
                    participant_id: participant_id.clone(),
                    session_epoch: 7,
                },
                SyncDelta::PoseReceived {
                    participant_id,
                    pose: remote_pose,
                    version: PoseVersion {
                        session_epoch: 7,
                        pose_seq: 1,
                    },
                },
            ],
        },
    );

    let frame = coordinator
        .apply_frame(RuntimeMode::Desktop, idle_input(0))
        .expect("frame should include polled remote pose");

    assert_eq!(frame.remote_poses().len(), 1);
    assert_eq!(frame.remote_poses()[0].participant_id, "peer-polled");
    assert_eq!(frame.remote_poses()[0].pose, remote_pose);
}

#[test]
fn pose_sync_coordinator_prioritizes_lifecycle_events_before_pose_events() {
    let participant_id = ParticipantId::new("peer-lifecycle-priority");
    let remote_pose = pose_at(4.0, 0.0, -3.0);
    let mut coordinator = PoseSyncCoordinator::new(
        MovingCore::new(),
        PollingSyncSessionPort {
            pending_deltas: vec![
                SyncDelta::PoseReceived {
                    participant_id: participant_id.clone(),
                    pose: remote_pose,
                    version: PoseVersion {
                        session_epoch: 9,
                        pose_seq: 1,
                    },
                },
                SyncDelta::PeerJoined {
                    participant_id,
                    session_epoch: 9,
                },
            ],
        },
    );

    let frame = coordinator
        .apply_frame(RuntimeMode::Desktop, idle_input(0))
        .expect("frame should apply lifecycle before pose");

    assert_eq!(frame.remote_poses().len(), 1);
    assert_eq!(frame.remote_poses()[0].pose, remote_pose);
}

#[derive(Default)]
struct ShutdownAwareSyncSessionPort {
    begin_shutdown_called: bool,
    drain_deltas: Vec<SyncDelta>,
}

impl SyncSessionPort for ShutdownAwareSyncSessionPort {
    fn send_local_pose(
        &mut self,
        _frame: FrameId,
        _mode: RuntimeMode,
        _pose: Pose,
    ) -> Result<(), SyncSessionError> {
        Ok(())
    }

    fn begin_shutdown(&mut self) {
        self.begin_shutdown_called = true;
    }

    fn drain_pending_events(&mut self) -> Vec<SyncDelta> {
        std::mem::take(&mut self.drain_deltas)
    }
    fn poll_events(&mut self) -> Vec<SyncDelta> {
        Vec::new()
    }

}

#[test]
fn pose_sync_coordinator_shutdown_drains_control_events_and_drops_pose_events() {
    let participant_id = ParticipantId::new("peer-shutdown");
    let remote_pose = pose_at(11.0, 0.0, 0.0);
    let mut coordinator = PoseSyncCoordinator::new(
        MovingCore::new(),
        ShutdownAwareSyncSessionPort {
            begin_shutdown_called: false,
            drain_deltas: vec![
                SyncDelta::PeerJoined {
                    participant_id: participant_id.clone(),
                    session_epoch: 3,
                },
                SyncDelta::PoseReceived {
                    participant_id: participant_id.clone(),
                    pose: remote_pose,
                    version: PoseVersion {
                        session_epoch: 3,
                        pose_seq: 1,
                    },
                },
            ],
        },
    );

    let report = coordinator.shutdown_sync_session();

    assert!(coordinator.sync_port().begin_shutdown_called);
    assert_eq!(report.applied_control_events, 1);
    assert_eq!(report.dropped_pose_events, 1);
    assert_eq!(coordinator.remotes().render_snapshot().len(), 0);
}

#[test]
fn remote_pose_repository_applies_newer_and_drops_stale_versions() {
    let mut repository = RemotePoseRepository::new();
    let participant_id = ParticipantId::new("peer-1");
    let older_pose = pose_at(1.0, 0.0, 0.0);
    let newer_pose = pose_at(2.0, 0.0, 0.0);

    let first = repository.apply_if_newer(
        participant_id.clone(),
        older_pose,
        PoseVersion {
            session_epoch: 1,
            pose_seq: 1,
        },
    );
    let stale = repository.apply_if_newer(
        participant_id.clone(),
        pose_at(0.0, 0.0, 0.0),
        PoseVersion {
            session_epoch: 1,
            pose_seq: 1,
        },
    );
    let newer = repository.apply_if_newer(
        participant_id.clone(),
        newer_pose,
        PoseVersion {
            session_epoch: 1,
            pose_seq: 2,
        },
    );

    assert_eq!(first, RemotePoseUpdate::Applied);
    assert_eq!(stale, RemotePoseUpdate::StaleDropped);
    assert_eq!(newer, RemotePoseUpdate::Applied);
    assert_eq!(
        repository
            .get(&participant_id)
            .and_then(|state| state.pose_state)
            .map(|state| state.pose),
        Some(newer_pose)
    );
}

#[test]
fn remote_pose_repository_handles_join_left_rejoin_and_inactive() {
    let mut repository = RemotePoseRepository::new();
    let participant_id = ParticipantId::new("peer-2");

    repository.on_peer_joined(participant_id.clone(), 1);
    assert_eq!(
        repository
            .get(&participant_id)
            .map(|state| state.session_epoch),
        Some(1)
    );

    assert!(repository.mark_inactive(&participant_id));
    assert_eq!(
        repository.get(&participant_id).map(|state| state.liveness),
        Some(RemoteLiveness::SuspectedDisconnected)
    );

    repository.on_peer_joined(participant_id.clone(), 2);
    assert_eq!(
        repository
            .get(&participant_id)
            .map(|state| state.session_epoch),
        Some(2)
    );
    assert_eq!(
        repository
            .get(&participant_id)
            .map(|state| state.pose_state),
        Some(None)
    );

    assert!(repository.on_peer_left(&participant_id));
    assert!(!repository.on_peer_left(&participant_id));
    assert!(repository.get(&participant_id).is_none());
}

#[test]
fn pose_sync_coordinator_reflects_remote_updates_on_next_frame_and_removes_left_peer() {
    let mut coordinator =
        PoseSyncCoordinator::new(MovingCore::new(), FakeSyncSessionPort::default());
    let participant_id = ParticipantId::new("peer-render");
    coordinator.on_peer_joined(participant_id.clone(), 1);
    let remote_pose = pose_at(9.0, 1.0, -2.0);
    let update = coordinator.apply_remote_pose(
        participant_id.clone(),
        remote_pose,
        PoseVersion {
            session_epoch: 1,
            pose_seq: 1,
        },
    );
    assert_eq!(update, RemotePoseUpdate::Applied);

    let frame = coordinator
        .apply_frame(RuntimeMode::Desktop, idle_input(0))
        .expect("frame with remote pose");
    assert_eq!(frame.remote_poses().len(), 1);
    assert_eq!(
        frame.remote_poses()[0].participant_id,
        "peer-render".to_string()
    );
    assert_eq!(frame.remote_poses()[0].pose, remote_pose);

    assert!(coordinator.on_peer_left(&participant_id));
    let after_left = coordinator
        .apply_frame(RuntimeMode::Desktop, idle_input(1))
        .expect("frame after peer left");
    assert!(after_left.remote_poses().is_empty());
}

#[test]
fn runtime_mode_label_is_stable_for_sync_trace_fields() {
    assert_eq!(runtime_mode_label(RuntimeMode::Desktop), "desktop");
    assert_eq!(runtime_mode_label(RuntimeMode::Vr), "vr");
}

#[test]
fn scope_boundary_policy_rejects_voice_stream_kind() {
    let result = ScopeBoundaryPolicy::default().ensure_stream_kind("voice");

    assert!(matches!(
        result,
        Err(ScopeBoundaryError::UnsupportedStreamKind { .. })
    ));
}

#[test]
fn scope_boundary_policy_rejects_bloom_production_signaling() {
    let result = ScopeBoundaryPolicy::with_signaling_route(SignalingRoute::BloomProduction)
        .ensure_signaling_route();

    assert_eq!(
        result,
        Err(ScopeBoundaryError::ProductionBloomSignalingOutOfScope)
    );
}

#[test]
fn scope_boundary_policy_accepts_pose_and_control_only() {
    let policy = ScopeBoundaryPolicy::default();
    assert_eq!(policy.ensure_stream_kind("pose"), Ok(()));
    assert_eq!(policy.ensure_stream_kind("control"), Ok(()));
    assert_eq!(policy.ensure_signaling_route(), Ok(()));
    match policy.ensure_stream_kind("Pose") {
        Err(ScopeBoundaryError::UnsupportedStreamKind { stream_kind }) => {
            assert_eq!(stream_kind, "Pose")
        }
        other => panic!("unexpected {:?}", other),
    }
    assert_eq!(
        ScopeBoundaryError::UnsupportedStreamKind {
            stream_kind: "voice".to_string()
        }
        .message(),
        "unsupported stream kind for this slice: voice"
    );
    assert_eq!(
        ScopeBoundaryError::ProductionBloomSignalingOutOfScope.message(),
        "production bloom signaling is out of slice scope"
    );
}

#[test]
fn production_route_skips_the_send_and_clears_the_error() {
    let mut coordinator = PoseSyncCoordinator::with_scope_policy(
        MovingCore::new(),
        FakeSyncSessionPort::default(),
        ScopeBoundaryPolicy::with_signaling_route(SignalingRoute::BloomProduction),
    );

    let frame = coordinator
        .apply_frame(RuntimeMode::Vr, move_input(0, 1.0))
        .expect("frame still runs");

    assert_eq!(frame.frame, FrameId(1));
    assert!(coordinator.sync_port().sent.is_empty());
    assert!(coordinator.last_sync_error_ref().is_none());
}

#[test]
fn core_failure_fails_the_frame_after_applying_events() {
    let participant_id = ParticipantId::new("peer-before-failure");
    let mut coordinator = PoseSyncCoordinator::new(
        FailingCore,
        PollingSyncSessionPort {
            pending_deltas: vec![SyncDelta::PeerJoined {
                participant_id: participant_id.clone(),
                session_epoch: 1,
            }],
        },
    );

    let result = coordinator.apply_frame(RuntimeMode::Desktop, idle_input(0));

    assert!(matches!(result, Err(CoreError::InitFailed { .. })));
    assert!(coordinator.remotes().get(&participant_id).is_some());
}

#[test]
fn sync_error_messages_name_the_reason() {
    assert_eq!(
        SyncSessionError::TransportUnavailable {
            reason: "down".to_string()
        }
        .message(),
        "sync transport unavailable: down"
    );
    assert_eq!(
        SyncSessionError::NotReady {
            reason: "later".to_string()
        }
        .message(),
        "sync session not ready: later"
    );
}

#[test]
fn pose_of_another_epoch_is_dropped() {
    let mut repository = RemotePoseRepository::new();
    let peer = ParticipantId::new("peer-epoch");
    repository.on_peer_joined(peer.clone(), 2);

    let old_epoch = repository.apply_if_newer(
        peer.clone(),
        pose_at(1.0, 0.0, 0.0),
        PoseVersion {
            session_epoch: 1,
            pose_seq: 50,
        },
    );

    assert_eq!(old_epoch, RemotePoseUpdate::StaleDropped);
    assert_eq!(
        repository.get(&peer).map(|state| state.pose_state),
        Some(None)
    );
}

#[test]
fn applied_pose_makes_an_inactive_peer_active_again() {
    let mut repository = RemotePoseRepository::new();
    let peer = ParticipantId::new("peer-back");
    repository.on_peer_joined(peer.clone(), 1);
    repository.mark_inactive(&peer);

    let update = repository.apply_if_newer(
        peer.clone(),
        pose_at(0.5, 0.0, 0.0),
        PoseVersion {
            session_epoch: 1,
            pose_seq: 1,
        },
    );

    assert_eq!(update, RemotePoseUpdate::Applied);
    assert_eq!(
        repository.get(&peer).map(|state| state.liveness),
        Some(RemoteLiveness::Active)
    );
}

#[test]
fn unknown_peer_cannot_be_marked_inactive() {
    let mut repository = RemotePoseRepository::default();
    assert!(!repository.mark_inactive(&ParticipantId::new("nobody")));
    assert!(repository.get(&ParticipantId::new("nobody")).is_none());
}

#[test]
fn snapshot_lists_each_peer_with_a_pose_once() {
    let mut repository = RemotePoseRepository::new();
    let a = ParticipantId::new("a");
    let b = ParticipantId::new("b");
    let c = ParticipantId::new("c");
    repository.on_peer_joined(a.clone(), 1);
    repository.on_peer_joined(b.clone(), 1);
    repository.apply_if_newer(
        a.clone(),
        pose_at(1.0, 0.0, 0.0),
        PoseVersion {
            session_epoch: 1,
            pose_seq: 1,
        },
    );
    repository.apply_if_newer(
        a.clone(),
        pose_at(2.0, 0.0, 0.0),
        PoseVersion {
            session_epoch: 1,
            pose_seq: 3,
        },
    );
    repository.apply_if_newer(
        c.clone(),
        pose_at(3.0, 0.0, 0.0),
        PoseVersion {
            session_epoch: 4,
            pose_seq: 1,
        },
    );

    let mut snapshot = repository.render_snapshot();
    snapshot.sort_by(|x, y| x.participant_id.cmp(&y.participant_id));

    assert_eq!(snapshot.len(), 2);
    assert_eq!(snapshot[0].participant_id, "a");
    assert_eq!(snapshot[0].pose, pose_at(2.0, 0.0, 0.0));
    assert_eq!(snapshot[1].participant_id, "c");

    let copy = repository.clone();
    assert_eq!(copy.render_snapshot().len(), 2);
    assert_eq!(b.as_str(), "b");
}

#[test]
fn coordinator_marks_peer_inactive() {
    let mut coordinator =
        PoseSyncCoordinator::new(MovingCore::new(), FakeSyncSessionPort::default());
    let peer = ParticipantId::new("peer-quiet");

    assert!(!coordinator.mark_peer_inactive(&peer));
    coordinator.on_peer_joined(peer.clone(), 5);
    assert!(coordinator.mark_peer_inactive(&peer));
    assert_eq!(
        coordinator.remotes().get(&peer).map(|s| s.liveness),
        Some(RemoteLiveness::SuspectedDisconnected)
    );
}

#[test]
fn delta_batch_applies_leave_and_inactive_events() {
    let a = ParticipantId::new("a");
    let b = ParticipantId::new("b");
    let mut coordinator = PoseSyncCoordinator::new(
        MovingCore::new(),
        PollingSyncSessionPort {
            pending_deltas: vec![
                SyncDelta::PeerJoined {
                    participant_id: a.clone(),
                    session_epoch: 1,
                },
                SyncDelta::PeerJoined {
                    participant_id: b.clone(),
                    session_epoch: 1,
                },
                SyncDelta::PeerInactive {
                    participant_id: a.clone(),
                },
                SyncDelta::PeerLeft {
                    participant_id: b.clone(),
                },
            ],
        },
    );

    coordinator
        .apply_frame(RuntimeMode::Desktop, idle_input(0))
        .expect("frame runs");

    assert_eq!(
        coordinator.remotes().get(&a).map(|s| s.liveness),
        Some(RemoteLiveness::SuspectedDisconnected)
    );
    assert!(coordinator.remotes().get(&b).is_none());
}

#[test]
fn pose_versions_order_by_epoch_then_sequence() {
    let early = PoseVersion {
        session_epoch: 1,
        pose_seq: 9,
    };
    let late = PoseVersion {
        session_epoch: 2,
        pose_seq: 0,
    };
    assert!(early < late);
    assert!(early.not_newer_than(&late));
    assert!(!late.not_newer_than(&early));
    assert!(early.not_newer_than(&early));
}

#[test]
fn session_port_without_events_hands_over_none() {
    let mut port = FakeSyncSessionPort::default();
    port.begin_shutdown();

    assert!(port.poll_events().is_empty());
    assert!(port.drain_pending_events().is_empty());
}

#[test]
fn default_policy_is_the_test_path_policy() {
    assert_eq!(
        ScopeBoundaryPolicy::with_signaling_route(SignalingRoute::SliceTestPath),
        ScopeBoundaryPolicy::default()
    );
    assert_ne!(
        ScopeBoundaryPolicy::with_signaling_route(SignalingRoute::BloomProduction),
        ScopeBoundaryPolicy::default()
    );
}
