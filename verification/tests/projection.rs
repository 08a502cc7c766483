use bakopa::bridge::RuntimeMode;
use bakopa::ecs::{FrameId, Pose, RemoteRenderPose, RenderFrame, UnitQuat, Vec3};
use bakopa::projection::{
    input_log_contract_fields, projection_log_contract_fields, ProjectionError,
    RenderStateProjector,
};

fn pose_at(x: f32, y: f32, z: f32) -> Pose {
    Pose {
        position: Vec3 {
            x: x.to_bits(),
            y: y.to_bits(),
            z: z.to_bits(),
        },
        orientation: UnitQuat::identity(),
    }
}

fn remote_cache_after_project(frame: &RenderFrame) -> Vec<(String, Pose)> {
    let mut projector = RenderStateProjector::default();
    let _ = projector.project(frame, false);
    frame
        .remote_poses()
        .iter()
        .filter_map(|r| {
            projector
                .cached_pose(&r.participant_id)
                .map(|p| (r.participant_id.clone(), p))
        })
        .collect()
}

#[test]
fn remote_pose_projection_follows_frame_updates_and_removals() {
    let first_remote_pose = pose_at(7.0, 1.0, -2.0);
    let second_remote_pose = pose_at(-4.0, 0.5, 3.0);
    let frame_with_remote = RenderFrame::from_primary_pose(FrameId(1), Pose::identity())
        .with_remote_poses(vec![RemoteRenderPose {
            participant_id: "peer-projection".to_string(),
            pose: first_remote_pose,
        }]);
    let frame_after_update = RenderFrame::from_primary_pose(FrameId(2), Pose::identity())
        .with_remote_poses(vec![RemoteRenderPose {
            participant_id: "peer-projection".to_string(),
            pose: second_remote_pose,
        }]);
    let frame_after_left = RenderFrame::from_primary_pose(FrameId(3), Pose::identity());

    let first = remote_cache_after_project(&frame_with_remote);
    let updated = remote_cache_after_project(&frame_after_update);
    let removed = remote_cache_after_project(&frame_after_left);

    assert_eq!(first.len(), 1);
    assert_eq!(first[0].0, "peer-projection".to_string());
    assert_eq!(first[0].1, first_remote_pose);

    assert_eq!(updated.len(), 1);
    assert_eq!(updated[0].0, "peer-projection".to_string());
    assert_eq!(updated[0].1, second_remote_pose);

    assert!(removed.is_empty());
}

#[test]
fn one_projector_follows_updates_and_removals() {
    let mut projector = RenderStateProjector::new();
    let frame = RenderFrame::from_primary_pose(FrameId(1), Pose::identity()).with_remote_poses(
        vec![
            RemoteRenderPose {
                participant_id: "a".to_string(),
                pose: pose_at(1.0, 0.0, 0.0),
            },
            RemoteRenderPose {
                participant_id: "b".to_string(),
                pose: pose_at(2.0, 0.0, 0.0),
            },
            RemoteRenderPose {
                participant_id: "a".to_string(),
                pose: pose_at(3.0, 0.0, 0.0),
            },
        ],
    );

    projector.project(&frame, true).expect("valid target");
    assert_eq!(projector.cached_count(), 2);
    assert_eq!(projector.cached_pose("a"), Some(pose_at(3.0, 0.0, 0.0)));
    assert_eq!(projector.cached_pose("b"), Some(pose_at(2.0, 0.0, 0.0)));

    let next = RenderFrame::from_primary_pose(FrameId(2), Pose::identity());
    projector.project(&next, true).expect("valid target");
    assert_eq!(projector.cached_count(), 0);
    assert_eq!(projector.cached_pose("a"), None);
}

#[test]
fn input_and_projection_log_contract_fields_are_stable() {
    let input_desktop = input_log_contract_fields(RuntimeMode::Desktop);
    let input_vr = input_log_contract_fields(RuntimeMode::Vr);
    let projection_desktop = projection_log_contract_fields(RuntimeMode::Desktop);
    let projection_vr = projection_log_contract_fields(RuntimeMode::Vr);

    assert_eq!(
        input_desktop,
        ("input", "unknown", "local", "pose", "desktop")
    );
    assert_eq!(input_vr, ("input", "unknown", "local", "pose", "vr"));
    assert_eq!(
        projection_desktop,
        ("projection", "unknown", "local", "pose", "desktop")
    );
    assert_eq!(
        projection_vr,
        ("projection", "unknown", "local", "pose", "vr")
    );
}

#[test]
fn render_state_projector_returns_error_for_invalid_target_node() {
    let mut projector = RenderStateProjector::default();
    let frame = RenderFrame::from_primary_pose(FrameId(1), Pose::identity());

    let result = projector.project(&frame, false);

    assert_eq!(result, Err(ProjectionError::InvalidTargetNode));
    assert_eq!(
        ProjectionError::InvalidTargetNode.message(),
        "target node is invalid"
    );
}

#[test]
fn projector_keeps_the_runtime_mode() {
    let mut projector = RenderStateProjector::new();
    assert_eq!(projector.runtime_mode(), RuntimeMode::Desktop);
    projector.set_runtime_mode(RuntimeMode::Vr);
    assert_eq!(projector.runtime_mode(), RuntimeMode::Vr);
}
