//! What the engine side does with a rendered frame: it keeps, per remote
//! participant, the pose it last projected, and refuses to project onto a
//! target node that is gone. The engine's own transform types and calls
//! stay outside this crate; the pose is what they are computed from.
use vstd::prelude::*;

use crate::bridge::RuntimeMode;
use crate::ecs::{Pose, RemoteRenderPose, RenderFrame};
use crate::sync::{
    id_texts, lemma_table_push, lemma_table_update, mode_label, position_of, runtime_mode_label,
    table_view, ParticipantId,
};

verus! {

/// Why a frame could not be projected.
#[derive(Debug, Clone, Copy, PartialEq, Eq, Structural)]
pub enum ProjectionError {
    InvalidTargetNode,
}

impl ProjectionError {
    /// The message of the error.
    pub open spec fn text(&self) -> Seq<char> {
        match self {
            ProjectionError::InvalidTargetNode => "target node is invalid"@,
        }
    }

    /// The message of the error.
    pub fn message(&self) -> (r: String)
        ensures
            r@ == self.text(),
    {
        match self {
            ProjectionError::InvalidTargetNode => "target node is invalid".to_string(),
        }
    }
}

/// The pose of each remote participant of a frame; when a participant is
/// listed twice, the later pose wins.
pub open spec fn pose_cache(remotes: Seq<RemoteRenderPose>) -> Map<Seq<char>, Pose>
    decreases remotes.len(),
{
    if remotes.len() == 0 {
        Map::empty()
    } else {
        pose_cache(remotes.drop_last()).insert(
            remotes.last().participant_id@,
            remotes.last().pose,
        )
    }
}

/// Projects frames for the engine: keeps the remote poses of the last
/// frame, keyed by participant, and the runtime mode for its traces.
pub struct RenderStateProjector {
    cached_ids: Vec<ParticipantId>,
    cached_poses: Vec<Pose>,
    runtime_mode: RuntimeMode,
}

impl RenderStateProjector {
    #[verifier::type_invariant]
    closed spec fn wf(self) -> bool {
        &&& self.cached_ids@.len() == self.cached_poses@.len()
        &&& id_texts(self.cached_ids@).no_duplicates()
    }

    /// The remote poses of the last projected frame.
    pub closed spec fn cache(&self) -> Map<Seq<char>, Pose> {
        table_view(self.cached_ids@, self.cached_poses@)
    }

    /// The runtime mode for traces.
    pub closed spec fn mode(&self) -> RuntimeMode {
        self.runtime_mode
    }

    /// An empty cache, in desktop mode.
    pub fn new() -> (r: Self)
        ensures
            r.cache() == Map::<Seq<char>, Pose>::empty(),
            r.mode() == RuntimeMode::Desktop,
    {
        let r = RenderStateProjector {
            cached_ids: Vec::new(),
            cached_poses: Vec::new(),
            runtime_mode: RuntimeMode::Desktop,
        };
        assert(r.cache() =~= Map::<Seq<char>, Pose>::empty());
        r
    }

    /// Sets the runtime mode for traces.
    pub fn set_runtime_mode(&mut self, mode: RuntimeMode)
        ensures
            final(self).mode() == mode,
            final(self).cache() == old(self).cache(),
    {
        proof {
            use_type_invariant(&*self);
        }
        self.runtime_mode = mode;
    }

    /// The runtime mode for traces.
    pub fn runtime_mode(&self) -> (r: RuntimeMode)
        ensures
            r == self.mode(),
    {
        self.runtime_mode
    }

    /// The cached pose of the participant written `participant_id`.
    pub fn cached_pose(&self, participant_id: &str) -> (r: Option<Pose>)
        ensures
            r == self.cache().get(participant_id@),
    {
        proof {
            use_type_invariant(self);
        }
        let key = ParticipantId::new(participant_id);
        match position_of(self.cached_ids.as_slice(), &key) {
            Some(i) => {
                proof {
                    crate::sync::lemma_index_of(id_texts(self.cached_ids@), i as int);
                }
                Some(self.cached_poses[i])
            },
            None => None,
        }
    }

    /// The number of cached participants.
    pub fn cached_count(&self) -> (r: usize)
        ensures
            r == self.cache().dom().len(),
    {
        proof {
            use_type_invariant(self);
            lemma_table_dom_len(self.cached_ids@, self.cached_poses@);
        }
        self.cached_ids.len()
    }

    /// Replaces the cache with the remote poses of `frame`, then projects
    /// the frame: onto a valid target it succeeds, onto one that is gone it
    /// fails with `InvalidTargetNode`. The engine applies the transform.
    pub fn project(&mut self, frame: &RenderFrame, target_valid: bool) -> (r: Result<
        (),
        ProjectionError,
    >)
        ensures
            final(self).cache() == pose_cache(frame.spec_remote_poses()),
            final(self).mode() == old(self).mode(),
            r is Ok <==> target_valid,
            r matches Err(e) ==> e == ProjectionError::InvalidTargetNode,
    {
        self.refresh_remote_projection_cache(frame);
        if !target_valid {
            return Err(ProjectionError::InvalidTargetNode);
        }
        Ok(())
    }

    fn refresh_remote_projection_cache(&mut self, frame: &RenderFrame)
        ensures
            final(self).cache() == pose_cache(frame.spec_remote_poses()),
            final(self).mode() == old(self).mode(),
    {
        let remotes = frame.remote_poses();
        let mut ids: Vec<ParticipantId> = Vec::new();
        let mut poses: Vec<Pose> = Vec::new();
        let mut i: usize = 0;
        proof {
            assert(table_view(ids@, poses@) =~= Map::<Seq<char>, Pose>::empty());
            assert(remotes@.take(0) =~= Seq::<RemoteRenderPose>::empty());
        }
        while i < remotes.len()
            invariant
                i <= remotes@.len(),
                remotes@ == frame.spec_remote_poses(),
                ids@.len() == poses@.len(),
                id_texts(ids@).no_duplicates(),
                table_view(ids@, poses@) == pose_cache(remotes@.take(i as int)),
            decreases remotes@.len() - i,
        {
            let key = ParticipantId::new(remotes[i].participant_id.as_str());
            let pose = remotes[i].pose;
            proof {
                assert(remotes@.take(i as int + 1).drop_last() =~= remotes@.take(i as int));
            }
            match position_of(ids.as_slice(), &key) {
                Some(k) => {
                    proof {
                        lemma_table_update(ids@, poses@, k as int, pose);
                    }
                    poses.set(k, pose);
                },
                None => {
                    proof {
                        lemma_table_push(ids@, poses@, key, pose);
                    }
                    ids.push(key);
                    poses.push(pose);
                },
            }
            i = i + 1;
        }
        proof {
            assert(remotes@.take(remotes@.len() as int) =~= remotes@);
        }
        let runtime_mode = self.runtime_mode;
        *self = RenderStateProjector { cached_ids: ids, cached_poses: poses, runtime_mode };
    }
}

impl Default for RenderStateProjector {
    fn default() -> (r: Self)
        ensures
            r.cache() == Map::<Seq<char>, Pose>::empty(),
            r.mode() == RuntimeMode::Desktop,
    {
        RenderStateProjector::new()
    }
}

/// A table without repeated identifiers has one entry per identifier.
proof fn lemma_table_dom_len(ids: Seq<ParticipantId>, vals: Seq<Pose>)
    requires
        ids.len() == vals.len(),
        id_texts(ids).no_duplicates(),
    ensures
        table_view(ids, vals).dom().len() == ids.len(),
{
    let keys = id_texts(ids);
    assert(table_view(ids, vals).dom() =~= keys.to_set());
    keys.unique_seq_to_set();
}

/// The fields that projection traces carry: stage, room, participant,
/// stream kind and runtime mode.
pub fn projection_log_contract_fields(mode: RuntimeMode) -> (r: (
    &'static str,
    &'static str,
    &'static str,
    &'static str,
    &'static str,
))
    ensures
        r.0@ == "projection"@,
        r.1@ == "unknown"@,
        r.2@ == "local"@,
        r.3@ == "pose"@,
        r.4@ == mode_label(mode),
{
    ("projection", "unknown", "local", "pose", runtime_mode_label(mode))
}

/// The fields that input traces carry: stage, room, participant, stream
/// kind and runtime mode.
pub fn input_log_contract_fields(mode: RuntimeMode) -> (r: (
    &'static str,
    &'static str,
    &'static str,
    &'static str,
    &'static str,
))
    ensures
        r.0@ == "input"@,
        r.1@ == "unknown"@,
        r.2@ == "local"@,
        r.3@ == "pose"@,
        r.4@ == mode_label(mode),
{
    ("input", "unknown", "local", "pose", runtime_mode_label(mode))
}

/// Law: projecting a frame leaves, for each remote participant, exactly
/// the last pose the frame lists for it; participants the frame no longer
/// lists are dropped.
pub proof fn lemma_cache_follows_frame(remotes: Seq<RemoteRenderPose>, k: Seq<char>)
    ensures
        pose_cache(remotes).contains_key(k) <==> exists|i: int|
            0 <= i < remotes.len() && (#[trigger] remotes[i]).participant_id@ == k,
        pose_cache(remotes).contains_key(k) ==> exists|i: int|
            0 <= i < remotes.len() && (#[trigger] remotes[i]).participant_id@ == k
                && pose_cache(remotes)[k] == remotes[i].pose && forall|j: int|
                i < j < remotes.len() ==> (#[trigger] remotes[j]).participant_id@ != k,
    decreases remotes.len(),
{
    if remotes.len() > 0 {
        let init = remotes.drop_last();
        lemma_cache_follows_frame(init, k);
        let n = remotes.len() - 1;
        if remotes.last().participant_id@ == k {
            assert(remotes[n].participant_id@ == k);
        } else {
            if pose_cache(init).contains_key(k) {
                let i = choose|i: int|
                    0 <= i < init.len() && (#[trigger] init[i]).participant_id@ == k
                        && pose_cache(init)[k] == init[i].pose && forall|j: int|
                        i < j < init.len() ==> (#[trigger] init[j]).participant_id@ != k;
                assert(remotes[i] == init[i]);
                assert forall|j: int| i < j < remotes.len() implies (
                #[trigger] remotes[j]).participant_id@ != k by {
                    if j < n {
                        assert(remotes[j] == init[j]);
                    }
                }
            }
            assert forall|i: int|
                0 <= i < remotes.len() && (#[trigger] remotes[i]).participant_id@ == k implies
                pose_cache(init).contains_key(k) by {
                assert(i < n);
                assert(init[i] == remotes[i]);
            }
        }
    }
}

} // verus!
