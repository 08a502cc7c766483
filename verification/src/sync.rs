//! Pose synchronisation of the client: the scope policy of the sync slice,
//! the repository of remote participants' poses, and the coordinator that
//! runs frames, applies sync events and sends the local pose.
use vstd::prelude::*;

use crate::bridge::RuntimeMode;
use crate::client_errors::{join_text, CoreError};
use crate::ecs::{EcsCore, FrameId, InputSnapshot, Pose, RemoteRenderPose, RenderFrame};

verus! {

/// Stream kind of pose updates.
pub open spec fn pose_stream() -> Seq<char> {
    "pose"@
}

/// Stream kind of lifecycle (control) events.
pub open spec fn control_stream() -> Seq<char> {
    "control"@
}

/// Failures of the sync session.
#[derive(Debug, PartialEq, Eq)]
pub enum SyncSessionError {
    TransportUnavailable { reason: String },
    NotReady { reason: String },
}

impl Clone for SyncSessionError {
    fn clone(&self) -> (r: Self)
        ensures
            r == *self,
    {
        match self {
            SyncSessionError::TransportUnavailable { reason } => {
                SyncSessionError::TransportUnavailable { reason: reason.clone() }
            },
            SyncSessionError::NotReady { reason } => SyncSessionError::NotReady {
                reason: reason.clone(),
            },
        }
    }
}

impl SyncSessionError {
    /// The message of the error.
    pub open spec fn text(&self) -> Seq<char> {
        match self {
            SyncSessionError::TransportUnavailable { reason } => "sync transport unavailable: "@
                + reason@,
            SyncSessionError::NotReady { reason } => "sync session not ready: "@ + reason@,
        }
    }

    /// The message of the error.
    pub fn message(&self) -> (r: String)
        ensures
            r@ == self.text(),
    {
        match self {
            SyncSessionError::TransportUnavailable { reason } => join_text(
                "sync transport unavailable: ",
                reason,
            ),
            SyncSessionError::NotReady { reason } => join_text("sync session not ready: ", reason),
        }
    }
}

/// What the scope policy of the slice refuses.
#[derive(Debug, PartialEq, Eq)]
pub enum ScopeBoundaryError {
    UnsupportedStreamKind { stream_kind: String },
    ProductionBloomSignalingOutOfScope,
}

impl Clone for ScopeBoundaryError {
    fn clone(&self) -> (r: Self)
        ensures
            r == *self,
    {
        match self {
            ScopeBoundaryError::UnsupportedStreamKind { stream_kind } => {
                ScopeBoundaryError::UnsupportedStreamKind { stream_kind: stream_kind.clone() }
            },
            ScopeBoundaryError::ProductionBloomSignalingOutOfScope => {
                ScopeBoundaryError::ProductionBloomSignalingOutOfScope
            },
        }
    }
}

impl ScopeBoundaryError {
    /// The message of the error.
    pub open spec fn text(&self) -> Seq<char> {
        match self {
            ScopeBoundaryError::UnsupportedStreamKind { stream_kind } =>
                "unsupported stream kind for this slice: "@ + stream_kind@,
            ScopeBoundaryError::ProductionBloomSignalingOutOfScope =>
                "production bloom signaling is out of slice scope"@,
        }
    }

    /// The message of the error.
    pub fn message(&self) -> (r: String)
        ensures
            r@ == self.text(),
    {
        match self {
            ScopeBoundaryError::UnsupportedStreamKind { stream_kind } => join_text(
                "unsupported stream kind for this slice: ",
                stream_kind,
            ),
            ScopeBoundaryError::ProductionBloomSignalingOutOfScope => {
                "production bloom signaling is out of slice scope".to_string()
            },
        }
    }
}

/// Where signaling goes: the test path of the slice, or production Bloom.
#[derive(Debug, Clone, Copy, PartialEq, Eq, Structural)]
pub enum SignalingRoute {
    SliceTestPath,
    BloomProduction,
}

/// What the sync slice allows: pose and control streams, over the test
/// signaling path.
#[derive(Debug, Clone, Copy, PartialEq, Eq, Structural)]
pub struct ScopeBoundaryPolicy {
    signaling_route: SignalingRoute,
}

impl Default for ScopeBoundaryPolicy {
    fn default() -> (r: Self)
        ensures
            r.route() == SignalingRoute::SliceTestPath,
    {
        ScopeBoundaryPolicy { signaling_route: SignalingRoute::SliceTestPath }
    }
}

/// Whether the slice carries a stream of this kind.
pub open spec fn stream_kind_allowed(kind: Seq<char>) -> bool {
    kind == pose_stream() || kind == control_stream()
}

impl ScopeBoundaryPolicy {
    /// The signaling route of the policy.
    pub closed spec fn route(&self) -> SignalingRoute {
        self.signaling_route
    }

    /// A policy with the given signaling route.
    pub fn with_signaling_route(signaling_route: SignalingRoute) -> (r: Self)
        ensures
            r.route() == signaling_route,
    {
        ScopeBoundaryPolicy { signaling_route }
    }

    /// Accepts the pose and control streams; refuses any other kind, naming it.
    pub fn ensure_stream_kind(self, stream_kind: &str) -> (r: Result<(), ScopeBoundaryError>)
        ensures
            r is Ok <==> stream_kind_allowed(stream_kind@),
            r matches Err(e) ==> (e matches ScopeBoundaryError::UnsupportedStreamKind {
                stream_kind: k,
            } && k@ == stream_kind@),
    {
        let kind = String::from_str(stream_kind);
        if kind == String::from_str("pose") || kind == String::from_str("control") {
            Ok(())
        } else {
            Err(ScopeBoundaryError::UnsupportedStreamKind { stream_kind: kind })
        }
    }

    /// Accepts the test signaling path; refuses production Bloom.
    pub fn ensure_signaling_route(self) -> (r: Result<(), ScopeBoundaryError>)
        ensures
            self.route() == SignalingRoute::SliceTestPath ==> r is Ok,
            self.route() == SignalingRoute::BloomProduction ==> r == Err::<(), ScopeBoundaryError>(
                ScopeBoundaryError::ProductionBloomSignalingOutOfScope,
            ),
    {
        match self.signaling_route {
            SignalingRoute::SliceTestPath => Ok(()),
            SignalingRoute::BloomProduction => Err(
                ScopeBoundaryError::ProductionBloomSignalingOutOfScope,
            ),
        }
    }
}

/// Law: a policy is its route: two policies with the same route are the
/// same policy (so the default is the policy built for the test path).
pub proof fn lemma_policy_is_its_route(a: ScopeBoundaryPolicy, b: ScopeBoundaryPolicy)
    ensures
        a.route() == b.route() ==> a == b,
{
}

/// Label of a runtime mode in sync traces.
pub open spec fn mode_label(mode: RuntimeMode) -> Seq<char> {
    match mode {
        RuntimeMode::Desktop => "desktop"@,
        RuntimeMode::Vr => "vr"@,
    }
}

/// Label of a runtime mode in sync traces.
pub fn runtime_mode_label(mode: RuntimeMode) -> (r: &'static str)
    ensures
        r@ == mode_label(mode),
{
    match mode {
        RuntimeMode::Desktop => "desktop",
        RuntimeMode::Vr => "vr",
    }
}

/// Identifier of a participant of the sync session.
#[derive(Debug, PartialEq, Eq, Hash)]
pub struct ParticipantId(String);

impl View for ParticipantId {
    type V = Seq<char>;

    closed spec fn view(&self) -> Seq<char> {
        self.0@
    }
}

impl Clone for ParticipantId {
    fn clone(&self) -> (r: Self)
        ensures
            r == *self,
    {
        ParticipantId(self.0.clone())
    }
}

impl ParticipantId {
    /// An identifier with the given text.
    pub fn new(value: &str) -> (r: Self)
        ensures
            r@ == value@,
    {
        ParticipantId(String::from_str(value))
    }

    /// The text of the identifier.
    pub fn as_str(&self) -> (r: &str)
        ensures
            r@ == self@,
    {
        self.0.as_str()
    }

    /// The text of the identifier, as a new string.
    pub fn to_text(&self) -> (r: String)
        ensures
            r@ == self@,
    {
        self.0.clone()
    }

    /// Whether two identifiers have the same text.
    pub fn same_as(&self, other: &ParticipantId) -> (r: bool)
        ensures
            r == (self@ == other@),
    {
        self.0 == other.0
    }
}

/// Version of a remote pose: the session epoch, then a sequence number
/// within it.
#[derive(Debug, Clone, Copy, PartialEq, Eq, PartialOrd, Ord, Structural)]
pub struct PoseVersion {
    pub session_epoch: u64,
    pub pose_seq: u64,
}

/// `a` is not newer than `b`, comparing the epoch first and then the
/// sequence number.
pub open spec fn version_le(a: PoseVersion, b: PoseVersion) -> bool {
    a.session_epoch < b.session_epoch || (a.session_epoch == b.session_epoch && a.pose_seq
        <= b.pose_seq)
}

impl PoseVersion {
    /// Whether this version is not newer than `other`.
    pub fn not_newer_than(&self, other: &PoseVersion) -> (r: bool)
        ensures
            r == version_le(*self, *other),
    {
        self.session_epoch < other.session_epoch || (self.session_epoch == other.session_epoch
            && self.pose_seq <= other.pose_seq)
    }
}

/// The last pose applied for a participant, with its version.
#[derive(Debug, Clone, Copy, PartialEq, Eq, Structural)]
pub struct RemotePoseState {
    pub pose: Pose,
    pub version: PoseVersion,
}

/// Whether a participant is believed to be connected.
#[derive(Debug, Clone, Copy, PartialEq, Eq, Structural)]
pub enum RemoteLiveness {
    Active,
    SuspectedDisconnected,
}

/// What is known of a remote participant.
#[derive(Debug, Clone, Copy, PartialEq, Eq, Structural)]
pub struct RemoteParticipantState {
    pub session_epoch: u64,
    pub pose_state: Option<RemotePoseState>,
    pub liveness: RemoteLiveness,
}

/// Outcome of offering a remote pose.
#[derive(Debug, Clone, Copy, PartialEq, Eq, Structural)]
pub enum RemotePoseUpdate {
    Applied,
    StaleDropped,
}

/// Remote participants, keyed by the text of their identifier.
pub type RemoteMap = Map<Seq<char>, RemoteParticipantState>;

/// State of a participant that has just joined in `session_epoch`.
pub open spec fn joined_state(session_epoch: u64) -> RemoteParticipantState {
    RemoteParticipantState { session_epoch, pose_state: None, liveness: RemoteLiveness::Active }
}

/// Joining (again) starts the participant afresh in the epoch, without pose.
pub open spec fn join_spec(m: RemoteMap, id: Seq<char>, session_epoch: u64) -> RemoteMap {
    m.insert(id, joined_state(session_epoch))
}

/// Marks a known participant as suspected disconnected.
pub open spec fn inactive_spec(m: RemoteMap, id: Seq<char>) -> RemoteMap {
    if m.contains_key(id) {
        m.insert(id, RemoteParticipantState { liveness: RemoteLiveness::SuspectedDisconnected, ..m[id] })
    } else {
        m
    }
}

/// Offers a pose: an unknown participant is first added in the pose's
/// epoch; the pose is dropped when its epoch is not the participant's or
/// it is not newer than the pose held; otherwise it is held and the
/// participant is active again.
pub open spec fn apply_spec(m: RemoteMap, id: Seq<char>, pose: Pose, version: PoseVersion) -> (
    RemoteMap,
    RemotePoseUpdate,
) {
    let st = if m.contains_key(id) {
        m[id]
    } else {
        joined_state(version.session_epoch)
    };
    if version.session_epoch != st.session_epoch {
        (m.insert(id, st), RemotePoseUpdate::StaleDropped)
    } else if st.pose_state matches Some(current) && version_le(version, current.version) {
        (m.insert(id, st), RemotePoseUpdate::StaleDropped)
    } else {
        (
            m.insert(
                id,
                RemoteParticipantState {
                    session_epoch: st.session_epoch,
                    pose_state: Some(RemotePoseState { pose, version }),
                    liveness: RemoteLiveness::Active,
                },
            ),
            RemotePoseUpdate::Applied,
        )
    }
}

/// `s` lists, once each and in some order, the held pose of every
/// participant that has one.
pub open spec fn snapshot_of(s: Seq<RemoteRenderPose>, m: RemoteMap) -> bool {
    &&& s.map_values(|p: RemoteRenderPose| p.participant_id@).no_duplicates()
    &&& forall|i: int|
        0 <= i < s.len() ==> {
            let k = (#[trigger] s[i]).participant_id@;
            &&& m.contains_key(k)
            &&& m[k].pose_state matches Some(ps)
            &&& ps.pose == s[i].pose
        }
    &&& forall|k: Seq<char>|
        #[trigger] m.contains_key(k) && m[k].pose_state is Some ==> exists|i: int|
            0 <= i < s.len() && (#[trigger] s[i]).participant_id@ == k
}

/// Remote participants and their latest poses.
pub struct RemotePoseRepository {
    ids: Vec<ParticipantId>,
    states: Vec<RemoteParticipantState>,
}

/// The texts of a list of identifiers.
pub open spec fn id_texts(ids: Seq<ParticipantId>) -> Seq<Seq<char>> {
    ids.map_values(|p: ParticipantId| p@)
}

/// The map held by parallel lists of identifiers and values.
pub(crate) open spec fn table_view<V>(ids: Seq<ParticipantId>, states: Seq<V>) -> Map<Seq<char>, V> {
    Map::new(
        |k: Seq<char>| id_texts(ids).contains(k),
        |k: Seq<char>| states[id_texts(ids).index_of(k)],
    )
}

/// In a list without repeats, a text found at `i` is found only there.
pub(crate) proof fn lemma_index_of(keys: Seq<Seq<char>>, i: int)
    requires
        keys.no_duplicates(),
        0 <= i < keys.len(),
    ensures
        keys.contains(keys[i]),
        keys.index_of(keys[i]) == i,
{
    assert(keys.contains(keys[i]));
    let j = keys.index_of(keys[i]);
    assert(0 <= j < keys.len() && keys[j] == keys[i]);
}

/// Replacing the value at `i` replaces the value of the identifier at `i`.
pub(crate) proof fn lemma_table_update<V>(
    ids: Seq<ParticipantId>,
    states: Seq<V>,
    i: int,
    state: V,
)
    requires
        ids.len() == states.len(),
        id_texts(ids).no_duplicates(),
        0 <= i < ids.len(),
    ensures
        table_view(ids, states.update(i, state)) == table_view(ids, states).insert(ids[i]@, state),
{
    let keys = id_texts(ids);
    lemma_index_of(keys, i);
    let after = table_view(ids, states.update(i, state));
    let before = table_view(ids, states);
    assert forall|k: Seq<char>| #[trigger] after.contains_key(k) implies after[k] == before.insert(
        ids[i]@,
        state,
    )[k] by {
        lemma_index_of(keys, keys.index_of(k));
    }
    assert(after =~= before.insert(ids[i]@, state));
}

/// Appending a new identifier with its value adds it to the map.
pub(crate) proof fn lemma_table_push<V>(
    ids: Seq<ParticipantId>,
    states: Seq<V>,
    p: ParticipantId,
    state: V,
)
    requires
        ids.len() == states.len(),
        id_texts(ids).no_duplicates(),
        !id_texts(ids).contains(p@),
    ensures
        id_texts(ids.push(p)).no_duplicates(),
        table_view(ids.push(p), states.push(state)) == table_view(ids, states).insert(p@, state),
{
    let old_keys = id_texts(ids);
    let keys = id_texts(ids.push(p));
    assert(keys =~= old_keys.push(p@));
    assert forall|a: int, b: int| 0 <= a < keys.len() && 0 <= b < keys.len() && a != b implies keys[a]
        != keys[b] by {
        if a == old_keys.len() {
            assert(old_keys[b] == keys[b]);
        }
        if b == old_keys.len() {
            assert(old_keys[a] == keys[a]);
        }
    }
    let after = table_view(ids.push(p), states.push(state));
    let before = table_view(ids, states);
    assert forall|k: Seq<char>| #[trigger] keys.contains(k) <==> (old_keys.contains(k) || k == p@) by {
        if old_keys.contains(k) {
            let j = old_keys.index_of(k);
            assert(keys[j] == k);
        }
        if k == p@ {
            assert(keys[old_keys.len() as int] == k);
        }
    }
    assert forall|k: Seq<char>| #[trigger] after.contains_key(k) implies after[k] == before.insert(
        p@,
        state,
    )[k] by {
        let j = keys.index_of(k);
        lemma_index_of(keys, j);
        if j < old_keys.len() {
            lemma_index_of(old_keys, j);
        }
    }
    assert(after =~= before.insert(p@, state));
}

/// Removing the entry at `i` removes its identifier from the map.
proof fn lemma_table_remove<V>(ids: Seq<ParticipantId>, states: Seq<V>, i: int)
    requires
        ids.len() == states.len(),
        id_texts(ids).no_duplicates(),
        0 <= i < ids.len(),
    ensures
        id_texts(ids.remove(i)).no_duplicates(),
        table_view(ids.remove(i), states.remove(i)) == table_view(ids, states).remove(ids[i]@),
{
    let old_keys = id_texts(ids);
    let keys = id_texts(ids.remove(i));
    assert(keys =~= old_keys.remove(i));
    assert forall|a: int, b: int| 0 <= a < keys.len() && 0 <= b < keys.len() && a != b implies keys[a]
        != keys[b] by {
        let a0 = if a < i { a } else { a + 1 };
        let b0 = if b < i { b } else { b + 1 };
        assert(keys[a] == old_keys[a0]);
        assert(keys[b] == old_keys[b0]);
    }
    let after = table_view(ids.remove(i), states.remove(i));
    let before = table_view(ids, states);
    lemma_index_of(old_keys, i);
    assert forall|k: Seq<char>| #[trigger] keys.contains(k) <==> (old_keys.contains(k) && k
        != ids[i]@) by {
        if keys.contains(k) {
            let j = keys.index_of(k);
            let j0 = if j < i { j } else { j + 1 };
            assert(old_keys[j0] == k);
        }
        if old_keys.contains(k) && k != ids[i]@ {
            let j0 = old_keys.index_of(k);
            if j0 < i {
                assert(keys[j0] == k);
            } else {
                assert(j0 != i);
                assert(keys[j0 - 1] == k);
            }
        }
    }
    assert forall|k: Seq<char>| #[trigger] after.contains_key(k) implies after[k] == before.remove(
        ids[i]@,
    )[k] by {
        let j = keys.index_of(k);
        lemma_index_of(keys, j);
        let j0 = if j < i { j } else { j + 1 };
        assert(old_keys[j0] == k);
        lemma_index_of(old_keys, j0);
    }
    assert(after =~= before.remove(ids[i]@));
}

/// Position of `id` in `ids`, if it is there.
pub(crate) fn position_of(ids: &[ParticipantId], id: &ParticipantId) -> (r: Option<usize>)
    ensures
        match r {
            Some(i) => i < ids@.len() && ids@[i as int]@ == id@,
            None => !id_texts(ids@).contains(id@),
        },
{
    let mut i: usize = 0;
    while i < ids.len()
        invariant
            i <= ids@.len(),
            forall|j: int| 0 <= j < i ==> ids@[j]@ != id@,
        decreases ids@.len() - i,
    {
        if ids[i].same_as(id) {
            return Some(i);
        }
        i = i + 1;
    }
    proof {
        let keys = id_texts(ids@);
        if keys.contains(id@) {
            let j = keys.index_of(id@);
            assert(ids@[j]@ == id@);
        }
    }
    None
}

impl RemotePoseRepository {
    #[verifier::type_invariant]
    closed spec fn wf(self) -> bool {
        &&& self.ids@.len() == self.states@.len()
        &&& id_texts(self.ids@).no_duplicates()
    }

    /// The participants and their states.
    pub closed spec fn view(&self) -> RemoteMap {
        table_view(self.ids@, self.states@)
    }

    /// No participant.
    pub fn new() -> (r: Self)
        ensures
            r.view() == RemoteMap::empty(),
    {
        let r = RemotePoseRepository { ids: Vec::new(), states: Vec::new() };
        assert(r.view() =~= RemoteMap::empty());
        r
    }

    /// Position of `id` in the list, if it is there.
    fn find(&self, id: &ParticipantId) -> (r: Option<usize>)
        ensures
            match r {
                Some(i) => i < self.ids@.len() && self.ids@[i as int]@ == id@,
                None => !id_texts(self.ids@).contains(id@),
            },
    {
        position_of(self.ids.as_slice(), id)
    }

    /// Takes the lists out, leaving the repository empty.
    fn take_lists(&mut self) -> (r: (Vec<ParticipantId>, Vec<RemoteParticipantState>))
        ensures
            r.0@ == old(self).ids@,
            r.1@ == old(self).states@,
            r.0@.len() == r.1@.len(),
            id_texts(r.0@).no_duplicates(),
    {
        proof {
            use_type_invariant(&*self);
        }
        let mut current = RemotePoseRepository::new();
        std::mem::swap(&mut current, self);
        let RemotePoseRepository { ids, states } = current;
        (ids, states)
    }

    /// Puts `state` for `participant_id`: at its place when it is known,
    /// at the end otherwise.
    fn put(&mut self, participant_id: ParticipantId, state: RemoteParticipantState)
        ensures
            final(self).view() == old(self).view().insert(participant_id@, state),
    {
        let found = self.find(&participant_id);
        let (mut ids, mut states) = self.take_lists();
        let ghost old_ids = ids@;
        let ghost old_states = states@;
        match found {
            Some(i) => {
                proof {
                    lemma_table_update(old_ids, old_states, i as int, state);
                }
                states.set(i, state);
            },
            None => {
                proof {
                    lemma_table_push(old_ids, old_states, participant_id, state);
                }
                ids.push(participant_id);
                states.push(state);
            },
        }
        *self = RemotePoseRepository { ids, states };
    }

    /// Starts `participant_id` afresh in `session_epoch`, without pose.
    pub fn on_peer_joined(&mut self, participant_id: ParticipantId, session_epoch: u64)
        ensures
            final(self).view() == join_spec(old(self).view(), participant_id@, session_epoch),
    {
        let state = RemoteParticipantState {
            session_epoch,
            pose_state: None,
            liveness: RemoteLiveness::Active,
        };
        self.put(participant_id, state);
    }

    /// Forgets `participant_id`; says whether it was known.
    pub fn on_peer_left(&mut self, participant_id: &ParticipantId) -> (r: bool)
        ensures
            r == old(self).view().contains_key(participant_id@),
            final(self).view() == old(self).view().remove(participant_id@),
    {
        let found = self.find(participant_id);
        match found {
            Some(i) => {
                let (mut ids, mut states) = self.take_lists();
                let ghost old_ids = ids@;
                let ghost old_states = states@;
                proof {
                    lemma_table_remove(old_ids, old_states, i as int);
                    lemma_index_of(id_texts(old_ids), i as int);
                }
                ids.remove(i);
                states.remove(i);
                *self = RemotePoseRepository { ids, states };
                true
            },
            None => {
                assert(self.view().remove(participant_id@) =~= self.view());
                false
            },
        }
    }

    /// Marks `participant_id` as suspected disconnected; says whether it
    /// was known.
    pub fn mark_inactive(&mut self, participant_id: &ParticipantId) -> (r: bool)
        ensures
            r == old(self).view().contains_key(participant_id@),
            final(self).view() == inactive_spec(old(self).view(), participant_id@),
    {
        proof {
            use_type_invariant(&*self);
        }
        let found = self.find(participant_id);
        match found {
            Some(i) => {
                proof {
                    lemma_index_of(id_texts(self.ids@), i as int);
                }
                let current = self.states[i];
                let state = RemoteParticipantState {
                    liveness: RemoteLiveness::SuspectedDisconnected,
                    ..current
                };
                self.put(participant_id.clone(), state);
                true
            },
            None => false,
        }
    }

    /// Offers a pose for `participant_id` with `version`; see `apply_spec`.
    pub fn apply_if_newer(&mut self, participant_id: ParticipantId, pose: Pose, version: PoseVersion) -> (r:
        RemotePoseUpdate)
        ensures
            (final(self).view(), r) == apply_spec(old(self).view(), participant_id@, pose, version),
    {
        proof {
            use_type_invariant(&*self);
        }
        let found = self.find(&participant_id);
        let state = match found {
            Some(i) => {
                proof {
                    lemma_index_of(id_texts(self.ids@), i as int);
                }
                self.states[i]
            },
            None => RemoteParticipantState {
                session_epoch: version.session_epoch,
                pose_state: None,
                liveness: RemoteLiveness::Active,
            },
        };
        if version.session_epoch != state.session_epoch {
            self.put(participant_id, state);
            return RemotePoseUpdate::StaleDropped;
        }
        match state.pose_state {
            Some(current) => {
                if version.not_newer_than(&current.version) {
                    self.put(participant_id, state);
                    return RemotePoseUpdate::StaleDropped;
                }
            },
            None => {},
        }
        let applied = RemoteParticipantState {
            session_epoch: state.session_epoch,
            pose_state: Some(RemotePoseState { pose, version }),
            liveness: RemoteLiveness::Active,
        };
        self.put(participant_id, applied);
        RemotePoseUpdate::Applied
    }

    /// The held pose of every participant that has one, each once.
    pub fn render_snapshot(&self) -> (r: Vec<RemoteRenderPose>)
        ensures
            snapshot_of(r@, self.view()),
    {
        proof {
            use_type_invariant(self);
        }
        let ghost keys = id_texts(self.ids@);
        let mut out: Vec<RemoteRenderPose> = Vec::new();
        let ghost mut src: Seq<int> = Seq::empty();
        let mut i: usize = 0;
        while i < self.ids.len()
            invariant
                i <= self.ids@.len(),
                self.ids@.len() == self.states@.len(),
                keys == id_texts(self.ids@),
                keys.no_duplicates(),
                src.len() == out@.len(),
                forall|j: int|
                    0 <= j < src.len() ==> {
                        &&& 0 <= #[trigger] src[j] < i
                        &&& out@[j].participant_id@ == keys[src[j]]
                        &&& self.states@[src[j]].pose_state matches Some(ps)
                        &&& ps.pose == out@[j].pose
                    },
                forall|j: int, l: int| 0 <= j < l < src.len() ==> src[j] < src[l],
                forall|t: int|
                    0 <= t < i && (#[trigger] self.states@[t]).pose_state is Some ==> exists|j: int|
                        0 <= j < src.len() && src[j] == t,
            decreases self.ids@.len() - i,
        {
            let ghost old_src = src;
            match self.states[i].pose_state {
                Some(ps) => {
                    out.push(RemoteRenderPose { participant_id: self.ids[i].to_text(), pose: ps.pose });
                    proof {
                        src = src.push(i as int);
                        assert(src[src.len() - 1] == i);
                    }
                },
                None => {},
            }
            proof {
                assert forall|t: int|
                    0 <= t < i + 1 && (#[trigger] self.states@[t]).pose_state is Some implies exists|j: int|
                        0 <= j < src.len() && src[j] == t by {
                    if t < i {
                        let j = choose|j: int| 0 <= j < old_src.len() && old_src[j] == t;
                        assert(src[j] == t);
                    } else {
                        assert(src[src.len() - 1] == t);
                    }
                }
            }
            i = i + 1;
        }
        proof {
            let m = self.view();
            let names = out@.map_values(|p: RemoteRenderPose| p.participant_id@);
            assert forall|a: int, b: int| 0 <= a < names.len() && 0 <= b < names.len() && a != b implies names[a]
                != names[b] by {
                if a < b {
                    assert(src[a] < src[b]);
                } else {
                    assert(src[b] < src[a]);
                }
            }
            assert forall|j: int| 0 <= j < out@.len() implies {
                let k = (#[trigger] out@[j]).participant_id@;
                &&& m.contains_key(k)
                &&& m[k].pose_state matches Some(ps)
                &&& ps.pose == out@[j].pose
            } by {
                lemma_index_of(keys, src[j]);
            }
            assert forall|k: Seq<char>| #[trigger] m.contains_key(k) && m[k].pose_state is Some implies exists|j: int|
                0 <= j < out@.len() && (#[trigger] out@[j]).participant_id@ == k by {
                let t = keys.index_of(k);
                lemma_index_of(keys, t);
                assert(self.states@[t].pose_state is Some);
                let j = choose|j: int| 0 <= j < src.len() && src[j] == t;
                assert(out@[j].participant_id@ == k);
            }
        }
        out
    }

    /// The state of `participant_id`, if it is known.
    pub fn get(&self, participant_id: &ParticipantId) -> (r: Option<&RemoteParticipantState>)
        ensures
            match r {
                Some(s) => self.view().contains_key(participant_id@) && *s == self.view()[participant_id@],
                None => !self.view().contains_key(participant_id@),
            },
    {
        proof {
            use_type_invariant(self);
        }
        match self.find(participant_id) {
            Some(i) => {
                proof {
                    lemma_index_of(id_texts(self.ids@), i as int);
                }
                Some(&self.states[i])
            },
            None => None,
        }
    }
}

impl Default for RemotePoseRepository {
    fn default() -> (r: Self)
        ensures
            r.view() == RemoteMap::empty(),
    {
        RemotePoseRepository::new()
    }
}

impl Clone for RemotePoseRepository {
    fn clone(&self) -> (r: Self)
        ensures
            r.view() == self.view(),
    {
        proof {
            use_type_invariant(self);
        }
        let mut ids: Vec<ParticipantId> = Vec::new();
        let mut i: usize = 0;
        while i < self.ids.len()
            invariant
                i <= self.ids@.len(),
                ids@ == self.ids@.take(i as int),
            decreases self.ids@.len() - i,
        {
            ids.push(self.ids[i].clone());
            i = i + 1;
            assert(ids@ =~= self.ids@.take(i as int));
        }
        assert(ids@ =~= self.ids@);
        RemotePoseRepository { ids, states: self.states.clone() }
    }
}

/// Counts of what a shutdown drained from the sync session.
#[derive(Debug, Clone, Copy, PartialEq, Eq, Structural)]
pub struct ShutdownDrainReport {
    pub applied_control_events: usize,
    pub dropped_pose_events: usize,
}

/// An event of the sync session.
#[derive(Debug, PartialEq)]
pub enum SyncDelta {
    PeerJoined { participant_id: ParticipantId, session_epoch: u64 },
    PeerLeft { participant_id: ParticipantId },
    PeerInactive { participant_id: ParticipantId },
    PoseReceived { participant_id: ParticipantId, pose: Pose, version: PoseVersion },
}

impl Clone for SyncDelta {
    fn clone(&self) -> (r: Self)
        ensures
            r == *self,
    {
        match self {
            SyncDelta::PeerJoined { participant_id, session_epoch } => SyncDelta::PeerJoined {
                participant_id: participant_id.clone(),
                session_epoch: *session_epoch,
            },
            SyncDelta::PeerLeft { participant_id } => SyncDelta::PeerLeft {
                participant_id: participant_id.clone(),
            },
            SyncDelta::PeerInactive { participant_id } => SyncDelta::PeerInactive {
                participant_id: participant_id.clone(),
            },
            SyncDelta::PoseReceived { participant_id, pose, version } => SyncDelta::PoseReceived {
                participant_id: participant_id.clone(),
                pose: *pose,
                version: *version,
            },
        }
    }
}

/// One event applied in one of the two phases: lifecycle events in the
/// control phase, poses in the pose phase; each phase passes over the
/// other's events.
pub open spec fn delta_step(m: RemoteMap, d: SyncDelta, pose_phase: bool) -> RemoteMap {
    match d {
        SyncDelta::PeerJoined { participant_id, session_epoch } => if pose_phase {
            m
        } else {
            join_spec(m, participant_id@, session_epoch)
        },
        SyncDelta::PeerLeft { participant_id } => if pose_phase {
            m
        } else {
            m.remove(participant_id@)
        },
        SyncDelta::PeerInactive { participant_id } => if pose_phase {
            m
        } else {
            inactive_spec(m, participant_id@)
        },
        SyncDelta::PoseReceived { participant_id, pose, version } => if pose_phase {
            apply_spec(m, participant_id@, pose, version).0
        } else {
            m
        },
    }
}

/// The events of one phase applied in order.
pub open spec fn apply_phase(m: RemoteMap, ds: Seq<SyncDelta>, pose_phase: bool) -> RemoteMap
    decreases ds.len(),
{
    if ds.len() == 0 {
        m
    } else {
        delta_step(apply_phase(m, ds.drop_last(), pose_phase), ds.last(), pose_phase)
    }
}

/// A batch of events: all lifecycle events first, in order; then, when
/// poses are taken, all poses in order.
pub open spec fn apply_deltas(m: RemoteMap, ds: Seq<SyncDelta>, include_pose: bool) -> RemoteMap {
    let after_control = apply_phase(m, ds, false);
    if include_pose {
        apply_phase(after_control, ds, true)
    } else {
        after_control
    }
}

/// The events of a batch that are poses (`pose` true) or lifecycle events
/// (`pose` false), in order.
pub open spec fn events_of(ds: Seq<SyncDelta>, pose: bool) -> Seq<SyncDelta>
    decreases ds.len(),
{
    if ds.len() == 0 {
        ds
    } else if (ds.last() is PoseReceived) == pose {
        events_of(ds.drop_last(), pose).push(ds.last())
    } else {
        events_of(ds.drop_last(), pose)
    }
}

/// The number of poses in a batch.
pub open spec fn count_poses(ds: Seq<SyncDelta>) -> nat
    decreases ds.len(),
{
    if ds.len() == 0 {
        0
    } else {
        count_poses(ds.drop_last()) + if ds.last() is PoseReceived {
            1nat
        } else {
            0nat
        }
    }
}

/// A phase applied to two batches in turn is the phase applied to both
/// together.
pub proof fn lemma_phase_concat(m: RemoteMap, a: Seq<SyncDelta>, b: Seq<SyncDelta>, pose_phase: bool)
    ensures
        apply_phase(m, a + b, pose_phase) == apply_phase(apply_phase(m, a, pose_phase), b, pose_phase),
    decreases b.len(),
{
    if b.len() == 0 {
        assert(a + b =~= a);
    } else {
        lemma_phase_concat(m, a, b.drop_last(), pose_phase);
        assert((a + b).drop_last() =~= a + b.drop_last());
    }
}

/// A phase passes over the events of the other phase.
pub proof fn lemma_phase_skips_other(m: RemoteMap, ds: Seq<SyncDelta>, pose_phase: bool)
    ensures
        apply_phase(m, events_of(ds, !pose_phase), pose_phase) == m,
    decreases ds.len(),
{
    if ds.len() > 0 {
        lemma_phase_skips_other(m, ds.drop_last(), pose_phase);
        let e = events_of(ds.drop_last(), !pose_phase);
        if (ds.last() is PoseReceived) == !pose_phase {
            assert(e.push(ds.last()).drop_last() =~= e);
        }
    }
}

/// A phase sees only its own events.
pub proof fn lemma_phase_own_events(m: RemoteMap, ds: Seq<SyncDelta>, pose_phase: bool)
    ensures
        apply_phase(m, ds, pose_phase) == apply_phase(m, events_of(ds, pose_phase), pose_phase),
    decreases ds.len(),
{
    if ds.len() > 0 {
        lemma_phase_own_events(m, ds.drop_last(), pose_phase);
        let e = events_of(ds.drop_last(), pose_phase);
        if (ds.last() is PoseReceived) == pose_phase {
            assert(e.push(ds.last()).drop_last() =~= e);
        }
    }
}

/// Law: within a batch, every lifecycle event is applied before any pose,
/// whatever their order in the batch: the batch acts as its lifecycle
/// events followed by its poses.
pub proof fn lemma_lifecycle_before_pose(m: RemoteMap, ds: Seq<SyncDelta>)
    ensures
        apply_deltas(m, ds, true) == apply_deltas(m, events_of(ds, false) + events_of(ds, true), true),
{
    let c = events_of(ds, false);
    let p = events_of(ds, true);
    lemma_phase_concat(m, c, p, false);
    lemma_phase_skips_other(apply_phase(m, c, false), ds, false);
    lemma_phase_own_events(m, ds, false);
    let after_control = apply_phase(m, ds, false);
    lemma_phase_concat(after_control, c, p, true);
    lemma_phase_skips_other(after_control, ds, true);
    lemma_phase_own_events(after_control, ds, true);
}

/// Law: a batch taken without poses acts as its lifecycle events alone;
/// none of its poses reaches the repository.
pub proof fn lemma_drain_drops_poses(m: RemoteMap, ds: Seq<SyncDelta>)
    ensures
        apply_deltas(m, ds, false) == apply_deltas(m, events_of(ds, false), true),
{
    lemma_phase_own_events(m, ds, false);
    let c = events_of(ds, false);
    lemma_phase_skips_other(apply_phase(m, c, false), ds, true);
    assert(events_of(c, false) == c) by {
        lemma_events_of_idempotent(ds, false);
    }
}

/// Taking the events of a phase twice changes nothing.
proof fn lemma_events_of_idempotent(ds: Seq<SyncDelta>, pose: bool)
    ensures
        events_of(events_of(ds, pose), pose) == events_of(ds, pose),
    decreases ds.len(),
{
    if ds.len() > 0 {
        lemma_events_of_idempotent(ds.drop_last(), pose);
        let e = events_of(ds.drop_last(), pose);
        if (ds.last() is PoseReceived) == pose {
            assert(e.push(ds.last()).drop_last() =~= e);
        }
    }
}

/// The sync session as the coordinator sees it: it sends the local pose,
/// hands over the events that arrived, and drains what is left at shutdown.
///
/// Each session says, by relations over the session before and after a
/// call, the call's arguments and the answer, which outcomes its operations
/// can have; a session that does not say allows every outcome.
pub trait SyncSessionPort: Sized {
    /// Whether sending the local pose can take the session from `before` to
    /// `after` and answer `r`.
    open spec fn send_step(
        before: Self,
        after: Self,
        frame: FrameId,
        mode: RuntimeMode,
        pose: Pose,
        r: Result<(), SyncSessionError>,
    ) -> bool {
        true
    }

    /// Whether polling can take the session from `before` to `after` and
    /// hand over the events `r`.
    open spec fn poll_step(before: Self, after: Self, r: Seq<SyncDelta>) -> bool {
        true
    }

    /// Whether beginning the shutdown can take the session from `before` to
    /// `after`.
    open spec fn begin_shutdown_step(before: Self, after: Self) -> bool {
        true
    }

    /// Whether draining can take the session from `before` to `after` and
    /// hand over the pending events `r`.
    open spec fn drain_step(before: Self, after: Self, r: Seq<SyncDelta>) -> bool {
        true
    }

    fn send_local_pose(&mut self, frame: FrameId, mode: RuntimeMode, pose: Pose) -> (r: Result<
        (),
        SyncSessionError,
    >)
        ensures
            Self::send_step(*old(self), *final(self), frame, mode, pose, r),
    ;

    fn poll_events(&mut self) -> (r: Vec<SyncDelta>)
        ensures
            Self::poll_step(*old(self), *final(self), r@),
    ;

    fn begin_shutdown(&mut self)
        ensures
            Self::begin_shutdown_step(*old(self), *final(self)),
    ;

    fn drain_pending_events(&mut self) -> (r: Vec<SyncDelta>)
        ensures
            Self::drain_step(*old(self), *final(self), r@),
    ;
}

/// The error kept after a send: only a transport failure is kept; a
/// session that is not ready yet is no failure.
pub open spec fn send_outcome(res: Result<(), SyncSessionError>) -> Option<SyncSessionError> {
    match res {
        Err(SyncSessionError::TransportUnavailable { reason }) => Some(
            SyncSessionError::TransportUnavailable { reason },
        ),
        _ => None,
    }
}

/// What a frame did after the session handed over `ds` and was left as
/// `polled`: the batch was applied to the remote participants (control
/// events first, then poses), and `tick_applied` holds for the core's answer.
pub open spec fn frame_applied<C: EcsCore, S: SyncSessionPort>(
    before: PoseSyncCoordinator<C, S>,
    after: PoseSyncCoordinator<C, S>,
    mode: RuntimeMode,
    input: InputSnapshot,
    ds: Seq<SyncDelta>,
    polled: S,
    r: Result<RenderFrame, CoreError>,
) -> bool {
    &&& after.policy() == before.policy()
    &&& after.remote_map() == apply_deltas(before.remote_map(), ds, true)
    &&& exists|answer: Result<RenderFrame, CoreError>|
        #[trigger] C::tick_outcome(before.core_state(), after.core_state(), input, answer)
            && tick_applied(before, after, mode, polled, answer, r)
}

/// What follows the core's answer to a frame: a failure is the result, with
/// nothing sent and the last error kept; a frame is the result with the
/// remote participants' poses attached and, on the test path, its local pose
/// sent once with its frame and `mode`, the last error following the send's
/// answer (production Bloom sends nothing and keeps no error).
pub open spec fn tick_applied<C: EcsCore, S: SyncSessionPort>(
    before: PoseSyncCoordinator<C, S>,
    after: PoseSyncCoordinator<C, S>,
    mode: RuntimeMode,
    polled: S,
    answer: Result<RenderFrame, CoreError>,
    r: Result<RenderFrame, CoreError>,
) -> bool {
    match answer {
        Err(e) => r == Err::<RenderFrame, CoreError>(e) && after.port_state() == polled
            && after.last_error() == before.last_error(),
        Ok(f0) => r matches Ok(f) && f.spec_frame() == f0.spec_frame() && f.spec_primary_pose()
            == f0.spec_primary_pose() && snapshot_of(f.spec_remote_poses(), after.remote_map())
            && if before.policy().route() == SignalingRoute::SliceTestPath {
            exists|res: Result<(), SyncSessionError>|
                #[trigger] S::send_step(
                    polled,
                    after.port_state(),
                    f.spec_frame(),
                    mode,
                    f.spec_primary_pose(),
                    res,
                ) && after.last_error() == send_outcome(res)
        } else {
            after.port_state() == polled && after.last_error() is None
        },
    }
}

/// Runs frames of the core, keeps the remote participants up to date from
/// the sync session, and sends the local pose.
pub struct PoseSyncCoordinator<C: EcsCore, S: SyncSessionPort> {
    core: C,
    sync_port: S,
    remotes: RemotePoseRepository,
    last_sync_error: Option<SyncSessionError>,
    scope_policy: ScopeBoundaryPolicy,
}

impl<C: EcsCore, S: SyncSessionPort> PoseSyncCoordinator<C, S> {
    /// The remote participants.
    pub closed spec fn remote_map(&self) -> RemoteMap {
        self.remotes.view()
    }

    /// The error of the last frame's send, if it failed.
    pub closed spec fn last_error(&self) -> Option<SyncSessionError> {
        self.last_sync_error
    }

    /// The scope policy.
    pub closed spec fn policy(&self) -> ScopeBoundaryPolicy {
        self.scope_policy
    }

    /// The sync session.
    pub closed spec fn port_state(&self) -> S {
        self.sync_port
    }

    /// The core.
    pub closed spec fn core_state(&self) -> C {
        self.core
    }

    /// A coordinator with the default scope policy.
    pub fn new(core: C, sync_port: S) -> (r: Self)
        ensures
            r.core_state() == core,
            r.port_state() == sync_port,
            r.remote_map() == RemoteMap::empty(),
            r.last_error() is None,
            r.policy().route() == SignalingRoute::SliceTestPath,
    {
        Self::with_scope_policy(core, sync_port, ScopeBoundaryPolicy::default())
    }

    /// A coordinator with the given scope policy.
    pub fn with_scope_policy(core: C, sync_port: S, scope_policy: ScopeBoundaryPolicy) -> (r: Self)
        ensures
            r.core_state() == core,
            r.port_state() == sync_port,
            r.remote_map() == RemoteMap::empty(),
            r.last_error() is None,
            r.policy() == scope_policy,
    {
        PoseSyncCoordinator {
            core,
            sync_port,
            remotes: RemotePoseRepository::new(),
            last_sync_error: None,
            scope_policy,
        }
    }

    /// Applies the events polled from the session, runs one frame of the
    /// core, attaches the remote poses to it and, where the policy allows,
    /// sends the local pose. A failed send does not fail the frame: a
    /// transport failure is kept as the last error, a session that is not
    /// ready is skipped.
    pub fn apply_frame(&mut self, mode: RuntimeMode, input: InputSnapshot) -> (r: Result<
        RenderFrame,
        CoreError,
    >)
        ensures
            final(self).policy() == old(self).policy(),
            exists|ds: Seq<SyncDelta>, polled: S|
                #[trigger] S::poll_step(old(self).port_state(), polled, ds) && frame_applied(
                    *old(self),
                    *final(self),
                    mode,
                    input,
                    ds,
                    polled,
                    r,
                ),
    {
        let deltas = self.sync_port.poll_events();
        let ghost ds = deltas@;
        let ghost polled = self.sync_port;
        assert(S::poll_step(old(self).port_state(), polled, ds));
        self.apply_sync_deltas(deltas, true);
        assert(apply_deltas(old(self).remote_map(), ds, true) == self.remote_map());
        let ghost given = input;
        let ticked = self.core.tick(input);
        let ghost answer = ticked;
        assert(C::tick_outcome(old(self).core_state(), self.core_state(), given, answer));
        let frame = match ticked {
            Ok(f) => f,
            Err(e) => {
                assert(tick_applied(*old(self), *self, mode, polled, answer, Err(e)));
                assert(frame_applied(*old(self), *self, mode, input, ds, polled, Err(e)));
                assert(S::poll_step(old(self).port_state(), polled, ds));
                assert(exists|ds2: Seq<SyncDelta>, polled2: S|
                    #[trigger] S::poll_step(old(self).port_state(), polled2, ds2) && frame_applied(
                        *old(self), *self, mode, input, ds2, polled2, Err(e)));
                return Err(e);
            },
        };
        let frame = frame.with_remote_poses(self.remotes.render_snapshot());
        self.last_sync_error = None;
        if self.scope_policy.ensure_signaling_route().is_err() {
            assert(tick_applied(*old(self), *self, mode, polled, answer, Ok(frame)));
            assert(C::tick_outcome(old(self).core_state(), self.core_state(), input, answer));
            assert(frame_applied(*old(self), *self, mode, input, ds, polled, Ok(frame)));
            assert(exists|ds2: Seq<SyncDelta>, polled2: S|
                #[trigger] S::poll_step(old(self).port_state(), polled2, ds2) && frame_applied(
                    *old(self), *self, mode, input, ds2, polled2, Ok(frame)));
            return Ok(frame);
        }
        if self.scope_policy.ensure_stream_kind("pose").is_err() {
            return Ok(frame);
        }
        let pose = *frame.primary_pose();
        let frame_id = frame.frame_id();
        let sent = self.sync_port.send_local_pose(frame_id, mode, pose);
        let ghost seen = sent;
        match sent {
            Ok(()) => {},
            Err(SyncSessionError::NotReady { .. }) => {},
            Err(error) => {
                self.last_sync_error = Some(error);
            },
        }
        assert(send_outcome(seen) == self.last_error());
        assert(S::send_step(polled, self.port_state(), frame_id, mode, pose, seen));
        assert(tick_applied(*old(self), *self, mode, polled, answer, Ok(frame)));
        assert(C::tick_outcome(old(self).core_state(), self.core_state(), input, answer));
        assert(frame_applied(*old(self), *self, mode, input, ds, polled, Ok(frame)));
        assert(exists|ds2: Seq<SyncDelta>, polled2: S|
            #[trigger] S::poll_step(old(self).port_state(), polled2, ds2) && frame_applied(
                *old(self), *self, mode, input, ds2, polled2, Ok(frame)));
        Ok(frame)
    }

    /// Ends the session: tells the port, then drains its pending events,
    /// applies the lifecycle events among them and drops the poses; reports
    /// how many of each there were.
    pub fn shutdown_sync_session(&mut self) -> (r: ShutdownDrainReport)
        ensures
            final(self).policy() == old(self).policy(),
            final(self).last_error() == old(self).last_error(),
            final(self).core_state() == old(self).core_state(),
            exists|told: S, ds: Seq<SyncDelta>|
                {
                    &&& #[trigger] S::begin_shutdown_step(old(self).port_state(), told)
                    &&& #[trigger] S::drain_step(told, final(self).port_state(), ds)
                    &&& apply_deltas(old(self).remote_map(), ds, false) == final(self).remote_map()
                    &&& r.dropped_pose_events == count_poses(ds)
                    &&& r.applied_control_events == ds.len() - count_poses(ds)
                },
    {
        self.sync_port.begin_shutdown();
        let ghost told = self.sync_port;
        let deltas = self.sync_port.drain_pending_events();
        let ghost drained = deltas@;
        let mut dropped: usize = 0;
        let mut i: usize = 0;
        while i < deltas.len()
            invariant
                i <= deltas@.len(),
                dropped == count_poses(deltas@.take(i as int)),
                dropped <= i,
            decreases deltas@.len() - i,
        {
            assert(deltas@.take(i as int + 1).drop_last() =~= deltas@.take(i as int));
            match &deltas[i] {
                SyncDelta::PoseReceived { .. } => {
                    dropped = dropped + 1;
                },
                _ => {},
            }
            i = i + 1;
        }
        assert(deltas@.take(i as int) =~= deltas@);
        let applied = deltas.len() - dropped;
        self.apply_sync_deltas(deltas, false);
        let r = ShutdownDrainReport { applied_control_events: applied, dropped_pose_events: dropped };
        assert(apply_deltas(old(self).remote_map(), drained, false) == self.remote_map());
        assert(S::begin_shutdown_step(old(self).port_state(), told));
        assert(S::drain_step(told, self.port_state(), drained));
        r
    }

    /// Starts `participant_id` afresh in `session_epoch`, when the policy
    /// carries lifecycle events.
    pub fn on_peer_joined(&mut self, participant_id: ParticipantId, session_epoch: u64)
        ensures
            final(self).remote_map() == join_spec(old(self).remote_map(), participant_id@, session_epoch),
            final(self).policy() == old(self).policy(),
            final(self).last_error() == old(self).last_error(),
            final(self).port_state() == old(self).port_state(),
            final(self).core_state() == old(self).core_state(),
    {
        if self.scope_policy.ensure_stream_kind("control").is_err() {
            return;
        }
        self.remotes.on_peer_joined(participant_id, session_epoch);
    }

    /// Forgets `participant_id`; says whether it was known.
    pub fn on_peer_left(&mut self, participant_id: &ParticipantId) -> (r: bool)
        ensures
            r == old(self).remote_map().contains_key(participant_id@),
            final(self).remote_map() == old(self).remote_map().remove(participant_id@),
            final(self).policy() == old(self).policy(),
            final(self).last_error() == old(self).last_error(),
            final(self).port_state() == old(self).port_state(),
            final(self).core_state() == old(self).core_state(),
    {
        if self.scope_policy.ensure_stream_kind("control").is_err() {
            return false;
        }
        self.remotes.on_peer_left(participant_id)
    }

    /// Marks `participant_id` as suspected disconnected; says whether it was
    /// known.
    pub fn mark_peer_inactive(&mut self, participant_id: &ParticipantId) -> (r: bool)
        ensures
            r == old(self).remote_map().contains_key(participant_id@),
            final(self).remote_map() == inactive_spec(old(self).remote_map(), participant_id@),
            final(self).policy() == old(self).policy(),
            final(self).last_error() == old(self).last_error(),
            final(self).port_state() == old(self).port_state(),
            final(self).core_state() == old(self).core_state(),
    {
        self.remotes.mark_inactive(participant_id)
    }

    /// Offers a remote pose to the repository.
    pub fn apply_remote_pose(&mut self, participant_id: ParticipantId, pose: Pose, version: PoseVersion) -> (r:
        RemotePoseUpdate)
        ensures
            (final(self).remote_map(), r) == apply_spec(
                old(self).remote_map(),
                participant_id@,
                pose,
                version,
            ),
            final(self).policy() == old(self).policy(),
            final(self).last_error() == old(self).last_error(),
            final(self).port_state() == old(self).port_state(),
            final(self).core_state() == old(self).core_state(),
    {
        if self.scope_policy.ensure_stream_kind("pose").is_err() {
            return RemotePoseUpdate::StaleDropped;
        }
        self.remotes.apply_if_newer(participant_id, pose, version)
    }

    /// The sync session.
    pub fn sync_port(&self) -> (r: &S)
        ensures
            *r == self.port_state(),
    {
        &self.sync_port
    }

    /// The remote participants.
    pub fn remotes(&self) -> (r: &RemotePoseRepository)
        ensures
            r.view() == self.remote_map(),
    {
        &self.remotes
    }

    /// The error of the last frame's send, if it failed.
    pub fn last_sync_error_ref(&self) -> (r: Option<&SyncSessionError>)
        ensures
            match (r, self.last_error()) {
                (None, None) => true,
                (Some(e), Some(f)) => *e == f,
                _ => false,
            },
    {
        match &self.last_sync_error {
            Some(e) => Some(e),
            None => None,
        }
    }

    /// Applies a batch of sync events: every lifecycle event first, in
    /// order, then, when `include_pose`, every pose in order.
    pub fn apply_sync_deltas(&mut self, deltas: Vec<SyncDelta>, include_pose: bool)
        ensures
            final(self).remote_map() == apply_deltas(old(self).remote_map(), deltas@, include_pose),
            final(self).policy() == old(self).policy(),
            final(self).last_error() == old(self).last_error(),
            final(self).port_state() == old(self).port_state(),
            final(self).core_state() == old(self).core_state(),
    {
        let ghost start = self.remote_map();
        let mut i: usize = 0;
        while i < deltas.len()
            invariant
                i <= deltas@.len(),
                self.remote_map() == apply_phase(start, deltas@.take(i as int), false),
                self.policy() == old(self).policy(),
                self.last_error() == old(self).last_error(),
                self.port_state() == old(self).port_state(),
                self.core_state() == old(self).core_state(),
            decreases deltas@.len() - i,
        {
            assert(deltas@.take(i as int + 1).drop_last() =~= deltas@.take(i as int));
            match &deltas[i] {
                SyncDelta::PeerJoined { participant_id, session_epoch } => {
                    self.on_peer_joined(participant_id.clone(), *session_epoch);
                },
                SyncDelta::PeerLeft { participant_id } => {
                    self.on_peer_left(participant_id);
                },
                SyncDelta::PeerInactive { participant_id } => {
                    self.mark_peer_inactive(participant_id);
                },
                SyncDelta::PoseReceived { .. } => {},
            }
            i = i + 1;
        }
        assert(deltas@.take(i as int) =~= deltas@);
        if !include_pose {
            return;
        }
        let ghost after_control = self.remote_map();
        let mut j: usize = 0;
        while j < deltas.len()
            invariant
                j <= deltas@.len(),
                self.remote_map() == apply_phase(after_control, deltas@.take(j as int), true),
                self.policy() == old(self).policy(),
                self.last_error() == old(self).last_error(),
                self.port_state() == old(self).port_state(),
                self.core_state() == old(self).core_state(),
            decreases deltas@.len() - j,
        {
            assert(deltas@.take(j as int + 1).drop_last() =~= deltas@.take(j as int));
            match &deltas[j] {
                SyncDelta::PoseReceived { participant_id, pose, version } => {
                    self.apply_remote_pose(participant_id.clone(), *pose, *version);
                },
                _ => {},
            }
            j = j + 1;
        }
        assert(deltas@.take(j as int) =~= deltas@);
    }
}

/// Law: a pose not newer than the one held is dropped and changes nothing.
pub proof fn lemma_stale_pose_dropped(m: RemoteMap, id: Seq<char>, pose: Pose, version: PoseVersion)
    requires
        m.contains_key(id),
        m[id].pose_state matches Some(current) && version_le(version, current.version),
    ensures
        apply_spec(m, id, pose, version) == (m, RemotePoseUpdate::StaleDropped),
{
    assert(m.insert(id, m[id]) =~= m);
}

/// Law: a pose of another session epoch than the participant's is dropped
/// and changes nothing.
pub proof fn lemma_other_epoch_dropped(m: RemoteMap, id: Seq<char>, pose: Pose, version: PoseVersion)
    requires
        m.contains_key(id),
        m[id].session_epoch != version.session_epoch,
    ensures
        apply_spec(m, id, pose, version) == (m, RemotePoseUpdate::StaleDropped),
{
    assert(m.insert(id, m[id]) =~= m);
}

/// Law: an applied pose is held, with its version, and the participant is
/// active.
pub proof fn lemma_applied_pose_held(m: RemoteMap, id: Seq<char>, pose: Pose, version: PoseVersion)
    requires
        apply_spec(m, id, pose, version).1 == RemotePoseUpdate::Applied,
    ensures
        apply_spec(m, id, pose, version).0.contains_key(id),
        apply_spec(m, id, pose, version).0[id].pose_state == Some(RemotePoseState { pose, version }),
        apply_spec(m, id, pose, version).0[id].liveness == RemoteLiveness::Active,
        apply_spec(m, id, pose, version).0[id].session_epoch == version.session_epoch,
{
}

/// Law: the first pose of an unknown participant is applied.
pub proof fn lemma_unknown_participant_applied(m: RemoteMap, id: Seq<char>, pose: Pose, version: PoseVersion)
    requires
        !m.contains_key(id),
    ensures
        apply_spec(m, id, pose, version).1 == RemotePoseUpdate::Applied,
{
}

/// Law: a version is applied at most once: offering it again, with any
/// pose, is dropped.
pub proof fn lemma_version_applied_once(
    m: RemoteMap,
    id: Seq<char>,
    pose: Pose,
    other: Pose,
    version: PoseVersion,
)
    requires
        apply_spec(m, id, pose, version).1 == RemotePoseUpdate::Applied,
    ensures
        apply_spec(apply_spec(m, id, pose, version).0, id, other, version) == (
            apply_spec(m, id, pose, version).0,
            RemotePoseUpdate::StaleDropped,
        ),
{
    let m1 = apply_spec(m, id, pose, version).0;
    lemma_stale_pose_dropped(m1, id, other, version);
}

/// Law: after a participant joins again in a new epoch, poses of any other
/// epoch are dropped.
pub proof fn lemma_rejoin_drops_other_epoch(
    m: RemoteMap,
    id: Seq<char>,
    session_epoch: u64,
    pose: Pose,
    version: PoseVersion,
)
    requires
        version.session_epoch != session_epoch,
    ensures
        apply_spec(join_spec(m, id, session_epoch), id, pose, version) == (
            join_spec(m, id, session_epoch),
            RemotePoseUpdate::StaleDropped,
        ),
{
    lemma_other_epoch_dropped(join_spec(m, id, session_epoch), id, pose, version);
}

/// Every held pose belongs to its participant's session epoch.
pub open spec fn epochs_consistent(m: RemoteMap) -> bool {
    forall|k: Seq<char>|
        #[trigger] m.contains_key(k) && m[k].pose_state is Some ==> m[k].pose_state->Some_0.version.session_epoch
            == m[k].session_epoch
}

/// Law: every event keeps each held pose in its participant's session
/// epoch.
pub proof fn lemma_step_keeps_epochs(m: RemoteMap, d: SyncDelta, pose_phase: bool)
    requires
        epochs_consistent(m),
    ensures
        epochs_consistent(delta_step(m, d, pose_phase)),
{
    let r = delta_step(m, d, pose_phase);
    assert forall|k: Seq<char>| #[trigger] r.contains_key(k) && r[k].pose_state is Some implies r[k].pose_state->Some_0.version.session_epoch
        == r[k].session_epoch by {
        assert(m.contains_key(k) ==> (m[k].pose_state is Some ==> m[k].pose_state->Some_0.version.session_epoch
            == m[k].session_epoch));
    }
}

/// Law: a whole batch keeps each held pose in its participant's session
/// epoch.
pub proof fn lemma_batch_keeps_epochs(m: RemoteMap, ds: Seq<SyncDelta>, include_pose: bool)
    requires
        epochs_consistent(m),
    ensures
        epochs_consistent(apply_deltas(m, ds, include_pose)),
{
    lemma_phase_keeps_epochs(m, ds, false);
    lemma_phase_keeps_epochs(apply_phase(m, ds, false), ds, true);
}

/// A phase keeps each held pose in its participant's session epoch.
proof fn lemma_phase_keeps_epochs(m: RemoteMap, ds: Seq<SyncDelta>, pose_phase: bool)
    requires
        epochs_consistent(m),
    ensures
        epochs_consistent(apply_phase(m, ds, pose_phase)),
    decreases ds.len(),
{
    if ds.len() > 0 {
        lemma_phase_keeps_epochs(m, ds.drop_last(), pose_phase);
        lemma_step_keeps_epochs(apply_phase(m, ds.drop_last(), pose_phase), ds.last(), pose_phase);
    }
}

/// Law: a pose newer than the one held, in the participant's own session
/// epoch, is always taken, whatever the participant's liveness: it is held
/// with its version, the participant is active again, its epoch is kept, and
/// nobody else changes.
pub proof fn lemma_newer_pose_is_applied(
    m: RemoteMap,
    id: Seq<char>,
    pose: Pose,
    version: PoseVersion,
    other: Seq<char>,
)
    requires
        m.contains_key(id),
        m[id].session_epoch == version.session_epoch,
        m[id].pose_state matches Some(held) ==> !version_le(version, held.version),
    ensures
        apply_spec(m, id, pose, version).1 == RemotePoseUpdate::Applied,
        apply_spec(m, id, pose, version).0.contains_key(id),
        apply_spec(m, id, pose, version).0[id] == (RemoteParticipantState {
            session_epoch: m[id].session_epoch,
            pose_state: Some(RemotePoseState { pose, version }),
            liveness: RemoteLiveness::Active,
        }),
        other != id ==> (apply_spec(m, id, pose, version).0.contains_key(other) == m.contains_key(
            other,
        ) && (m.contains_key(other) ==> apply_spec(m, id, pose, version).0[other] == m[other])),
{
}

/// Law: a pose of another session epoch, or one not newer than the pose
/// held, is dropped and leaves the known participant exactly as it was.
pub proof fn lemma_stale_pose_changes_nothing(m: RemoteMap, id: Seq<char>, pose: Pose, version: PoseVersion)
    requires
        m.contains_key(id),
        m[id].session_epoch != version.session_epoch || (m[id].pose_state matches Some(held)
            && version_le(version, held.version)),
    ensures
        apply_spec(m, id, pose, version).1 == RemotePoseUpdate::StaleDropped,
        apply_spec(m, id, pose, version).0 == m,
{
    assert(m.insert(id, m[id]) =~= m);
}

/// Law: marking a known participant inactive changes only its liveness: its
/// session epoch and held pose, version included, stay; an unknown
/// participant changes nothing; nobody else changes.
pub proof fn lemma_inactive_changes_only_liveness(m: RemoteMap, id: Seq<char>, other: Seq<char>)
    ensures
        m.contains_key(id) ==> inactive_spec(m, id).contains_key(id) && inactive_spec(m, id)[id].session_epoch
            == m[id].session_epoch && inactive_spec(m, id)[id].pose_state == m[id].pose_state
            && inactive_spec(m, id)[id].liveness == RemoteLiveness::SuspectedDisconnected,
        !m.contains_key(id) ==> inactive_spec(m, id) == m,
        other != id ==> (inactive_spec(m, id).contains_key(other) == m.contains_key(other) && (
        m.contains_key(other) ==> inactive_spec(m, id)[other] == m[other])),
{
}

/// Law: a participant marked inactive keeps guarding its pose: a late pose
/// that is not newer than the one it held is still dropped, and the held
/// pose stays; a newer pose of its epoch brings it back, active, with that
/// pose.
pub proof fn lemma_inactive_then_pose(m: RemoteMap, id: Seq<char>, pose: Pose, version: PoseVersion)
    requires
        m.contains_key(id),
        m[id].session_epoch == version.session_epoch,
    ensures
        m[id].pose_state matches Some(held) && version_le(version, held.version) ==> apply_spec(
            inactive_spec(m, id),
            id,
            pose,
            version,
        ).1 == RemotePoseUpdate::StaleDropped && apply_spec(inactive_spec(m, id), id, pose, version).0[id].pose_state
            == m[id].pose_state,
        (m[id].pose_state matches Some(held) ==> !version_le(version, held.version)) ==> apply_spec(
            inactive_spec(m, id),
            id,
            pose,
            version,
        ).1 == RemotePoseUpdate::Applied && apply_spec(inactive_spec(m, id), id, pose, version).0[id]
            == (RemoteParticipantState {
            session_epoch: m[id].session_epoch,
            pose_state: Some(RemotePoseState { pose, version }),
            liveness: RemoteLiveness::Active,
        }),
{
    lemma_inactive_changes_only_liveness(m, id, id);
    let n = inactive_spec(m, id);
    if m[id].pose_state matches Some(held) && version_le(version, held.version) {
        lemma_stale_pose_changes_nothing(n, id, pose, version);
    } else {
        lemma_newer_pose_is_applied(n, id, pose, version, id);
    }
}

/// Law: a `PeerJoined` event of a batch restarts its participant in the
/// event's epoch, without pose and active, whether or not it was known;
/// nobody else changes; poses play no part in the lifecycle phase.
pub proof fn lemma_join_event_restarts(m: RemoteMap, id: ParticipantId, e: u64, other: Seq<char>)
    ensures
        delta_step(m, SyncDelta::PeerJoined { participant_id: id, session_epoch: e }, false).contains_key(
            id@,
        ),
        delta_step(m, SyncDelta::PeerJoined { participant_id: id, session_epoch: e }, false)[id@]
            == (RemoteParticipantState {
            session_epoch: e,
            pose_state: None,
            liveness: RemoteLiveness::Active,
        }),
        other != id@ ==> (delta_step(
            m,
            SyncDelta::PeerJoined { participant_id: id, session_epoch: e },
            false,
        ).contains_key(other) == m.contains_key(other) && (m.contains_key(other) ==> delta_step(
            m,
            SyncDelta::PeerJoined { participant_id: id, session_epoch: e },
            false,
        )[other] == m[other])),
{
}

/// Law: a batch in which a participant rejoins in a new epoch and then
/// sends a pose of that epoch leaves it in the new epoch, active, holding
/// that pose, whatever was known of it before.
pub proof fn lemma_rejoin_then_pose_is_held(
    m: RemoteMap,
    id: ParticipantId,
    e: u64,
    pose: Pose,
    seq_no: u64,
)
    ensures
        ({
            let ds = seq![
                SyncDelta::PeerJoined { participant_id: id, session_epoch: e },
                SyncDelta::PoseReceived {
                    participant_id: id,
                    pose,
                    version: PoseVersion { session_epoch: e, pose_seq: seq_no },
                },
            ];
            &&& apply_deltas(m, ds, true).contains_key(id@)
            &&& apply_deltas(m, ds, true)[id@] == (RemoteParticipantState {
                session_epoch: e,
                pose_state: Some(
                    RemotePoseState {
                        pose,
                        version: PoseVersion { session_epoch: e, pose_seq: seq_no },
                    },
                ),
                liveness: RemoteLiveness::Active,
            })
        }),
{
    let j = SyncDelta::PeerJoined { participant_id: id, session_epoch: e };
    let v = PoseVersion { session_epoch: e, pose_seq: seq_no };
    let q = SyncDelta::PoseReceived { participant_id: id, pose, version: v };
    let ds = seq![j, q];
    assert(ds.drop_last() =~= seq![j]);
    assert(seq![j].drop_last() =~= Seq::<SyncDelta>::empty());
    let c = apply_phase(m, ds, false);
    assert(apply_phase(m, Seq::<SyncDelta>::empty(), false) == m);
    assert(seq![j].last() == j);
    assert(apply_phase(m, seq![j], false) == delta_step(
        apply_phase(m, Seq::<SyncDelta>::empty(), false),
        j,
        false,
    ));
    assert(c == delta_step(m, j, false));
    lemma_join_event_restarts(m, id, e, id@);
    assert(apply_phase(c, Seq::<SyncDelta>::empty(), true) == c);
    assert(apply_phase(c, seq![j], true) == delta_step(
        apply_phase(c, Seq::<SyncDelta>::empty(), true),
        j,
        true,
    ));
    assert(apply_phase(c, seq![j], true) == c);
    assert(apply_phase(c, ds, true) == delta_step(c, q, true));
    lemma_newer_pose_is_applied(c, id@, pose, v, id@);
}

/// Law: the first pose of an unknown participant starts it in the pose's
/// epoch, active, holding that pose.
pub proof fn lemma_unknown_pose_starts_participant(
    m: RemoteMap,
    id: Seq<char>,
    pose: Pose,
    version: PoseVersion,
)
    requires
        !m.contains_key(id),
    ensures
        apply_spec(m, id, pose, version).1 == RemotePoseUpdate::Applied,
        apply_spec(m, id, pose, version).0 == m.insert(
            id,
            RemoteParticipantState {
                session_epoch: version.session_epoch,
                pose_state: Some(RemotePoseState { pose, version }),
                liveness: RemoteLiveness::Active,
            },
        ),
{
}

/// Law: in the lifecycle phase a `PeerLeft` forgets its participant and a
/// `PeerInactive` changes only its liveness; a pose changes nothing there,
/// and in the pose phase lifecycle events change nothing.
pub proof fn lemma_lifecycle_events(m: RemoteMap, id: ParticipantId, pose: Pose, version: PoseVersion, e: u64)
    ensures
        delta_step(m, SyncDelta::PeerLeft { participant_id: id }, false) == m.remove(id@),
        m.contains_key(id@) ==> delta_step(m, SyncDelta::PeerInactive { participant_id: id }, false)
            == m.insert(
            id@,
            RemoteParticipantState {
                session_epoch: m[id@].session_epoch,
                pose_state: m[id@].pose_state,
                liveness: RemoteLiveness::SuspectedDisconnected,
            },
        ),
        delta_step(m, SyncDelta::PoseReceived { participant_id: id, pose, version }, false) == m,
        delta_step(m, SyncDelta::PeerLeft { participant_id: id }, true) == m,
        delta_step(m, SyncDelta::PeerInactive { participant_id: id }, true) == m,
        delta_step(m, SyncDelta::PeerJoined { participant_id: id, session_epoch: e }, true) == m,
{
}

} // verus!
