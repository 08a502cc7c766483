//! Frame-level data of the client: frame ids, poses, input snapshots and
//! render frames. Real-valued quantities are held as the bit patterns of
//! IEEE 754 single-precision numbers; the arithmetic on them lives outside
//! this crate.
use vstd::prelude::*;

use crate::client_errors::CoreError;

verus! {

/// Bit pattern of the default frame time, 1/60 s.
pub const DEFAULT_INPUT_DT_SECONDS_BITS: u32 = 0x3c88_8889;

/// Bit pattern of 1.0.
pub const ONE_BITS: u32 = 0x3f80_0000;

/// Number of a frame; the first frame is 1.
#[derive(Debug, Clone, Copy, Default, PartialEq, Eq, Structural)]
pub struct FrameId(pub u64);

/// Counter of frames, starting at 0 before the first frame.
#[derive(Debug, Clone, Copy, Default, PartialEq, Eq, Structural)]
pub struct FrameClock {
    current: FrameId,
}

impl View for FrameClock {
    type V = u64;

    closed spec fn view(&self) -> u64 {
        self.current.0
    }
}

impl FrameClock {
    /// A clock at frame 0.
    pub fn new() -> (r: Self)
        ensures
            r@ == 0,
    {
        FrameClock { current: FrameId(0) }
    }

    /// Advances to the next frame and returns it.
    pub fn next_frame(&mut self) -> (r: FrameId)
        requires
            old(self)@ < u64::MAX,
        ensures
            final(self)@ == old(self)@ + 1,
            r.0 == final(self)@,
    {
        self.current.0 = self.current.0 + 1;
        self.current
    }

    /// The current frame, without advancing.
    pub fn current_frame(&self) -> (r: FrameId)
        ensures
            r.0 == self@,
    {
        self.current
    }

    /// Sets the clock to `frame`.
    pub fn reset(&mut self, frame: FrameId)
        ensures
            final(self)@ == frame.0,
    {
        self.current = frame;
    }
}

/// A vector of three single-precision numbers, held as bit patterns.
#[derive(Debug, Clone, Copy, PartialEq, Eq, Structural)]
pub struct Vec3 {
    pub x: u32,
    pub y: u32,
    pub z: u32,
}

impl Vec3 {
    /// The zero vector.
    pub fn zero() -> (r: Self)
        ensures
            r == (Vec3 { x: 0, y: 0, z: 0 }),
    {
        Vec3 { x: 0, y: 0, z: 0 }
    }
}

/// A rotation quaternion of single-precision numbers, held as bit patterns.
#[derive(Debug, Clone, Copy, PartialEq, Eq, Structural)]
pub struct UnitQuat {
    pub x: u32,
    pub y: u32,
    pub z: u32,
    pub w: u32,
}

impl UnitQuat {
    /// The identity rotation (0, 0, 0, 1).
    pub fn identity() -> (r: Self)
        ensures
            r == (UnitQuat { x: 0, y: 0, z: 0, w: ONE_BITS }),
    {
        UnitQuat { x: 0, y: 0, z: 0, w: ONE_BITS }
    }
}

/// Position and orientation.
#[derive(Debug, Clone, Copy, PartialEq, Eq, Structural)]
pub struct Pose {
    pub position: Vec3,
    pub orientation: UnitQuat,
}

impl Pose {
    /// At the origin, not rotated.
    pub fn identity() -> (r: Self)
        ensures
            r == (Pose {
                position: Vec3 { x: 0, y: 0, z: 0 },
                orientation: UnitQuat { x: 0, y: 0, z: 0, w: ONE_BITS },
            }),
    {
        Pose { position: Vec3::zero(), orientation: UnitQuat::identity() }
    }
}

/// One input intent of a frame.
#[derive(Debug, Clone, PartialEq)]
pub enum InputEvent {
    Move { axis_x: u32, axis_y: u32 },
    Look { yaw_delta: u32, pitch_delta: u32 },
    Action { name: String, pressed: bool },
}

/// The inputs of one frame.
#[derive(Debug, Clone, PartialEq)]
pub struct InputSnapshot {
    pub frame: FrameId,
    pub dt_seconds: u32,
    pub inputs: Vec<InputEvent>,
}

/// The pose of a remote participant, for rendering.
#[derive(Debug, Clone, PartialEq)]
pub struct RemoteRenderPose {
    pub participant_id: String,
    pub pose: Pose,
}

/// What is rendered for one frame: the local pose and the remote ones.
#[derive(Debug, Clone, PartialEq)]
pub struct RenderFrame {
    pub frame: FrameId,
    primary_pose: Pose,
    remote_poses: Vec<RemoteRenderPose>,
}

impl RenderFrame {
    /// The frame number.
    pub closed spec fn spec_frame(&self) -> FrameId {
        self.frame
    }

    /// The local pose of the frame.
    pub closed spec fn spec_primary_pose(&self) -> Pose {
        self.primary_pose
    }

    /// The remote poses of the frame.
    pub closed spec fn spec_remote_poses(&self) -> Seq<RemoteRenderPose> {
        self.remote_poses@
    }

    /// A frame with the local pose and no remote pose.
    pub fn from_primary_pose(frame: FrameId, pose: Pose) -> (r: Self)
        ensures
            r.spec_frame() == frame,
            r.spec_primary_pose() == pose,
            r.spec_remote_poses() == Seq::<RemoteRenderPose>::empty(),
    {
        RenderFrame { frame, primary_pose: pose, remote_poses: Vec::new() }
    }

    /// The frame number.
    pub fn frame_id(&self) -> (r: FrameId)
        ensures
            r == self.spec_frame(),
    {
        self.frame
    }

    /// The local pose.
    pub fn primary_pose(&self) -> (r: &Pose)
        ensures
            *r == self.spec_primary_pose(),
    {
        &self.primary_pose
    }

    /// The frame with its remote poses replaced.
    pub fn with_remote_poses(self, remote_poses: Vec<RemoteRenderPose>) -> (r: Self)
        ensures
            r.spec_frame() == self.spec_frame(),
            r.spec_primary_pose() == self.spec_primary_pose(),
            r.spec_remote_poses() == remote_poses@,
    {
        RenderFrame { frame: self.frame, primary_pose: self.primary_pose, remote_poses }
    }

    /// The remote poses.
    pub fn remote_poses(&self) -> (r: &[RemoteRenderPose])
        ensures
            r@ == self.spec_remote_poses(),
    {
        self.remote_poses.as_slice()
    }
}

/// The simulation core: prepares its world and advances it by one frame of
/// input.
///
/// Each core says, by a relation over the core before and after the call
/// and the answer, which outcomes its operations can have; a core that does
/// not say allows every outcome.
pub trait EcsCore: Sized {
    /// Whether preparing the world can take the core from `before` to
    /// `after` and answer `r`.
    open spec fn init_outcome(before: Self, after: Self, r: Result<(), CoreError>) -> bool {
        true
    }

    /// Whether a frame on `input` can take the core from `before` to `after`
    /// and answer `r`.
    open spec fn tick_outcome(
        before: Self,
        after: Self,
        input: InputSnapshot,
        r: Result<RenderFrame, CoreError>,
    ) -> bool {
        true
    }

    fn init_world(&mut self) -> (r: Result<(), CoreError>)
        ensures
            Self::init_outcome(*old(self), *final(self), r),
    ;

    fn tick(&mut self, input: InputSnapshot) -> (r: Result<RenderFrame, CoreError>)
        ensures
            Self::tick_outcome(*old(self), *final(self), input, r),
    ;
}

} // verus!
