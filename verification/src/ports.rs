//! Where frame inputs come from and where rendered frames go.
use vstd::prelude::*;

use crate::ecs::{FrameClock, InputSnapshot, RenderFrame, DEFAULT_INPUT_DT_SECONDS_BITS};

verus! {

/// Source of the inputs of the next frame; it numbers the frame with the
/// shared clock.
///
/// Each port says, by a relation over the port and the clock before and
/// after the call and the snapshot, which snapshots it can give; a port that
/// does not say allows every snapshot.
pub trait InputPort: Sized {
    /// Whether taking a snapshot can take the port from `before` to `after`,
    /// the clock from `clock_before` to `clock_after`, and give `r`.
    open spec fn snapshot_outcome(
        before: Self,
        after: Self,
        clock_before: u64,
        clock_after: u64,
        r: InputSnapshot,
    ) -> bool {
        true
    }

    fn snapshot(&mut self, frame_clock: &mut FrameClock) -> (r: InputSnapshot)
        requires
            old(frame_clock)@ < u64::MAX,
        ensures
            Self::snapshot_outcome(*old(self), *final(self), old(frame_clock)@, final(frame_clock)@, r),
    ;
}

/// Destination of rendered frames.
pub trait OutputPort {
    /// The last frame handed to this port, if any.
    spec fn last_projected(&self) -> Option<RenderFrame>;

    fn project(&mut self, frame: RenderFrame)
        ensures
            final(self).last_projected() == Some(frame),
    ;
}

/// Output port that keeps the last frame.
#[derive(Debug, Default, Clone, PartialEq)]
pub struct RenderFrameBuffer {
    last: Option<RenderFrame>,
}

impl RenderFrameBuffer {
    /// A buffer with no frame.
    pub fn new() -> (r: Self)
        ensures
            r.last_projected() is None,
    {
        RenderFrameBuffer { last: None }
    }

    /// The last frame, if any.
    pub fn last(&self) -> (r: Option<&RenderFrame>)
        ensures
            match (r, self.last_projected()) {
                (None, None) => true,
                (Some(f), Some(g)) => *f == g,
                _ => false,
            },
    {
        match &self.last {
            Some(f) => Some(f),
            None => None,
        }
    }
}

impl OutputPort for RenderFrameBuffer {
    closed spec fn last_projected(&self) -> Option<RenderFrame> {
        self.last
    }

    fn project(&mut self, frame: RenderFrame) {
        self.last = Some(frame);
    }
}

/// Input port without inputs.
#[derive(Debug, Default, Clone, Copy)]
pub struct NoopInputPort;

impl InputPort for NoopInputPort {
    /// The clock advances by one and the snapshot is the new frame, with the
    /// default frame time and no input.
    open spec fn snapshot_outcome(
        before: Self,
        after: Self,
        clock_before: u64,
        clock_after: u64,
        r: InputSnapshot,
    ) -> bool {
        &&& clock_after == clock_before + 1
        &&& r.frame.0 == clock_after
        &&& r.dt_seconds == DEFAULT_INPUT_DT_SECONDS_BITS
        &&& r.inputs@.len() == 0
    }

    fn snapshot(&mut self, frame_clock: &mut FrameClock) -> (r: InputSnapshot)
        ensures
            final(frame_clock)@ == old(frame_clock)@ + 1,
            r.frame.0 == final(frame_clock)@,
            r.dt_seconds == DEFAULT_INPUT_DT_SECONDS_BITS,
            r.inputs@.len() == 0,
    {
        InputSnapshot {
            frame: frame_clock.next_frame(),
            dt_seconds: DEFAULT_INPUT_DT_SECONDS_BITS,
            inputs: Vec::new(),
        }
    }
}

/// The four movement actions held down on the desktop.
#[derive(Debug, Clone, Copy, PartialEq, Eq, Default, Structural)]
pub struct MoveKeys {
    pub move_left: bool,
    pub move_right: bool,
    pub move_forward: bool,
    pub move_back: bool,
}

/// The movement keys after an action event: pressing a movement action holds
/// its key down, releasing it lets it go; any other action leaves the keys
/// as they are.
pub open spec fn move_action_spec(keys: MoveKeys, action: Seq<char>, pressed: bool) -> MoveKeys {
    if action == "move_left"@ {
        MoveKeys { move_left: pressed, ..keys }
    } else if action == "move_right"@ {
        MoveKeys { move_right: pressed, ..keys }
    } else if action == "move_forward"@ {
        MoveKeys { move_forward: pressed, ..keys }
    } else if action == "move_back"@ {
        MoveKeys { move_back: pressed, ..keys }
    } else {
        keys
    }
}

/// Applies one action event (pressed or released) to the movement keys.
pub fn apply_move_action(keys: MoveKeys, action: &str, pressed: bool) -> (r: MoveKeys)
    ensures
        r == move_action_spec(keys, action@, pressed),
{
    let name = String::from_str(action);
    if name == String::from_str("move_left") {
        MoveKeys { move_left: pressed, ..keys }
    } else if name == String::from_str("move_right") {
        MoveKeys { move_right: pressed, ..keys }
    } else if name == String::from_str("move_forward") {
        MoveKeys { move_forward: pressed, ..keys }
    } else if name == String::from_str("move_back") {
        MoveKeys { move_back: pressed, ..keys }
    } else {
        keys
    }
}

/// Law: an action event touches at most the key of its own action, and a
/// release after a press of the same action lets the key go whatever it
/// was before.
pub proof fn lemma_release_undoes_press(keys: MoveKeys, action: Seq<char>)
    ensures
        move_action_spec(move_action_spec(keys, action, true), action, false)
            == move_action_spec(keys, action, false),
        action != "move_left"@ && action != "move_right"@ && action != "move_forward"@ && action
            != "move_back"@ ==> move_action_spec(keys, action, true) == keys,
{
}

} // verus!
