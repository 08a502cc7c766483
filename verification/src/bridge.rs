//! Client lifecycle: choosing between VR and desktop mode, starting and
//! stopping the runtime bridge, and driving frames through it.
use vstd::prelude::*;

use crate::client_errors::{BridgeError, CoreError, FrameError, ShutdownError, StartError, XrError};
use crate::ecs::{
    EcsCore, FrameClock, FrameId, InputEvent, InputSnapshot, RenderFrame,
    DEFAULT_INPUT_DT_SECONDS_BITS,
};
use crate::ports::{InputPort, OutputPort, RenderFrameBuffer};
use crate::xr::XrRuntime;

verus! {

/// Mode the client runs in.
#[derive(Debug, Clone, Copy, PartialEq, Eq, Default, Structural)]
pub enum RuntimeMode {
    Vr,
    #[default]
    Desktop,
}

/// Mode the client asks for at start.
#[derive(Debug, Clone, Copy, PartialEq, Eq, Default, Structural)]
pub enum RuntimeModePreference {
    #[default]
    Vr,
    Desktop,
}

/// What start found out: why XR could not be used, if it could not.
#[derive(Debug, Clone, PartialEq, Eq, Default)]
pub struct StartDiagnostics {
    xr_failure_reason: Option<String>,
}

/// The text of an optional string.
pub open spec fn opt_text(s: Option<String>) -> Option<Seq<char>> {
    match s {
        Some(t) => Some(t@),
        None => None,
    }
}

impl StartDiagnostics {
    /// Why XR could not be used, if it could not.
    pub closed spec fn reason(&self) -> Option<Seq<char>> {
        opt_text(self.xr_failure_reason)
    }

    /// No failure recorded.
    pub fn new() -> (r: Self)
        ensures
            r.reason() is None,
    {
        StartDiagnostics { xr_failure_reason: None }
    }

    /// Why XR could not be used, if it could not.
    pub fn xr_failure_reason(&self) -> (r: Option<&str>)
        ensures
            match (r, self.reason()) {
                (None, None) => true,
                (Some(s), Some(t)) => s@ == t,
                _ => false,
            },
    {
        match &self.xr_failure_reason {
            Some(s) => Some(s.as_str()),
            None => None,
        }
    }
}

/// The mode and failure reason that follow from enabling XR: VR when it
/// enabled and is ready, desktop otherwise, with the reason.
pub open spec fn fallback_spec(enable: Result<(), XrError>, ready: bool) -> (
    RuntimeMode,
    Option<Seq<char>>,
) {
    match enable {
        Ok(()) => if ready {
            (RuntimeMode::Vr, None)
        } else {
            (RuntimeMode::Desktop, Some("xr runtime not ready"@))
        },
        Err(e) => (RuntimeMode::Desktop, Some(e.text())),
    }
}

/// Decides the mode from the outcome of enabling XR and whether XR is ready.
pub fn fallback_mode(enable: Result<(), XrError>, ready: bool) -> (r: (RuntimeMode, Option<String>))
    ensures
        (r.0, opt_text(r.1)) == fallback_spec(enable, ready),
{
    match enable {
        Ok(()) => if ready {
            (RuntimeMode::Vr, None)
        } else {
            (RuntimeMode::Desktop, Some("xr runtime not ready".to_string()))
        },
        Err(e) => (RuntimeMode::Desktop, Some(e.message())),
    }
}

/// The result of a shutdown given the outcomes of stopping the bridge and
/// XR: the bridge's failure wins when both fail.
pub open spec fn shutdown_spec(bridge: Result<(), BridgeError>, xr: Result<(), XrError>) -> Result<
    (),
    ShutdownError,
> {
    match (bridge, xr) {
        (Err(b), _) => Err(ShutdownError::BridgeShutdown(b)),
        (Ok(()), Err(x)) => Err(ShutdownError::XrShutdown(x)),
        (Ok(()), Ok(())) => Ok(()),
    }
}

/// Combines the outcomes of stopping the bridge and XR.
pub fn combine_shutdown(bridge: Result<(), BridgeError>, xr: Result<(), XrError>) -> (r: Result<
    (),
    ShutdownError,
>)
    ensures
        r == shutdown_spec(bridge, xr),
{
    match (bridge, xr) {
        (Err(b), _) => Err(ShutdownError::BridgeShutdown(b)),
        (Ok(()), Err(x)) => Err(ShutdownError::XrShutdown(x)),
        (Ok(()), Ok(())) => Ok(()),
    }
}

/// The core's answer to preparing its world, read back from the answer of
/// a start (`Ok`, or the core's failure as `CoreInit`).
pub open spec fn core_init_answer(r: Result<(), BridgeError>) -> Result<(), CoreError> {
    match r {
        Ok(done) => Ok(done),
        Err(BridgeError::CoreInit(x)) => Err(x),
        Err(_) => arbitrary(),
    }
}

/// The engine-side bridge that runs the core.
///
/// Each bridge says, by a relation over the bridge before and after the
/// call and the answer, which outcomes its operations can have.
pub trait RuntimeBridge: Sized {
    /// Whether a start can take the bridge from `before` to `after` and
    /// answer `r`; a bridge that does not say allows every outcome.
    open spec fn start_outcome(before: Self, after: Self, r: Result<(), BridgeError>) -> bool {
        true
    }

    /// Whether a shutdown can take the bridge from `before` to `after` and
    /// answer `r`; a bridge that does not say allows every outcome.
    open spec fn shutdown_outcome(before: Self, after: Self, r: Result<(), BridgeError>) -> bool {
        true
    }

    /// Whether running a frame on `input` can take the bridge from `before`
    /// to `after` and answer `r`; a bridge that does not say allows every
    /// outcome.
    open spec fn frame_outcome(
        before: Self,
        after: Self,
        input: InputSnapshot,
        r: Result<RenderFrame, BridgeError>,
    ) -> bool {
        true
    }

    fn on_start(&mut self) -> (r: Result<(), BridgeError>)
        ensures
            Self::start_outcome(*old(self), *final(self), r),
    ;

    fn on_shutdown(&mut self) -> (r: Result<(), BridgeError>)
        ensures
            Self::shutdown_outcome(*old(self), *final(self), r),
    ;

    fn on_frame(&mut self, input: InputSnapshot) -> (r: Result<RenderFrame, BridgeError>)
        ensures
            Self::frame_outcome(*old(self), *final(self), input, r),
    ;
}

/// Starting and stopping the client.
pub trait ClientLifecycle {
    fn start(&mut self) -> Result<(), StartError>;

    fn shutdown(&mut self) -> Result<(), ShutdownError>;
}

/// The client: an XR runtime, a bridge, the chosen mode and the frame clock.
pub struct ClientBootstrap<X: XrRuntime, B: RuntimeBridge> {
    xr: X,
    bridge: B,
    mode_preference: RuntimeModePreference,
    active_mode: RuntimeMode,
    start_diagnostics: StartDiagnostics,
    running: bool,
    frame_clock: FrameClock,
}

impl<X: XrRuntime, B: RuntimeBridge> ClientBootstrap<X, B> {
    /// The XR runtime the client holds.
    pub closed spec fn xr_state(&self) -> X {
        self.xr
    }

    /// The bridge the client holds.
    pub closed spec fn bridge_state(&self) -> B {
        self.bridge
    }

    /// The mode the client asks for at start.
    pub closed spec fn preference(&self) -> RuntimeModePreference {
        self.mode_preference
    }

    /// The mode chosen at the last start.
    pub closed spec fn mode(&self) -> RuntimeMode {
        self.active_mode
    }

    /// Why XR could not be used at the last start, if it could not.
    pub closed spec fn failure_reason(&self) -> Option<Seq<char>> {
        self.start_diagnostics.reason()
    }

    /// Whether the client runs.
    pub closed spec fn running(&self) -> bool {
        self.running
    }

    /// The current frame of the client's clock.
    pub closed spec fn frame(&self) -> u64 {
        self.frame_clock@
    }

    /// The XR runtime the client holds.
    pub fn xr(&self) -> (r: &X)
        ensures
            *r == self.xr_state(),
    {
        &self.xr
    }

    /// The bridge the client holds.
    pub fn bridge(&self) -> (r: &B)
        ensures
            *r == self.bridge_state(),
    {
        &self.bridge
    }

    /// A stopped client that prefers VR.
    pub fn new(xr: X, bridge: B) -> (r: Self)
        ensures
            r.xr_state() == xr,
            r.bridge_state() == bridge,
            r.preference() == RuntimeModePreference::Vr,
            r.mode() == RuntimeMode::Desktop,
            r.failure_reason() is None,
            !r.running(),
            r.frame() == 0,
    {
        Self::new_with_mode(xr, bridge, RuntimeModePreference::Vr)
    }

    /// A stopped client with the given mode preference.
    pub fn new_with_mode(xr: X, bridge: B, mode_preference: RuntimeModePreference) -> (r: Self)
        ensures
            r.xr_state() == xr,
            r.bridge_state() == bridge,
            r.preference() == mode_preference,
            r.mode() == RuntimeMode::Desktop,
            r.failure_reason() is None,
            !r.running(),
            r.frame() == 0,
    {
        ClientBootstrap {
            xr,
            bridge,
            mode_preference,
            active_mode: RuntimeMode::Desktop,
            start_diagnostics: StartDiagnostics::new(),
            running: false,
            frame_clock: FrameClock::new(),
        }
    }

    /// Starts the client: picks the mode (VR only when preferred, enabled
    /// and ready; desktop otherwise, with the reason), starts the bridge, and
    /// on success restarts the frame clock at 0 and runs.
    pub fn start(&mut self) -> (r: Result<(), StartError>)
        ensures
            start_done(*old(self), *final(self), r),
    {
        self.start_diagnostics = StartDiagnostics::new();
        self.active_mode = self.resolve_runtime_mode();
        let started = self.bridge.on_start();
        match started {
            Ok(done) => {
                self.frame_clock.reset(FrameId(0));
                self.running = true;
                Ok(done)
            },
            Err(e) => Err(StartError::BridgeInit(e)),
        }
    }

    fn resolve_runtime_mode(&mut self) -> (r: RuntimeMode)
        requires
            old(self).failure_reason() is None,
        ensures
            final(self).preference() == old(self).preference(),
            final(self).running() == old(self).running(),
            final(self).frame() == old(self).frame(),
            final(self).mode() == old(self).mode(),
            final(self).bridge_state() == old(self).bridge_state(),
            mode_resolved(
                old(self).preference(),
                old(self).xr_state(),
                final(self).xr_state(),
                r,
                final(self).failure_reason(),
            ),
    {
        match self.mode_preference {
            RuntimeModePreference::Desktop => RuntimeMode::Desktop,
            RuntimeModePreference::Vr => {
                let enable = self.xr.enable();
                let ghost enable_seen = enable;
                let ready = match &enable {
                    Ok(_) => self.xr.is_ready(),
                    Err(_) => false,
                };
                let (mode, reason) = fallback_mode(enable, ready);
                self.start_diagnostics = StartDiagnostics { xr_failure_reason: reason };
                assert(fallback_spec(enable_seen, ready) == (mode, self.failure_reason()));
                assert(X::enable_outcome(old(self).xr_state(), self.xr_state(), enable_seen));
                mode
            },
        }
    }

    /// The mode chosen at the last start.
    pub fn runtime_mode(&self) -> (r: RuntimeMode)
        ensures
            r == self.mode(),
    {
        self.active_mode
    }

    /// What the last start found out.
    pub fn start_diagnostics(&self) -> (r: &StartDiagnostics)
        ensures
            r.reason() == self.failure_reason(),
    {
        &self.start_diagnostics
    }

    /// Advances the frame clock and returns the new frame, while running.
    pub fn tick_frame(&mut self) -> (r: Result<FrameId, FrameError>)
        requires
            old(self).running() ==> old(self).frame() < u64::MAX,
        ensures
            final(self).running() == old(self).running(),
            final(self).mode() == old(self).mode(),
            !old(self).running() ==> r == Err::<FrameId, FrameError>(FrameError::NotRunning)
                && final(self).frame() == old(self).frame(),
            old(self).running() ==> r == Ok::<FrameId, FrameError>(FrameId((old(self).frame() + 1) as u64))
                && final(self).frame() == old(self).frame() + 1,
    {
        if !self.running {
            return Err(FrameError::NotRunning);
        }
        Ok(self.frame_clock.next_frame())
    }

    /// Runs one frame through the bridge with the current frame number,
    /// without advancing the clock: the bridge gets the inputs with the
    /// current frame and the default frame time.
    pub fn tick(&mut self, inputs: Vec<InputEvent>) -> (r: Result<RenderFrame, FrameError>)
        ensures
            final(self).running() == old(self).running(),
            final(self).mode() == old(self).mode(),
            final(self).frame() == old(self).frame(),
            final(self).xr_state() == old(self).xr_state(),
            !old(self).running() ==> r == Err::<RenderFrame, FrameError>(FrameError::NotRunning)
                && final(self).bridge_state() == old(self).bridge_state(),
            old(self).running() ==> (r is Ok || r->Err_0 is Bridge) && B::frame_outcome(
                old(self).bridge_state(),
                final(self).bridge_state(),
                InputSnapshot {
                    frame: FrameId(old(self).frame()),
                    dt_seconds: DEFAULT_INPUT_DT_SECONDS_BITS,
                    inputs,
                },
                bridge_frame_answer(r),
            ),
    {
        if !self.running {
            return Err(FrameError::NotRunning);
        }
        let input = InputSnapshot {
            frame: self.frame_clock.current_frame(),
            dt_seconds: DEFAULT_INPUT_DT_SECONDS_BITS,
            inputs,
        };
        let outcome = self.bridge.on_frame(input);
        match outcome {
            Ok(frame) => Ok(frame),
            Err(e) => Err(FrameError::Bridge(e)),
        }
    }
}

impl<X: XrRuntime, B: RuntimeBridge> ClientLifecycle for ClientBootstrap<X, B> {
    fn start(&mut self) -> (r: Result<(), StartError>)
        ensures
            start_done(*old(self), *final(self), r),
    {
        ClientBootstrap::start(self)
    }

    /// Stops a running client: stops the bridge, then XR, and reports the
    /// bridge's failure first. The client is stopped and back in desktop
    /// mode either way. A stopped client is left exactly as it is.
    fn shutdown(&mut self) -> (r: Result<(), ShutdownError>)
        ensures
            !old(self).running() ==> r is Ok && *final(self) == *old(self),
            old(self).running() ==> shutdown_done(*old(self), *final(self), r),
    {
        if !self.running {
            return Ok(());
        }
        let bridge_result = self.bridge.on_shutdown();
        let xr_result = self.xr.shutdown();
        let ghost seen = (bridge_result, xr_result);
        let r = combine_shutdown(bridge_result, xr_result);
        self.running = false;
        self.active_mode = RuntimeMode::Desktop;
        assert(B::shutdown_outcome(old(self).bridge_state(), self.bridge_state(), seen.0));
        assert(X::shutdown_outcome(old(self).xr_state(), self.xr_state(), seen.1));
        assert(shutdown_spec(seen.0, seen.1) == r);
        r
    }
}

/// How the mode was resolved at start: under a desktop preference XR is left
/// alone and there is no reason; under a VR preference XR is enabled once,
/// asked whether it is ready only when that succeeded, and the mode and
/// reason follow `fallback_spec` for its answers.
pub open spec fn mode_resolved<X: XrRuntime>(
    preference: RuntimeModePreference,
    xr_before: X,
    xr_after: X,
    mode: RuntimeMode,
    reason: Option<Seq<char>>,
) -> bool {
    match preference {
        RuntimeModePreference::Desktop => xr_after == xr_before && mode == RuntimeMode::Desktop
            && reason is None,
        RuntimeModePreference::Vr => exists|e: Result<(), XrError>|
            #[trigger] X::enable_outcome(xr_before, xr_after, e) && (e is Ok ==> X::ready_answer(
                xr_after,
                mode == RuntimeMode::Vr,
            )) && fallback_spec(e, mode == RuntimeMode::Vr) == (mode, reason),
    }
}

/// The bridge's answer to a start, read back from the client's answer (`Ok`,
/// or the bridge's failure as `BridgeInit`).
pub open spec fn bridge_start_answer(r: Result<(), StartError>) -> Result<(), BridgeError> {
    match r {
        Ok(done) => Ok(done),
        Err(StartError::BridgeInit(e)) => Err(e),
        Err(_) => arbitrary(),
    }
}

/// The bridge's answer to a frame, read back from the client's answer (the
/// frame, or the bridge's failure as `Bridge`).
pub open spec fn bridge_frame_answer(r: Result<RenderFrame, FrameError>) -> Result<
    RenderFrame,
    BridgeError,
> {
    match r {
        Ok(f) => Ok(f),
        Err(FrameError::Bridge(e)) => Err(e),
        Err(_) => arbitrary(),
    }
}

/// What a start did: the mode was resolved, then the bridge was started
/// once and its answer is the start's (its failure as `BridgeInit`); on
/// success the clock restarts at 0 and the client runs.
pub open spec fn start_done<X: XrRuntime, B: RuntimeBridge>(
    before: ClientBootstrap<X, B>,
    after: ClientBootstrap<X, B>,
    r: Result<(), StartError>,
) -> bool {
    &&& after.preference() == before.preference()
    &&& mode_resolved(
        before.preference(),
        before.xr_state(),
        after.xr_state(),
        after.mode(),
        after.failure_reason(),
    )
    &&& (r is Ok || r->Err_0 is BridgeInit)
    &&& B::start_outcome(before.bridge_state(), after.bridge_state(), bridge_start_answer(r))
    &&& r is Ok ==> after.running() && after.frame() == 0
    &&& r is Err ==> after.running() == before.running() && after.frame() == before.frame()
}

/// What stopping a running client did: the bridge was stopped once, then XR
/// once, and the result combines their answers as `shutdown_spec` does; the
/// client no longer runs and is in desktop mode, with its clock, preference
/// and start diagnostics kept.
pub open spec fn shutdown_done<X: XrRuntime, B: RuntimeBridge>(
    before: ClientBootstrap<X, B>,
    after: ClientBootstrap<X, B>,
    r: Result<(), ShutdownError>,
) -> bool {
    &&& exists|b: Result<(), BridgeError>, x: Result<(), XrError>|
        #[trigger] B::shutdown_outcome(before.bridge_state(), after.bridge_state(), b)
            && #[trigger] X::shutdown_outcome(before.xr_state(), after.xr_state(), x)
            && shutdown_spec(b, x) == r
    &&& !after.running()
    &&& after.mode() == RuntimeMode::Desktop
    &&& after.frame() == before.frame()
    &&& after.preference() == before.preference()
    &&& after.failure_reason() == before.failure_reason()
}

/// A request to change the simulation state directly.
#[derive(Debug, Clone, PartialEq)]
pub struct StateOverrideRequest {
    pub reason: String,
}

/// Entry point for direct state changes, which the bridge refuses.
pub trait StateOverride: Sized {
    /// Whether a request can take the bridge from `before` to `after` and
    /// be answered `r`; a bridge that does not say allows every outcome.
    open spec fn override_outcome(
        before: Self,
        after: Self,
        request: StateOverrideRequest,
        r: Result<(), BridgeError>,
    ) -> bool {
        true
    }

    fn request_state_override(&mut self, request: StateOverrideRequest) -> (r: Result<
        (),
        BridgeError,
    >)
        ensures
            Self::override_outcome(*old(self), *final(self), request, r),
    ;
}

/// Bridge that runs an `EcsCore` once started.
pub struct RuntimeBridgeAdapter<C: EcsCore> {
    core: C,
    started: bool,
}

impl<C: EcsCore> RuntimeBridgeAdapter<C> {
    /// Whether the adapter was started and not shut down since.
    pub closed spec fn started(&self) -> bool {
        self.started
    }

    /// The core the adapter runs.
    pub closed spec fn core_state(&self) -> C {
        self.core
    }

    /// The core the adapter runs.
    pub fn ecs_core(&self) -> (r: &C)
        ensures
            *r == self.core_state(),
    {
        &self.core
    }

    /// An adapter that is not started.
    pub fn new(core: C) -> (r: Self)
        ensures
            r.core_state() == core,
            !r.started(),
    {
        RuntimeBridgeAdapter { core, started: false }
    }

    /// Refuses every direct state change.
    pub fn request_state_override(&mut self, request: StateOverrideRequest) -> (r: Result<
        (),
        BridgeError,
    >)
        ensures
            r == Err::<(), BridgeError>(BridgeError::DirectStateMutationDenied),
            *final(self) == *old(self),
    {
        Err(BridgeError::DirectStateMutationDenied)
    }
}

impl<C: EcsCore> StateOverride for RuntimeBridgeAdapter<C> {
    /// Every request is refused and nothing changes.
    open spec fn override_outcome(
        before: Self,
        after: Self,
        request: StateOverrideRequest,
        r: Result<(), BridgeError>,
    ) -> bool {
        r == Err::<(), BridgeError>(BridgeError::DirectStateMutationDenied) && after == before
    }

    fn request_state_override(&mut self, request: StateOverrideRequest) -> (r: Result<
        (),
        BridgeError,
    >)
        ensures
            r == Err::<(), BridgeError>(BridgeError::DirectStateMutationDenied),
            *final(self) == *old(self),
    {
        RuntimeBridgeAdapter::request_state_override(self, request)
    }
}

impl<C: EcsCore> RuntimeBridge for RuntimeBridgeAdapter<C> {
    /// A start prepares the core's world: on success the adapter is marked
    /// started; a failure is the core's, as `CoreInit`, and leaves the mark
    /// as it was.
    open spec fn start_outcome(before: Self, after: Self, r: Result<(), BridgeError>) -> bool {
        &&& (r is Ok || r->Err_0 is CoreInit)
        &&& C::init_outcome(before.core_state(), after.core_state(), core_init_answer(r))
        &&& r is Ok ==> after.started()
        &&& r is Err ==> after.started() == before.started()
    }

    /// A shutdown always succeeds, clears the started mark, and leaves the
    /// core as it was.
    open spec fn shutdown_outcome(before: Self, after: Self, r: Result<(), BridgeError>) -> bool {
        &&& r is Ok
        &&& !after.started()
        &&& after.core_state() == before.core_state()
    }

    /// Before a start a frame is refused with nothing changed; after it the
    /// input goes to the core once, and the answer is the core's frame or
    /// the core's failure as `Core`.
    open spec fn frame_outcome(
        before: Self,
        after: Self,
        input: InputSnapshot,
        r: Result<RenderFrame, BridgeError>,
    ) -> bool {
        &&& after.started() == before.started()
        &&& !before.started() ==> r == Err::<RenderFrame, BridgeError>(BridgeError::NotStarted)
            && after.core_state() == before.core_state()
        &&& before.started() ==> match r {
            Ok(f) => C::tick_outcome(before.core_state(), after.core_state(), input, Ok(f)),
            Err(BridgeError::Core(e)) => C::tick_outcome(
                before.core_state(),
                after.core_state(),
                input,
                Err(e),
            ),
            _ => false,
        }
    }

    fn on_start(&mut self) -> (r: Result<(), BridgeError>)
        ensures
            r is Ok ==> final(self).started(),
            r is Err ==> r->Err_0 is CoreInit && final(self).started() == old(self).started(),
    {
        let prepared = self.core.init_world();
        match prepared {
            Ok(done) => {
                self.started = true;
                Ok(done)
            },
            Err(e) => Err(BridgeError::CoreInit(e)),
        }
    }

    fn on_shutdown(&mut self) -> (r: Result<(), BridgeError>)
        ensures
            r is Ok,
            !final(self).started(),
            final(self).core_state() == old(self).core_state(),
    {
        self.started = false;
        Ok(())
    }

    fn on_frame(&mut self, input: InputSnapshot) -> (r: Result<RenderFrame, BridgeError>)
        ensures
            final(self).started() == old(self).started(),
            !old(self).started() ==> r == Err::<RenderFrame, BridgeError>(BridgeError::NotStarted)
                && final(self).core_state() == old(self).core_state(),
            old(self).started() ==> (r is Ok || r->Err_0 is Core),
    {
        if !self.started {
            return Err(BridgeError::NotStarted);
        }
        let outcome = self.core.tick(input);
        match outcome {
            Ok(frame) => Ok(frame),
            Err(e) => Err(BridgeError::Core(e)),
        }
    }
}

/// A bridge whose frames go to an output port.
pub struct BridgePipeline<B: RuntimeBridge, O: OutputPort> {
    bridge: B,
    output: O,
}

impl<B: RuntimeBridge, O: OutputPort> BridgePipeline<B, O> {
    /// The bridge of the pipeline.
    pub closed spec fn bridge(&self) -> B {
        self.bridge
    }

    /// The output port of the pipeline.
    pub closed spec fn output(&self) -> O {
        self.output
    }

    /// A pipeline from `bridge` to `output`.
    pub fn new(bridge: B, output: O) -> (r: Self)
        ensures
            r.bridge() == bridge,
            r.output() == output,
    {
        BridgePipeline { bridge, output }
    }

    /// Starts the bridge and answers what the bridge answered.
    pub fn on_start(&mut self) -> (r: Result<(), BridgeError>)
        ensures
            B::start_outcome(old(self).bridge(), final(self).bridge(), r),
            final(self).output() == old(self).output(),
    {
        self.bridge.on_start()
    }

    /// Stops the bridge and answers what the bridge answered.
    pub fn on_shutdown(&mut self) -> (r: Result<(), BridgeError>)
        ensures
            B::shutdown_outcome(old(self).bridge(), final(self).bridge(), r),
            final(self).output() == old(self).output(),
    {
        self.bridge.on_shutdown()
    }

    /// Runs one frame and hands the rendered frame to the output; on a
    /// bridge failure the output gets nothing and the failure is answered.
    pub fn on_frame(&mut self, input: InputSnapshot) -> (r: Result<(), BridgeError>)
        ensures
            r is Ok ==> (final(self).output().last_projected() matches Some(frame)
                && B::frame_outcome(old(self).bridge(), final(self).bridge(), input, Ok(frame))),
            r is Err ==> B::frame_outcome(
                old(self).bridge(),
                final(self).bridge(),
                input,
                Err(r->Err_0),
            ) && final(self).output() == old(self).output(),
    {
        let answer = self.bridge.on_frame(input);
        match answer {
            Ok(frame) => {
                self.output.project(frame);
            },
            Err(e) => {
                return Err(e);
            },
        }
        Ok(())
    }

    /// Takes the next inputs from `input_port`, numbered with the shared
    /// clock, and runs them as one frame.
    pub fn on_port_input<P: InputPort>(&mut self, frame_clock: &mut FrameClock, input_port: &mut P) -> (r:
        Result<(), BridgeError>)
        requires
            old(frame_clock)@ < u64::MAX,
        ensures
            exists|input: InputSnapshot, answer: Result<RenderFrame, BridgeError>|
                #[trigger] P::snapshot_outcome(
                    *old(input_port),
                    *final(input_port),
                    old(frame_clock)@,
                    final(frame_clock)@,
                    input,
                ) && #[trigger] B::frame_outcome(old(self).bridge(), final(self).bridge(), input, answer)
                    && frame_delivered(answer, old(self).output(), final(self).output(), r),
    {
        let input = input_port.snapshot(frame_clock);
        let ghost given = input;
        let r = self.on_frame(input);
        proof {
            if r is Ok {
                let f = self.output().last_projected()->0;
                assert(B::frame_outcome(old(self).bridge(), self.bridge(), given, Ok(f)));
                assert(frame_delivered(Ok(f), old(self).output(), self.output(), r));
            } else {
                assert(B::frame_outcome(old(self).bridge(), self.bridge(), given, Err(r->Err_0)));
                assert(frame_delivered(Err(r->Err_0), old(self).output(), self.output(), r));
            }
        }
        r
    }
}

/// How a bridge's answer to a frame reaches the output and the caller: a
/// frame is handed to the output and `Ok` is answered; a failure leaves the
/// output as it was and is answered itself.
pub open spec fn frame_delivered<O: OutputPort>(
    answer: Result<RenderFrame, BridgeError>,
    before: O,
    after: O,
    r: Result<(), BridgeError>,
) -> bool {
    match answer {
        Ok(frame) => r is Ok && after.last_projected() == Some(frame),
        Err(e) => r == Err::<(), BridgeError>(e) && after == before,
    }
}

impl<B: RuntimeBridge + StateOverride, O: OutputPort> BridgePipeline<B, O> {
    /// Forwards a state override request to the bridge and answers what the
    /// bridge answered.
    pub fn request_state_override(&mut self, request: StateOverrideRequest) -> (r: Result<
        (),
        BridgeError,
    >)
        ensures
            B::override_outcome(old(self).bridge(), final(self).bridge(), request, r),
            final(self).output() == old(self).output(),
    {
        self.bridge.request_state_override(request)
    }
}

impl<B: RuntimeBridge> BridgePipeline<B, RenderFrameBuffer> {
    /// The last frame that reached the buffer.
    pub fn last_frame(&self) -> (r: Option<&RenderFrame>)
        ensures
            match (r, self.output().last_projected()) {
                (None, None) => true,
                (Some(f), Some(g)) => *f == g,
                _ => false,
            },
    {
        self.output.last()
    }
}

/// Law: when both the bridge and XR fail to stop, the bridge's failure is
/// reported.
pub proof fn lemma_shutdown_reports_bridge_first(b: BridgeError, x: XrError)
    ensures
        shutdown_spec(Err(b), Err(x)) == Err::<(), ShutdownError>(ShutdownError::BridgeShutdown(b)),
{
}

/// Law: VR is chosen exactly when no failure reason is recorded.
pub proof fn lemma_vr_iff_no_failure(enable: Result<(), XrError>, ready: bool)
    ensures
        (fallback_spec(enable, ready).0 == RuntimeMode::Vr) <==> (fallback_spec(enable, ready).1 is None),
{
}

} // verus!
