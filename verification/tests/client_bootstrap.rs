use std::cell::RefCell;
use std::rc::Rc;

use bakopa::bridge::{
    BridgePipeline, ClientBootstrap, ClientLifecycle, RuntimeBridge, RuntimeBridgeAdapter,
    RuntimeMode, RuntimeModePreference, StateOverride, StateOverrideRequest,
};
use bakopa::client_errors::{
    BridgeError, BridgeErrorState, CoreError, FrameError, ShutdownError, StartError, XrError,
};
use bakopa::ecs::{
    EcsCore, FrameClock, FrameId, InputEvent, InputSnapshot, Pose, RemoteRenderPose, RenderFrame,
    UnitQuat, Vec3,
    DEFAULT_INPUT_DT_SECONDS_BITS, ONE_BITS,
};
use bakopa::ports::{apply_move_action, InputPort, MoveKeys, NoopInputPort, OutputPort, RenderFrameBuffer};
use bakopa::xr::{GodotXrRuntime, OpenXrRuntime, XrInterfaceAccess, XrInterfaceProvider, XrRuntime};

#[derive(Clone)]
struct FakeXrInterface {
    initialize_calls: usize,
    initialize_result: bool,
    initialized: bool,
    uninitialize_calls: usize,
}

impl Default for FakeXrInterface {
    fn default() -> Self {
        Self {
            initialize_calls: 0,
            initialize_result: true,
            initialized: false,
            uninitialize_calls: 0,
        }
    }
}

impl XrInterfaceAccess for FakeXrInterface {
    fn initialize(&mut self) -> bool {
        self.initialize_calls += 1;
        self.initialized = self.initialize_result;
        self.initialize_result
    }

    fn is_initialized(&self) -> bool {
        self.initialized
    }

    fn uninitialize(&mut self) {
        self.uninitialize_calls += 1;
        self.initialized = false;
    }
}

struct FakeXrProvider {
    interface: Option<FakeXrInterface>,
}

impl XrInterfaceProvider for FakeXrProvider {
    type Interface = FakeXrInterface;

    fn find_openxr(&self) -> Option<Self::Interface> {
        self.interface.clone()
    }
}

struct FakeXr {
    enable_calls: usize,
    ready: bool,
    enable_result: Result<(), XrError>,
    shutdown_calls: usize,
    shutdown_result: Result<(), XrError>,
}

impl Default for FakeXr {
    fn default() -> Self {
        Self {
            enable_calls: 0,
            ready: false,
            enable_result: Ok(()),
            shutdown_calls: 0,
            shutdown_result: Ok(()),
        }
    }
}

impl XrRuntime for FakeXr {
    fn enable(&mut self) -> Result<(), XrError> {
        self.enable_calls += 1;
        self.enable_result.clone()
    }

    fn is_ready(&self) -> bool {
        self.ready
    }

    fn shutdown(&mut self) -> Result<(), XrError> {
        self.shutdown_calls += 1;
        self.shutdown_result.clone()
    }
}

struct FakeBridge {
    start_calls: usize,
    start_result: Result<(), BridgeError>,
    shutdown_calls: usize,
    shutdown_result: Result<(), BridgeError>,
    frame_calls: usize,
    frame_result: Result<RenderFrame, BridgeError>,
    last_input: Option<InputSnapshot>,
}

impl Default for FakeBridge {
    fn default() -> Self {
        Self {
            start_calls: 0,
            start_result: Ok(()),
            shutdown_calls: 0,
            shutdown_result: Ok(()),
            frame_calls: 0,
            frame_result: Err(BridgeError::NotStarted),
            last_input: None,
        }
    }
}

impl RuntimeBridge for FakeBridge {
    fn on_start(&mut self) -> Result<(), BridgeError> {
        self.start_calls += 1;
        self.start_result.clone()
    }

    fn on_shutdown(&mut self) -> Result<(), BridgeError> {
        self.shutdown_calls += 1;
        self.shutdown_result.clone()
    }

    fn on_frame(&mut self, input: InputSnapshot) -> Result<RenderFrame, BridgeError> {
        self.frame_calls += 1;
        self.last_input = Some(input);
        self.frame_result.clone()
    }
}

/// Core that counts frames and echoes the local pose, standing in for the
/// engine's simulation.
struct CountingCore {
    frame: u64,
}

impl CountingCore {
    fn new() -> Self {
        Self { frame: 0 }
    }
}

impl EcsCore for CountingCore {
    fn init_world(&mut self) -> Result<(), CoreError> {
        self.frame = 0;
        Ok(())
    }

    fn tick(&mut self, _input: InputSnapshot) -> Result<RenderFrame, CoreError> {
        self.frame += 1;
        Ok(RenderFrame::from_primary_pose(
            FrameId(self.frame),
            Pose::identity(),
        ))
    }
}

#[test]
fn tests_start_initializes_dependencies_on_request() {
    let xr = FakeXr {
        ready: true,
        enable_result: Ok(()),
        ..FakeXr::default()
    };
    let bridge = FakeBridge::default();
    let mut bootstrap = ClientBootstrap::new(xr, bridge);

    let result = bootstrap.start();

    assert!(result.is_ok());
    assert_eq!(bootstrap.xr().enable_calls, 1);
    assert_eq!(bootstrap.bridge().start_calls, 1);
}

#[test]
fn tests_start_reports_xr_initialization_failure() {
    let xr = FakeXr {
        ready: false,
        enable_result: Err(XrError::InitializationFailed {
            reason: "no runtime".to_string(),
        }),
        ..FakeXr::default()
    };
    let bridge = FakeBridge::default();
    let mut bootstrap = ClientBootstrap::new_with_mode(xr, bridge, RuntimeModePreference::Vr);

    let result = bootstrap.start();

    assert!(result.is_ok());
    assert_eq!(bootstrap.bridge().start_calls, 1);
    assert_eq!(bootstrap.runtime_mode(), RuntimeMode::Desktop);
    assert!(bootstrap.start_diagnostics().xr_failure_reason().is_some());
}

#[test]
fn tests_start_reports_xr_not_ready() {
    let xr = FakeXr {
        ready: false,
        enable_result: Ok(()),
        ..FakeXr::default()
    };
    let bridge = FakeBridge::default();
    let mut bootstrap = ClientBootstrap::new_with_mode(xr, bridge, RuntimeModePreference::Vr);

    let result = bootstrap.start();

    assert!(result.is_ok());
    assert_eq!(bootstrap.bridge().start_calls, 1);
    assert_eq!(bootstrap.runtime_mode(), RuntimeMode::Desktop);
    assert_eq!(
        bootstrap.start_diagnostics().xr_failure_reason(),
        Some("xr runtime not ready")
    );
}

#[test]
fn start_uses_desktop_mode_without_xr_initialization() {
    let xr = FakeXr::default();
    let bridge = FakeBridge::default();
    let mut bootstrap = ClientBootstrap::new_with_mode(xr, bridge, RuntimeModePreference::Desktop);

    let result = bootstrap.start();

    assert!(result.is_ok());
    assert_eq!(bootstrap.xr().enable_calls, 0);
    assert_eq!(bootstrap.runtime_mode(), RuntimeMode::Desktop);
    assert!(bootstrap.start_diagnostics().xr_failure_reason().is_none());
}

#[test]
fn tests_start_reports_bridge_initialization_failure() {
    let xr = FakeXr {
        ready: true,
        enable_result: Ok(()),
        ..FakeXr::default()
    };
    let bridge = FakeBridge {
        start_result: Err(BridgeError::InitializationFailed {
            reason: "gdext missing".to_string(),
        }),
        ..FakeBridge::default()
    };
    let mut bootstrap = ClientBootstrap::new_with_mode(xr, bridge, RuntimeModePreference::Vr);

    let result = bootstrap.start();

    assert!(matches!(result, Err(StartError::BridgeInit(_))));
    assert_eq!(bootstrap.bridge().start_calls, 1);
}

#[test]
fn tests_tick_frame_continues_while_running() {
    let xr = FakeXr {
        ready: true,
        enable_result: Ok(()),
        ..FakeXr::default()
    };
    let bridge = FakeBridge {
        frame_result: Ok(RenderFrame::from_primary_pose(FrameId(0), Pose::identity())),
        ..FakeBridge::default()
    };
    let mut bootstrap = ClientBootstrap::new(xr, bridge);

    bootstrap.start().expect("start succeeds");
    let first = bootstrap.tick_frame().expect("first frame");
    let second = bootstrap.tick_frame().expect("second frame");

    assert_eq!(first, FrameId(1));
    assert_eq!(second, FrameId(2));
}

#[test]
fn restart_resets_frame_clock_to_origin() {
    let xr = FakeXr {
        ready: true,
        enable_result: Ok(()),
        ..FakeXr::default()
    };
    let bridge = FakeBridge {
        start_result: Ok(()),
        frame_result: Ok(RenderFrame::from_primary_pose(FrameId(0), Pose::identity())),
        ..FakeBridge::default()
    };
    let mut bootstrap = ClientBootstrap::new(xr, bridge);

    bootstrap.start().expect("first start succeeds");
    let before_restart = bootstrap.tick_frame().expect("frame before restart");
    bootstrap.shutdown().expect("shutdown succeeds");

    bootstrap.start().expect("second start succeeds");
    let after_restart = bootstrap.tick_frame().expect("frame after restart");

    assert_eq!(before_restart, FrameId(1));
    assert_eq!(after_restart, FrameId(1));
}

#[test]
fn tests_tick_frame_fails_when_not_running() {
    let xr = FakeXr::default();
    let bridge = FakeBridge::default();
    let mut bootstrap = ClientBootstrap::new(xr, bridge);

    let result = bootstrap.tick_frame();

    assert!(matches!(result, Err(FrameError::NotRunning)));
}

#[test]
fn tests_tick_fails_when_not_running() {
    let xr = FakeXr::default();
    let bridge = FakeBridge::default();
    let mut bootstrap = ClientBootstrap::new(xr, bridge);

    let result = bootstrap.tick(Vec::new());

    assert!(matches!(result, Err(FrameError::NotRunning)));
}

#[test]
fn tick_uses_current_frame_after_tick_frame_advance() {
    let xr = FakeXr {
        ready: true,
        enable_result: Ok(()),
        ..FakeXr::default()
    };
    let bridge = FakeBridge {
        frame_result: Ok(RenderFrame::from_primary_pose(FrameId(0), Pose::identity())),
        ..FakeBridge::default()
    };
    let mut bootstrap = ClientBootstrap::new(xr, bridge);

    bootstrap.start().expect("start succeeds");
    let frame = bootstrap.tick_frame().expect("frame advanced");
    bootstrap.tick(Vec::new()).expect("tick succeeds");

    assert_eq!(frame, FrameId(1));
    assert_eq!(
        bootstrap.bridge().last_input.as_ref().map(|input| input.frame),
        Some(FrameId(1))
    );
}

#[test]
fn tests_tick_reports_bridge_failure() {
    let xr = FakeXr {
        ready: true,
        enable_result: Ok(()),
        ..FakeXr::default()
    };
    let bridge = FakeBridge::default();
    let mut bootstrap = ClientBootstrap::new(xr, bridge);

    bootstrap.start().expect("start succeeds");
    let result = bootstrap.tick(Vec::new());

    assert!(matches!(result, Err(FrameError::Bridge(_))));
}

#[test]
fn tests_shutdown_releases_resources_and_stops_running() {
    let xr = FakeXr {
        ready: true,
        enable_result: Ok(()),
        ..FakeXr::default()
    };
    let bridge = FakeBridge {
        start_result: Ok(()),
        frame_result: Ok(RenderFrame::from_primary_pose(FrameId(1), Pose::identity())),
        ..FakeBridge::default()
    };
    let mut bootstrap = ClientBootstrap::new(xr, bridge);

    bootstrap.start().expect("start succeeds");
    bootstrap.shutdown().expect("shutdown succeeds");

    assert_eq!(bootstrap.bridge().shutdown_calls, 1);
    assert_eq!(bootstrap.xr().shutdown_calls, 1);
    assert!(matches!(
        bootstrap.tick_frame(),
        Err(FrameError::NotRunning)
    ));
}

#[test]
fn tests_shutdown_reports_bridge_failure() {
    let xr = FakeXr {
        ready: true,
        enable_result: Ok(()),
        ..FakeXr::default()
    };
    let bridge = FakeBridge {
        start_result: Ok(()),
        shutdown_result: Err(BridgeError::ShutdownFailed {
            reason: "bridge busy".to_string(),
        }),
        ..FakeBridge::default()
    };
    let mut bootstrap = ClientBootstrap::new(xr, bridge);

    bootstrap.start().expect("start succeeds");
    let result = bootstrap.shutdown();

    assert!(matches!(result, Err(ShutdownError::BridgeShutdown(_))));
    assert_eq!(bootstrap.bridge().shutdown_calls, 1);
    assert_eq!(bootstrap.xr().shutdown_calls, 1);
}

#[test]
fn shutdown_returns_bridge_error_when_both_shutdowns_fail() {
    let xr = FakeXr {
        ready: true,
        enable_result: Ok(()),
        shutdown_result: Err(XrError::ShutdownFailed {
            reason: "xr stuck".to_string(),
        }),
        ..FakeXr::default()
    };
    let bridge = FakeBridge {
        start_result: Ok(()),
        shutdown_result: Err(BridgeError::ShutdownFailed {
            reason: "bridge busy".to_string(),
        }),
        ..FakeBridge::default()
    };
    let mut bootstrap = ClientBootstrap::new(xr, bridge);

    bootstrap.start().expect("start succeeds");
    let result = bootstrap.shutdown();

    assert!(matches!(result, Err(ShutdownError::BridgeShutdown(_))));
    assert_eq!(bootstrap.bridge().shutdown_calls, 1);
    assert_eq!(bootstrap.xr().shutdown_calls, 1);
    assert!(matches!(
        bootstrap.tick_frame(),
        Err(FrameError::NotRunning)
    ));
}

struct FakeCore {
    init_calls: usize,
    init_result: Result<(), CoreError>,
    tick_calls: usize,
    tick_result: Result<RenderFrame, CoreError>,
    last_input: Option<InputSnapshot>,
}

impl FakeCore {
    fn with_tick_result(result: Result<RenderFrame, CoreError>) -> Self {
        Self {
            init_calls: 0,
            init_result: Ok(()),
            tick_calls: 0,
            tick_result: result,
            last_input: None,
        }
    }
}

impl Default for FakeCore {
    fn default() -> Self {
        Self::with_tick_result(Ok(RenderFrame::from_primary_pose(
            FrameId(0),
            Pose::identity(),
        )))
    }
}

impl EcsCore for FakeCore {
    fn init_world(&mut self) -> Result<(), CoreError> {
        self.init_calls += 1;
        self.init_result.clone()
    }

    fn tick(&mut self, input: InputSnapshot) -> Result<RenderFrame, CoreError> {
        self.tick_calls += 1;
        self.last_input = Some(input);
        self.tick_result.clone()
    }
}

#[test]
fn runtime_bridge_initializes_on_start() {
    let core = FakeCore::default();
    let mut bridge = RuntimeBridgeAdapter::new(core);

    let result = bridge.on_start();

    assert!(result.is_ok());
    assert_eq!(bridge.ecs_core().init_calls, 1);
}

#[test]
fn runtime_bridge_reports_initialization_failure() {
    let core = FakeCore {
        init_result: Err(CoreError::InitFailed {
            reason: "init failed".to_string(),
        }),
        ..Default::default()
    };
    let mut bridge = RuntimeBridgeAdapter::new(core);

    let result = bridge.on_start();

    assert!(matches!(result, Err(BridgeError::CoreInit(_))));
    assert_eq!(bridge.ecs_core().init_calls, 1);
}

#[test]
fn runtime_bridge_rejects_frame_before_start() {
    let core = FakeCore::default();
    let mut bridge = RuntimeBridgeAdapter::new(core);

    let result = bridge.on_frame(InputSnapshot {
        frame: FrameId(0),
        dt_seconds: DEFAULT_INPUT_DT_SECONDS_BITS,
        inputs: Vec::new(),
    });

    assert!(matches!(result, Err(BridgeError::NotStarted)));
}

#[test]
fn runtime_bridge_forwards_frame_input_to_core() {
    let core = FakeCore::with_tick_result(Ok(RenderFrame::from_primary_pose(
        FrameId(1),
        Pose::identity(),
    )));
    let mut bridge = RuntimeBridgeAdapter::new(core);
    bridge.on_start().expect("start succeeds");

    let input = InputSnapshot {
        frame: FrameId(0),
        dt_seconds: DEFAULT_INPUT_DT_SECONDS_BITS,
        inputs: vec![InputEvent::Action {
            name: "jump".to_string(),
            pressed: true,
        }],
    };
    let result = bridge.on_frame(input.clone());

    assert!(result.is_ok());
    assert_eq!(bridge.ecs_core().tick_calls, 1);
    assert_eq!(bridge.ecs_core().last_input, Some(input));
}

#[test]
fn runtime_bridge_rejects_direct_state_override() {
    let core = FakeCore::default();
    let mut bridge = RuntimeBridgeAdapter::new(core);

    let result = bridge.request_state_override(StateOverrideRequest {
        reason: "direct change".to_string(),
    });

    assert!(matches!(
        result,
        Err(BridgeError::DirectStateMutationDenied)
    ));
}

#[test]
fn tests_client_bootstrap_ticks_render_frame_with_core_and_openxr() {
    let provider = FakeXrProvider {
        interface: Some(FakeXrInterface::default()),
    };
    let xr = OpenXrRuntime::new(provider);
    let core = CountingCore::new();
    let bridge = RuntimeBridgeAdapter::new(core);
    let mut bootstrap = ClientBootstrap::new(xr, bridge);

    bootstrap.start().expect("start succeeds");
    let render = bootstrap.tick(Vec::new()).expect("tick succeeds");

    assert_eq!(render.frame, FrameId(1));
    assert_eq!(render.primary_pose(), &Pose::identity());
    assert_eq!(bootstrap.runtime_mode(), RuntimeMode::Vr);
}

#[test]
fn tests_client_bootstrap_reports_openxr_missing_interface() {
    let provider = FakeXrProvider { interface: None };
    let xr = OpenXrRuntime::new(provider);
    let core = CountingCore::new();
    let bridge = RuntimeBridgeAdapter::new(core);
    let mut bootstrap = ClientBootstrap::new(xr, bridge);

    let result = bootstrap.start();

    assert!(result.is_ok());
    assert_eq!(bootstrap.runtime_mode(), RuntimeMode::Desktop);
    assert!(bootstrap.start_diagnostics().xr_failure_reason().is_some());
}

#[test]
fn tests_openxr_enable_succeeds_when_ready() {
    let provider = FakeXrProvider {
        interface: Some(FakeXrInterface::default()),
    };
    let mut runtime = OpenXrRuntime::new(provider);

    let result = runtime.enable();

    assert!(result.is_ok());
    assert!(runtime.is_ready());
}

#[test]
fn tests_openxr_enable_reports_missing_interface() {
    let provider = FakeXrProvider { interface: None };
    let mut runtime = OpenXrRuntime::new(provider);

    let result = runtime.enable();

    assert!(matches!(result, Err(XrError::InitializationFailed { .. })));
    assert!(!runtime.is_ready());
}

#[test]
fn tests_openxr_enable_reports_not_ready() {
    let provider = FakeXrProvider {
        interface: Some(FakeXrInterface {
            initialize_result: false,
            initialized: false,
            ..FakeXrInterface::default()
        }),
    };
    let mut runtime = OpenXrRuntime::new(provider);

    let result = runtime.enable();

    assert!(matches!(result, Err(XrError::InitializationFailed { .. })));
    assert!(!runtime.is_ready());
}

#[test]
fn openxr_failure_reasons_name_the_cause() {
    let mut missing = OpenXrRuntime::new(FakeXrProvider { interface: None });
    match missing.enable() {
        Err(XrError::InitializationFailed { reason }) => assert_eq!(
            reason,
            "openxr interface not found; enable OpenXR in project settings"
        ),
        other => panic!("unexpected {:?}", other),
    }

    let mut failing = OpenXrRuntime::new(FakeXrProvider {
        interface: Some(FakeXrInterface {
            initialize_result: false,
            ..FakeXrInterface::default()
        }),
    });
    match failing.enable() {
        Err(e) => assert_eq!(
            e.message(),
            "xr initialization failed: openxr initialization failed; ensure SteamVR is running"
        ),
        other => panic!("unexpected {:?}", other),
    }
}

#[test]
fn openxr_shutdown_releases_the_interface() {
    let mut runtime = OpenXrRuntime::new(FakeXrProvider {
        interface: Some(FakeXrInterface::default()),
    });
    runtime.enable().expect("enable succeeds");

    runtime.shutdown().expect("shutdown succeeds");

    assert!(!runtime.is_ready());
}

#[derive(Clone)]
struct CapturingSink {
    captured: Rc<RefCell<Option<RenderFrame>>>,
}

impl OutputPort for CapturingSink {
    fn last_projected(&self) -> Option<RenderFrame> {
        self.captured.borrow().clone()
    }

    fn project(&mut self, frame: RenderFrame) {
        *self.captured.borrow_mut() = Some(frame);
    }
}

#[test]
fn tests_bridge_pipeline_projects_render_frame() {
    let bridge = FakeBridge {
        frame_result: Ok(RenderFrame::from_primary_pose(FrameId(1), Pose::identity())),
        ..Default::default()
    };
    let captured = Rc::new(RefCell::new(None));
    let sink = CapturingSink {
        captured: captured.clone(),
    };
    let mut pipeline = BridgePipeline::new(bridge, sink);

    pipeline.on_start().expect("start succeeds");
    let input = InputSnapshot {
        frame: FrameId(0),
        dt_seconds: DEFAULT_INPUT_DT_SECONDS_BITS,
        inputs: vec![InputEvent::Action {
            name: "jump".to_string(),
            pressed: true,
        }],
    };
    pipeline.on_frame(input).expect("frame succeeds");

    assert_eq!(
        *captured.borrow(),
        Some(RenderFrame::from_primary_pose(FrameId(1), Pose::identity()))
    );
}

#[test]
fn bridge_pipeline_on_port_input_uses_shared_frame_clock() {
    struct EchoFrameBridge;

    impl RuntimeBridge for EchoFrameBridge {
        fn on_start(&mut self) -> Result<(), BridgeError> {
            Ok(())
        }

        fn on_shutdown(&mut self) -> Result<(), BridgeError> {
            Ok(())
        }

        fn on_frame(&mut self, input: InputSnapshot) -> Result<RenderFrame, BridgeError> {
            Ok(RenderFrame::from_primary_pose(input.frame, Pose::identity()))
        }
    }

    let mut pipeline = BridgePipeline::new(EchoFrameBridge, RenderFrameBuffer::default());
    let mut clock = FrameClock::default();
    let mut input_port = NoopInputPort;

    pipeline.on_start().expect("start succeeds");
    pipeline
        .on_port_input(&mut clock, &mut input_port)
        .expect("first frame");
    pipeline
        .on_port_input(&mut clock, &mut input_port)
        .expect("second frame");

    assert_eq!(
        pipeline.last_frame(),
        Some(&RenderFrame::from_primary_pose(FrameId(2), Pose::identity()))
    );
}

#[test]
fn bridge_pipeline_keeps_last_frame_when_bridge_fails() {
    let bridge = FakeBridge {
        frame_result: Err(BridgeError::NotStarted),
        ..Default::default()
    };
    let mut pipeline = BridgePipeline::new(bridge, RenderFrameBuffer::new());
    let mut clock = FrameClock::new();
    let mut input_port = NoopInputPort;

    let result = pipeline.on_port_input(&mut clock, &mut input_port);

    assert!(matches!(result, Err(BridgeError::NotStarted)));
    assert!(pipeline.last_frame().is_none());
}

#[test]
fn pipeline_over_adapter_refuses_state_override() {
    let bridge = RuntimeBridgeAdapter::new(FakeCore::default());
    let mut pipeline = BridgePipeline::new(bridge, RenderFrameBuffer::new());

    let result = pipeline.request_state_override(StateOverrideRequest {
        reason: "teleport".to_string(),
    });

    assert!(matches!(
        result,
        Err(BridgeError::DirectStateMutationDenied)
    ));
}

#[test]
fn adapter_stops_taking_frames_after_shutdown() {
    let mut bridge = RuntimeBridgeAdapter::new(FakeCore::default());
    bridge.on_start().expect("start succeeds");
    bridge.on_shutdown().expect("shutdown succeeds");

    let result = bridge.on_frame(InputSnapshot {
        frame: FrameId(3),
        dt_seconds: DEFAULT_INPUT_DT_SECONDS_BITS,
        inputs: Vec::new(),
    });

    assert!(matches!(result, Err(BridgeError::NotStarted)));
    assert_eq!(bridge.ecs_core().tick_calls, 0);
}

#[test]
fn adapter_reports_core_frame_failure() {
    let mut bridge = RuntimeBridgeAdapter::new(FakeCore::with_tick_result(Err(
        CoreError::InitFailed {
            reason: "lost".to_string(),
        },
    )));
    bridge.on_start().expect("start succeeds");

    let result = StateOverride::request_state_override(
        &mut bridge,
        StateOverrideRequest {
            reason: "x".to_string(),
        },
    );
    assert!(result.is_err());

    let frame = bridge.on_frame(InputSnapshot {
        frame: FrameId(1),
        dt_seconds: DEFAULT_INPUT_DT_SECONDS_BITS,
        inputs: Vec::new(),
    });
    assert!(matches!(frame, Err(BridgeError::Core(_))));
}

#[test]
fn tests_gdextension_entry_pipeline_runs_ecs_and_buffers_frame() {
    let core = CountingCore::new();
    let bridge = RuntimeBridgeAdapter::new(core);
    let mut pipeline = BridgePipeline::new(bridge, RenderFrameBuffer::default());
    let mut clock = FrameClock::default();
    let mut input_port = NoopInputPort;

    pipeline.on_start().expect("start succeeds");
    pipeline
        .on_port_input(&mut clock, &mut input_port)
        .expect("frame succeeds");

    assert_eq!(
        pipeline.last_frame(),
        Some(&RenderFrame::from_primary_pose(FrameId(1), Pose::identity()))
    );
}

#[test]
fn bridge_error_state_records_last_error_message() {
    let mut state = BridgeErrorState::default();
    let err = BridgeError::InitializationFailed {
        reason: "gdext init failed".to_string(),
    };

    state.record(&err);

    assert_eq!(
        state.last_message().as_deref(),
        Some("bridge initialization failed: gdext init failed")
    );
}

#[test]
fn bridge_error_state_keeps_typed_error_information() {
    let mut state = BridgeErrorState::default();
    let err = BridgeError::DirectStateMutationDenied;

    state.record(&err);

    assert!(matches!(
        state.last(),
        Some(BridgeError::DirectStateMutationDenied)
    ));
}

#[test]
fn bridge_error_state_starts_empty_and_keeps_the_latest() {
    let mut state = BridgeErrorState::new();
    assert!(state.last().is_none());
    assert!(state.last_message().is_none());

    state.record(&BridgeError::NotStarted);
    state.record(&BridgeError::Core(CoreError::InitFailed {
        reason: "x".to_string(),
    }));

    assert_eq!(state.last_message().as_deref(), Some("core update failed"));
}

#[test]
fn error_messages_match_their_variants() {
    assert_eq!(
        XrError::ShutdownFailed {
            reason: "r".to_string()
        }
        .message(),
        "xr shutdown failed: r"
    );
    assert_eq!(
        CoreError::InitFailed {
            reason: "r".to_string()
        }
        .message(),
        "ecs world initialization failed: r"
    );
    assert_eq!(BridgeError::NotStarted.message(), "bridge is not started");
    assert_eq!(
        BridgeError::ProjectionFailed {
            reason: "r".to_string()
        }
        .message(),
        "render projection failed: r"
    );
    assert_eq!(StartError::XrNotReady.message(), "xr runtime is not ready");
    assert_eq!(
        ShutdownError::XrShutdown(XrError::ShutdownFailed {
            reason: "r".to_string()
        })
        .message(),
        "xr shutdown failed"
    );
    assert_eq!(FrameError::NotRunning.message(), "client is not running");
}

#[test]
fn render_frame_exposes_primary_pose_accessor() {
    let pose = Pose::identity();
    let frame = RenderFrame::from_primary_pose(FrameId(1), pose);

    assert_eq!(frame.primary_pose(), &pose);
}

#[test]
fn noop_input_port_produces_domain_snapshot() {
    let mut port = NoopInputPort;
    let mut clock = FrameClock::default();

    let snapshot = port.snapshot(&mut clock);

    assert_eq!(snapshot.frame, FrameId(1));
    assert!(snapshot.inputs.is_empty());
}

#[test]
fn input_event_supports_minimal_domain_variants() {
    let move_event = InputEvent::Move {
        axis_x: 1.0f32.to_bits(),
        axis_y: (-1.0f32).to_bits(),
    };
    let look_event = InputEvent::Look {
        yaw_delta: 0.25f32.to_bits(),
        pitch_delta: (-0.5f32).to_bits(),
    };
    let action_event = InputEvent::Action {
        name: "jump".to_string(),
        pressed: true,
    };

    assert!(matches!(move_event, InputEvent::Move { .. }));
    assert!(matches!(look_event, InputEvent::Look { .. }));
    assert!(matches!(action_event, InputEvent::Action { .. }));
}

#[test]
fn constants_hold_the_bit_patterns_of_their_numbers() {
    assert_eq!(f32::from_bits(ONE_BITS), 1.0);
    assert_eq!(f32::from_bits(DEFAULT_INPUT_DT_SECONDS_BITS), 1.0f32 / 60.0);
    let identity = Pose::identity();
    assert_eq!(identity.position, Vec3::zero());
    assert_eq!(identity.orientation, UnitQuat::identity());
    assert_eq!(f32::from_bits(identity.orientation.w), 1.0);
}

#[test]
fn frame_clock_counts_and_resets() {
    let mut clock = FrameClock::new();
    assert_eq!(clock.current_frame(), FrameId(0));
    assert_eq!(clock.next_frame(), FrameId(1));
    assert_eq!(clock.next_frame(), FrameId(2));
    clock.reset(FrameId(7));
    assert_eq!(clock.current_frame(), FrameId(7));
    assert_eq!(clock.next_frame(), FrameId(8));
}

#[test]
fn render_frame_remote_poses_are_replaced() {
    let frame = RenderFrame::from_primary_pose(FrameId(4), Pose::identity());
    assert!(frame.remote_poses().is_empty());
    let remote = RemoteRenderPose {
        participant_id: "peer".to_string(),
        pose: Pose::identity(),
    };
    let frame = frame.with_remote_poses(vec![remote.clone()]);

    assert_eq!(frame.frame_id(), FrameId(4));
    assert_eq!(frame.remote_poses(), &[remote][..]);
}

#[test]
fn shutdown_when_stopped_does_nothing() {
    let mut bootstrap = ClientBootstrap::new(FakeXr::default(), FakeBridge::default());

    assert!(bootstrap.shutdown().is_ok());
    assert_eq!(bootstrap.bridge().shutdown_calls, 0);
    assert_eq!(bootstrap.xr().shutdown_calls, 0);
}

#[test]
fn shutdown_reports_xr_failure_when_bridge_stops() {
    let xr = FakeXr {
        ready: true,
        shutdown_result: Err(XrError::ShutdownFailed {
            reason: "stuck".to_string(),
        }),
        ..FakeXr::default()
    };
    let mut bootstrap = ClientBootstrap::new(xr, FakeBridge::default());
    bootstrap.start().expect("start succeeds");
    assert_eq!(bootstrap.runtime_mode(), RuntimeMode::Vr);

    let result = bootstrap.shutdown();

    assert!(matches!(result, Err(ShutdownError::XrShutdown(_))));
    assert_eq!(bootstrap.runtime_mode(), RuntimeMode::Desktop);
}

#[test]
fn xr_failure_reason_is_the_error_message() {
    let xr = FakeXr {
        enable_result: Err(XrError::InitializationFailed {
            reason: "no runtime".to_string(),
        }),
        ..FakeXr::default()
    };
    let mut bootstrap = ClientBootstrap::new(xr, FakeBridge::default());
    bootstrap.start().expect("start succeeds");

    assert_eq!(
        bootstrap.start_diagnostics().xr_failure_reason(),
        Some("xr initialization failed: no runtime")
    );
}

#[test]
fn failed_start_keeps_the_client_stopped() {
    let bridge = FakeBridge {
        start_result: Err(BridgeError::NotStarted),
        ..FakeBridge::default()
    };
    let mut bootstrap = ClientBootstrap::new(FakeXr::default(), bridge);

    assert!(bootstrap.start().is_err());
    assert!(matches!(
        bootstrap.tick_frame(),
        Err(FrameError::NotRunning)
    ));
}

#[test]
fn pipeline_over_adapter_answers_the_core_failure() {
    let bridge = RuntimeBridgeAdapter::new(FakeCore::with_tick_result(Err(
        CoreError::InitFailed {
            reason: "lost".to_string(),
        },
    )));
    let mut pipeline = BridgePipeline::new(bridge, RenderFrameBuffer::new());
    pipeline.on_start().expect("start succeeds");

    let result = pipeline.on_frame(InputSnapshot {
        frame: FrameId(1),
        dt_seconds: DEFAULT_INPUT_DT_SECONDS_BITS,
        inputs: Vec::new(),
    });

    assert!(matches!(result, Err(BridgeError::Core(_))));
    assert!(pipeline.last_frame().is_none());
    assert_eq!(pipeline.on_shutdown(), Ok(()));
}

#[test]
fn lightweight_xr_runtime_never_enables() {
    let mut xr = GodotXrRuntime::default();

    let result = xr.enable();

    assert_eq!(
        result,
        Err(XrError::InitializationFailed {
            reason: "OpenXR classes are not available in lightweight API mode".to_string(),
        })
    );
    assert!(!xr.is_ready());
    assert_eq!(xr.shutdown(), Ok(()));
    assert!(!xr.is_ready());
}

#[test]
fn lightweight_xr_runtime_falls_back_to_desktop() {
    let mut bootstrap = ClientBootstrap::new(GodotXrRuntime::new(), FakeBridge::default());

    bootstrap.start().expect("start succeeds");

    assert_eq!(bootstrap.runtime_mode(), RuntimeMode::Desktop);
    assert_eq!(
        bootstrap.start_diagnostics().xr_failure_reason(),
        Some("xr initialization failed: OpenXR classes are not available in lightweight API mode")
    );
}

#[test]
fn move_actions_press_and_release_their_own_key() {
    let keys = MoveKeys::default();

    let keys = apply_move_action(keys, "move_left", true);
    let keys = apply_move_action(keys, "move_forward", true);
    assert_eq!(
        keys,
        MoveKeys {
            move_left: true,
            move_right: false,
            move_forward: true,
            move_back: false,
        }
    );

    let keys = apply_move_action(keys, "move_left", false);
    let keys = apply_move_action(keys, "look_left", true);
    assert_eq!(
        keys,
        MoveKeys {
            move_left: false,
            move_right: false,
            move_forward: true,
            move_back: false,
        }
    );

    let keys = apply_move_action(keys, "move_right", true);
    let keys = apply_move_action(keys, "move_back", true);
    let keys = apply_move_action(keys, "move_forward", false);
    assert_eq!(
        keys,
        MoveKeys {
            move_left: false,
            move_right: true,
            move_forward: false,
            move_back: true,
        }
    );
}
