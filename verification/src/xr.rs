//! The XR runtime that the client enables at start, and the OpenXR-backed
//! one.
use vstd::prelude::*;

use crate::client_errors::XrError;

verus! {

/// An XR runtime that can be enabled and shut down.
///
/// Each runtime says, by relations over the runtime before and after a call
/// and the answer, which outcomes its operations can have; a runtime that
/// does not say allows every outcome.
pub trait XrRuntime: Sized {
    /// Whether enabling can take the runtime from `before` to `after` and
    /// answer `r`.
    open spec fn enable_outcome(before: Self, after: Self, r: Result<(), XrError>) -> bool {
        true
    }

    /// Whether `runtime` can answer `r` when asked if it is ready.
    open spec fn ready_answer(runtime: Self, r: bool) -> bool {
        true
    }

    /// Whether shutting down can take the runtime from `before` to `after`
    /// and answer `r`.
    open spec fn shutdown_outcome(before: Self, after: Self, r: Result<(), XrError>) -> bool {
        true
    }

    fn enable(&mut self) -> (r: Result<(), XrError>)
        ensures
            Self::enable_outcome(*old(self), *final(self), r),
    ;

    fn is_ready(&self) -> (r: bool)
        ensures
            Self::ready_answer(*self, r),
    ;

    fn shutdown(&mut self) -> (r: Result<(), XrError>)
        ensures
            Self::shutdown_outcome(*old(self), *final(self), r),
    ;
}

/// Access to an XR interface of the engine.
///
/// Each interface says, by relations, what its operations can answer; one
/// that does not say allows every answer.
pub trait XrInterfaceAccess: Sized {
    /// Whether initializing can take the interface from `before` to `after`
    /// and answer `r`.
    open spec fn initialize_outcome(before: Self, after: Self, r: bool) -> bool {
        true
    }

    /// Whether `interface` can answer `r` when asked if it is initialized.
    open spec fn initialized_answer(interface: Self, r: bool) -> bool {
        true
    }

    fn initialize(&mut self) -> (r: bool)
        ensures
            Self::initialize_outcome(*old(self), *final(self), r),
    ;

    fn is_initialized(&self) -> (r: bool)
        ensures
            Self::initialized_answer(*self, r),
    ;

    fn uninitialize(&mut self);
}

/// Finds the OpenXR interface of the engine.
pub trait XrInterfaceProvider: Sized {
    type Interface: XrInterfaceAccess;

    /// Whether `provider` can answer `r` when asked for the OpenXR
    /// interface; a provider that does not say allows every answer.
    open spec fn find_answer(provider: Self, r: Option<Self::Interface>) -> bool {
        true
    }

    fn find_openxr(&self) -> (r: Option<Self::Interface>)
        ensures
            Self::find_answer(*self, r),
    ;
}

/// Reason given when no OpenXR interface exists.
pub open spec fn reason_not_found() -> Seq<char> {
    "openxr interface not found; enable OpenXR in project settings"@
}

/// Reason given when the interface fails to initialize.
pub open spec fn reason_init_failed() -> Seq<char> {
    "openxr initialization failed; ensure SteamVR is running"@
}

/// Reason given when the interface initialized but is not ready.
pub open spec fn reason_not_ready() -> Seq<char> {
    "openxr runtime not ready; ensure SteamVR is running"@
}

/// XR runtime on top of the engine's OpenXR interface.
pub struct OpenXrRuntime<P: XrInterfaceProvider> {
    provider: P,
    interface: Option<P::Interface>,
    ready: bool,
}

impl<P: XrInterfaceProvider> OpenXrRuntime<P> {
    /// Whether the runtime is ready.
    pub closed spec fn ready(&self) -> bool {
        self.ready
    }

    /// Whether the runtime holds an initialized interface.
    pub closed spec fn holds_interface(&self) -> bool {
        self.interface is Some
    }

    /// The provider the runtime asks for the interface.
    pub closed spec fn provider(&self) -> P {
        self.provider
    }

    /// The interface the runtime holds, if any.
    pub closed spec fn interface(&self) -> Option<P::Interface> {
        self.interface
    }

    /// A runtime that is not enabled.
    pub fn new(provider: P) -> (r: Self)
        ensures
            !r.ready(),
            !r.holds_interface(),
    {
        OpenXrRuntime { provider, interface: None, ready: false }
    }
}

/// Whether `r` is the initialization failure with the reason `text`.
pub open spec fn failed_with(r: Result<(), XrError>, text: Seq<char>) -> bool {
    r matches Err(XrError::InitializationFailed { reason }) && reason@ == text
}

/// What enabling does once the provider answered `found`: no interface is
/// `reason_not_found` with nothing changed; an interface that does not
/// initialize is `reason_init_failed` and leaves the runtime not ready; one
/// that initializes is kept exactly when it then reports itself
/// initialized, which is the readiness; otherwise `reason_not_ready`.
pub open spec fn enable_from<P: XrInterfaceProvider>(
    before: OpenXrRuntime<P>,
    after: OpenXrRuntime<P>,
    found: Option<P::Interface>,
    r: Result<(), XrError>,
) -> bool {
    &&& after.provider() == before.provider()
    &&& match found {
        None => failed_with(r, reason_not_found()) && after.ready() == before.ready()
            && after.interface() == before.interface(),
        Some(i) => exists|j: P::Interface, ok: bool|
            #[trigger] <P::Interface as XrInterfaceAccess>::initialize_outcome(i, j, ok) && if !ok {
                failed_with(r, reason_init_failed()) && !after.ready() && after.interface()
                    == before.interface()
            } else {
                <P::Interface as XrInterfaceAccess>::initialized_answer(j, after.ready()) && if !after.ready() {
                    failed_with(r, reason_not_ready()) && after.interface() == before.interface()
                } else {
                    r is Ok && after.interface() == Some(j)
                }
            },
    }
}

impl<P: XrInterfaceProvider> XrRuntime for OpenXrRuntime<P> {
    /// The provider is asked once for the interface, and `enable_from` holds
    /// for its answer.
    open spec fn enable_outcome(before: Self, after: Self, r: Result<(), XrError>) -> bool {
        exists|found: Option<P::Interface>|
            #[trigger] P::find_answer(before.provider(), found) && enable_from(before, after, found, r)
    }

    /// The answer is the readiness.
    open spec fn ready_answer(runtime: Self, r: bool) -> bool {
        r == runtime.ready()
    }

    /// Always succeeds; the interface is let go and the runtime is not
    /// ready.
    open spec fn shutdown_outcome(before: Self, after: Self, r: Result<(), XrError>) -> bool {
        &&& r is Ok
        &&& !after.ready()
        &&& !after.holds_interface()
        &&& after.provider() == before.provider()
    }

    fn enable(&mut self) -> (r: Result<(), XrError>)
        ensures
            r is Ok ==> final(self).ready() && final(self).holds_interface(),
            r matches Err(e) ==> match e {
                XrError::InitializationFailed { reason } => (reason@ == reason_not_found()
                    && final(self).ready() == old(self).ready()) || ((reason@
                    == reason_init_failed() || reason@ == reason_not_ready())
                    && !final(self).ready()),
                _ => false,
            },
    {
        let found = self.provider.find_openxr();
        let ghost found_seen = found;
        let mut interface = match found {
            Some(i) => i,
            None => {
                let r = Err(
                    XrError::InitializationFailed {
                        reason: "openxr interface not found; enable OpenXR in project settings".to_string(),
                    },
                );
                proof {
                    reveal_strlit("openxr interface not found; enable OpenXR in project settings");
                }
                assert(enable_from(*old(self), *self, found_seen, r));
                assert(P::find_answer(old(self).provider(), found_seen));
                assert(Self::enable_outcome(*old(self), *self, r));
                return r;
            },
        };
        let ghost first = interface;
        let ok = interface.initialize();
        if !ok {
            self.ready = false;
            let r = Err(
                XrError::InitializationFailed {
                    reason: "openxr initialization failed; ensure SteamVR is running".to_string(),
                },
            );
            assert(enable_from(*old(self), *self, found_seen, r));
            return r;
        }
        self.ready = interface.is_initialized();
        if !self.ready {
            let r = Err(
                XrError::InitializationFailed {
                    reason: "openxr runtime not ready; ensure SteamVR is running".to_string(),
                },
            );
            assert(enable_from(*old(self), *self, found_seen, r));
            return r;
        }
        let ghost kept = interface;
        self.interface = Some(interface);
        assert(enable_from(*old(self), *self, found_seen, Ok(())));
        Ok(())
    }

    fn is_ready(&self) -> (r: bool)
        ensures
            r == self.ready(),
    {
        self.ready
    }

    fn shutdown(&mut self) -> (r: Result<(), XrError>)
        ensures
            r is Ok,
            !final(self).ready(),
            !final(self).holds_interface(),
    {
        match self.interface.take() {
            Some(mut interface) => {
                interface.uninitialize();
            },
            None => {},
        }
        self.ready = false;
        Ok(())
    }
}

/// Reason given by a runtime that cannot reach the OpenXR classes.
pub open spec fn reason_lightweight_api() -> Seq<char> {
    "OpenXR classes are not available in lightweight API mode"@
}

/// XR runtime for an engine built without the OpenXR classes: it can never
/// be enabled.
pub struct GodotXrRuntime {
    ready: bool,
}

impl GodotXrRuntime {
    /// Whether the runtime is ready.
    pub closed spec fn ready(&self) -> bool {
        self.ready
    }

    /// A runtime that is not ready.
    pub fn new() -> (r: Self)
        ensures
            !r.ready(),
    {
        GodotXrRuntime { ready: false }
    }
}

impl Default for GodotXrRuntime {
    fn default() -> (r: Self)
        ensures
            !r.ready(),
    {
        GodotXrRuntime::new()
    }
}

impl XrRuntime for GodotXrRuntime {
    /// Enabling always fails, with `reason_lightweight_api`, and leaves the
    /// runtime not ready.
    open spec fn enable_outcome(before: Self, after: Self, r: Result<(), XrError>) -> bool {
        failed_with(r, reason_lightweight_api()) && !after.ready()
    }

    /// The answer is the readiness.
    open spec fn ready_answer(runtime: Self, r: bool) -> bool {
        r == runtime.ready()
    }

    /// Always succeeds and leaves the runtime not ready.
    open spec fn shutdown_outcome(before: Self, after: Self, r: Result<(), XrError>) -> bool {
        r is Ok && !after.ready()
    }

    fn enable(&mut self) -> (r: Result<(), XrError>) {
        self.ready = false;
        proof {
            reveal_strlit("OpenXR classes are not available in lightweight API mode");
        }
        Err(
            XrError::InitializationFailed {
                reason: "OpenXR classes are not available in lightweight API mode".to_string(),
            },
        )
    }

    fn is_ready(&self) -> (r: bool) {
        self.ready
    }

    fn shutdown(&mut self) -> (r: Result<(), XrError>) {
        self.ready = false;
        Ok(())
    }
}

} // verus!
