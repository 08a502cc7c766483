//! Errors of the client runtime, with the messages they show.
use vstd::prelude::*;

verus! {

/// `prefix` followed by `reason`.
pub(crate) fn join_text(prefix: &str, reason: &String) -> (r: String)
    ensures
        r@ == prefix@ + reason@,
{
    let mut s = prefix.to_string();
    s.append(reason.as_str());
    s
}

/// Failures of the XR runtime.
#[derive(Debug, PartialEq)]
pub enum XrError {
    InitializationFailed { reason: String },
    ShutdownFailed { reason: String },
}

impl Clone for XrError {
    fn clone(&self) -> (r: Self)
        ensures
            r == *self,
    {
        match self {
            XrError::InitializationFailed { reason } => XrError::InitializationFailed {
                reason: reason.clone(),
            },
            XrError::ShutdownFailed { reason } => XrError::ShutdownFailed { reason: reason.clone() },
        }
    }
}

impl XrError {
    /// The message of the error.
    pub open spec fn text(&self) -> Seq<char> {
        match self {
            XrError::InitializationFailed { reason } => "xr initialization failed: "@ + reason@,
            XrError::ShutdownFailed { reason } => "xr shutdown failed: "@ + reason@,
        }
    }

    /// The message of the error.
    pub fn message(&self) -> (r: String)
        ensures
            r@ == self.text(),
    {
        match self {
            XrError::InitializationFailed { reason } => join_text(
                "xr initialization failed: ",
                reason,
            ),
            XrError::ShutdownFailed { reason } => join_text("xr shutdown failed: ", reason),
        }
    }
}

/// Failures of the simulation core.
#[derive(Debug, PartialEq)]
pub enum CoreError {
    InitFailed { reason: String },
}

impl Clone for CoreError {
    fn clone(&self) -> (r: Self)
        ensures
            r == *self,
    {
        match self {
            CoreError::InitFailed { reason } => CoreError::InitFailed { reason: reason.clone() },
        }
    }
}

impl CoreError {
    /// The message of the error.
    pub open spec fn text(&self) -> Seq<char> {
        match self {
            CoreError::InitFailed { reason } => "ecs world initialization failed: "@ + reason@,
        }
    }

    /// The message of the error.
    pub fn message(&self) -> (r: String)
        ensures
            r@ == self.text(),
    {
        match self {
            CoreError::InitFailed { reason } => join_text(
                "ecs world initialization failed: ",
                reason,
            ),
        }
    }
}

/// Failures of the runtime bridge.
#[derive(Debug, PartialEq)]
pub enum BridgeError {
    InitializationFailed { reason: String },
    ShutdownFailed { reason: String },
    NotStarted,
    DirectStateMutationDenied,
    ProjectionFailed { reason: String },
    CoreInit(CoreError),
    Core(CoreError),
}

impl Clone for BridgeError {
    fn clone(&self) -> (r: Self)
        ensures
            r == *self,
    {
        match self {
            BridgeError::InitializationFailed { reason } => BridgeError::InitializationFailed {
                reason: reason.clone(),
            },
            BridgeError::ShutdownFailed { reason } => BridgeError::ShutdownFailed {
                reason: reason.clone(),
            },
            BridgeError::NotStarted => BridgeError::NotStarted,
            BridgeError::DirectStateMutationDenied => BridgeError::DirectStateMutationDenied,
            BridgeError::ProjectionFailed { reason } => BridgeError::ProjectionFailed {
                reason: reason.clone(),
            },
            BridgeError::CoreInit(e) => BridgeError::CoreInit(e.clone()),
            BridgeError::Core(e) => BridgeError::Core(e.clone()),
        }
    }
}

impl BridgeError {
    /// The message of the error.
    pub open spec fn text(&self) -> Seq<char> {
        match self {
            BridgeError::InitializationFailed { reason } => "bridge initialization failed: "@
                + reason@,
            BridgeError::ShutdownFailed { reason } => "bridge shutdown failed: "@ + reason@,
            BridgeError::NotStarted => "bridge is not started"@,
            BridgeError::DirectStateMutationDenied => "direct state mutation is not allowed"@,
            BridgeError::ProjectionFailed { reason } => "render projection failed: "@ + reason@,
            BridgeError::CoreInit(_) => "core initialization failed"@,
            BridgeError::Core(_) => "core update failed"@,
        }
    }

    /// The message of the error.
    pub fn message(&self) -> (r: String)
        ensures
            r@ == self.text(),
    {
        match self {
            BridgeError::InitializationFailed { reason } => join_text(
                "bridge initialization failed: ",
                reason,
            ),
            BridgeError::ShutdownFailed { reason } => join_text("bridge shutdown failed: ", reason),
            BridgeError::NotStarted => "bridge is not started".to_string(),
            BridgeError::DirectStateMutationDenied => "direct state mutation is not allowed".to_string(),
            BridgeError::ProjectionFailed { reason } => join_text(
                "render projection failed: ",
                reason,
            ),
            BridgeError::CoreInit(_) => "core initialization failed".to_string(),
            BridgeError::Core(_) => "core update failed".to_string(),
        }
    }
}

/// Failures of starting the client.
#[derive(Debug, PartialEq)]
pub enum StartError {
    XrInit(XrError),
    XrNotReady,
    BridgeInit(BridgeError),
}

/// Failures of shutting the client down.
#[derive(Debug, PartialEq)]
pub enum ShutdownError {
    XrShutdown(XrError),
    BridgeShutdown(BridgeError),
}

/// Failures of one frame.
#[derive(Debug, PartialEq)]
pub enum FrameError {
    NotRunning,
    Bridge(BridgeError),
}

impl StartError {
    /// The message of the error.
    pub open spec fn text(&self) -> Seq<char> {
        match self {
            StartError::XrInit(_) => "xr runtime initialization failed"@,
            StartError::XrNotReady => "xr runtime is not ready"@,
            StartError::BridgeInit(_) => "runtime bridge initialization failed"@,
        }
    }

    /// The message of the error.
    pub fn message(&self) -> (r: String)
        ensures
            r@ == self.text(),
    {
        match self {
            StartError::XrInit(_) => "xr runtime initialization failed".to_string(),
            StartError::XrNotReady => "xr runtime is not ready".to_string(),
            StartError::BridgeInit(_) => "runtime bridge initialization failed".to_string(),
        }
    }
}

impl ShutdownError {
    /// The message of the error.
    pub open spec fn text(&self) -> Seq<char> {
        match self {
            ShutdownError::XrShutdown(_) => "xr shutdown failed"@,
            ShutdownError::BridgeShutdown(_) => "bridge shutdown failed"@,
        }
    }

    /// The message of the error.
    pub fn message(&self) -> (r: String)
        ensures
            r@ == self.text(),
    {
        match self {
            ShutdownError::XrShutdown(_) => "xr shutdown failed".to_string(),
            ShutdownError::BridgeShutdown(_) => "bridge shutdown failed".to_string(),
        }
    }
}

impl FrameError {
    /// The message of the error.
    pub open spec fn text(&self) -> Seq<char> {
        match self {
            FrameError::NotRunning => "client is not running"@,
            FrameError::Bridge(_) => "frame update failed"@,
        }
    }

    /// The message of the error.
    pub fn message(&self) -> (r: String)
        ensures
            r@ == self.text(),
    {
        match self {
            FrameError::NotRunning => "client is not running".to_string(),
            FrameError::Bridge(_) => "frame update failed".to_string(),
        }
    }
}

/// The last bridge error that occurred, if any.
#[derive(Debug, Default, Clone)]
pub struct BridgeErrorState {
    last_error: Option<BridgeError>,
}

impl BridgeErrorState {
    /// The recorded error.
    pub closed spec fn recorded(&self) -> Option<BridgeError> {
        self.last_error
    }

    /// An empty record.
    pub fn new() -> (r: Self)
        ensures
            r.recorded() is None,
    {
        BridgeErrorState { last_error: None }
    }

    /// Records `error`, replacing any earlier one.
    pub fn record(&mut self, error: &BridgeError)
        ensures
            final(self).recorded() == Some(*error),
    {
        self.last_error = Some(error.clone());
    }

    /// The recorded error.
    pub fn last(&self) -> (r: Option<BridgeError>)
        ensures
            r == self.recorded(),
    {
        match &self.last_error {
            Some(e) => Some(e.clone()),
            None => None,
        }
    }

    /// The message of the recorded error.
    pub fn last_message(&self) -> (r: Option<String>)
        ensures
            match (r, self.recorded()) {
                (None, None) => true,
                (Some(s), Some(e)) => s@ == e.text(),
                _ => false,
            },
    {
        match &self.last_error {
            Some(e) => Some(e.message()),
            None => None,
        }
    }
}

} // verus!
