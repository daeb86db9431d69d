use vstd::prelude::*;
use crate::encoder::SampleEncoding;

verus! {

/// Status returned by a start that began streaming or found it already running.
pub const STATUS_OK: i32 = 0;

/// Why a start attempt failed; each step of the setup has its own.
#[derive(Clone, Copy, Debug, PartialEq, Eq, Structural)]
pub enum SetupError {
    /// The destination host could not be read as text.
    InvalidHost,
    /// No preferred device and no default input device.
    NoDevice,
    /// The device reports no usable default input configuration.
    FormatUnavailable,
    /// The local datagram socket could not be bound.
    BindFailed,
    /// The destination could not be resolved or connected to.
    ConnectFailed,
    /// The device's sample encoding cannot be serialised.
    UnsupportedEncoding,
    /// The capture stream could not be built.
    StreamBuildFailed,
    /// The capture stream could not be started.
    PlayFailed,
}

impl SetupError {
    pub open spec fn spec_code(self) -> int {
        match self {
            SetupError::InvalidHost => -1,
            SetupError::NoDevice => -2,
            SetupError::FormatUnavailable => -3,
            SetupError::BindFailed => -4,
            SetupError::ConnectFailed => -5,
            SetupError::UnsupportedEncoding => -6,
            SetupError::StreamBuildFailed => -7,
            SetupError::PlayFailed => -8,
        }
    }

    /// The status code reported to the caller of start.
    pub fn status_code(&self) -> (r: i32)
        ensures
            r == self.spec_code(),
    {
        match self {
            SetupError::InvalidHost => -1,
            SetupError::NoDevice => -2,
            SetupError::FormatUnavailable => -3,
            SetupError::BindFailed => -4,
            SetupError::ConnectFailed => -5,
            SetupError::UnsupportedEncoding => -6,
            SetupError::StreamBuildFailed => -7,
            SetupError::PlayFailed => -8,
        }
    }
}

/// Accepts a negotiated encoding only if it can be serialised, giving its sample width.
pub fn require_supported(encoding: SampleEncoding) -> (r: Result<usize, SetupError>)
    ensures
        match encoding.spec_width() {
            Some(w) => r == Ok::<usize, SetupError>(w),
            None => r == Err::<usize, SetupError>(SetupError::UnsupportedEncoding),
        },
{
    match encoding.sample_width() {
        Some(w) => Ok(w),
        None => Err(SetupError::UnsupportedEncoding),
    }
}

/// The destination `host:50051` that captured audio is sent to.
pub fn endpoint_address(host: &str) -> (r: String)
    ensures
        r@ == host@ + ":50051"@,
{
    let owned = host.to_owned();
    owned.concat(":50051")
}

/// The process-wide streaming state: idle, or streaming with the one live capture
/// session. The flag and the session are one value, so they cannot disagree.
pub enum Lifecycle<S> {
    Idle,
    Streaming(S),
}

impl<S> Lifecycle<S> {
    /// The streaming flag.
    pub open spec fn streaming(self) -> bool {
        self is Streaming
    }

    /// The capture session held, if any.
    pub open spec fn current_session(self) -> Option<S> {
        match self {
            Lifecycle::Idle => None,
            Lifecycle::Streaming(s) => Some(s),
        }
    }

    /// The state after a start whose setup, if it ran, ended with `outcome`.
    pub open spec fn after_start(self, outcome: Result<S, SetupError>) -> Self {
        if self.streaming() {
            self
        } else {
            match outcome {
                Ok(s) => Lifecycle::Streaming(s),
                Err(_) => Lifecycle::Idle,
            }
        }
    }

    /// The status of a start whose setup, if it ran, ended with `outcome`.
    pub open spec fn start_status(self, outcome: Result<S, SetupError>) -> int {
        if self.streaming() {
            STATUS_OK as int
        } else {
            match outcome {
                Ok(_) => STATUS_OK as int,
                Err(e) => e.spec_code(),
            }
        }
    }

    pub open spec fn after_stop(self) -> Self {
        Lifecycle::Idle
    }

    /// The state at process start.
    pub fn new() -> (r: Self)
        ensures
            r is Idle,
    {
        Lifecycle::Idle
    }

    pub fn is_streaming(&self) -> (r: bool)
        ensures
            r == self.streaming(),
    {
        match self {
            Lifecycle::Idle => false,
            Lifecycle::Streaming(_) => true,
        }
    }

    pub fn has_session(&self) -> (r: bool)
        ensures
            r == self.current_session() is Some,
    {
        match self {
            Lifecycle::Idle => false,
            Lifecycle::Streaming(_) => true,
        }
    }

    /// Whether a start must run the setup steps; a start while streaming does nothing.
    pub fn needs_setup(&self) -> (r: bool)
        ensures
            r == !self.streaming(),
    {
        !self.is_streaming()
    }

    /// Completes a start with the outcome of its setup: a new session begins
    /// streaming, a failure leaves the state idle with that step's status. While
    /// already streaming the state is kept and the status is success.
    pub fn finish_start(&mut self, outcome: Result<S, SetupError>) -> (code: i32)
        ensures
            code == old(self).start_status(outcome),
            *final(self) == old(self).after_start(outcome),
    {
        if self.is_streaming() {
            return STATUS_OK;
        }
        match outcome {
            Ok(s) => {
                *self = Lifecycle::Streaming(s);
                STATUS_OK
            },
            Err(e) => e.status_code(),
        }
    }

    /// Starts streaming: if idle, runs `setup` once and keeps the session it
    /// builds; if already streaming, does not run it. Returns the status.
    pub fn start<F: FnOnce() -> Result<S, SetupError>>(&mut self, setup: F) -> (code: i32)
        requires
            setup.requires(()),
        ensures
            old(self).streaming() ==> code == STATUS_OK && *final(self) == *old(self),
            !old(self).streaming() ==> exists|o: Result<S, SetupError>|
                #[trigger] setup.ensures((), o) && code == old(self).start_status(o)
                    && *final(self) == old(self).after_start(o),
    {
        if self.is_streaming() {
            return STATUS_OK;
        }
        let outcome = setup();
        self.finish_start(outcome)
    }

    /// Stops streaming: the session, if any, is handed back to be released and the
    /// state becomes idle. Stopping while idle changes nothing.
    pub fn stop(&mut self) -> (released: Option<S>)
        ensures
            released == old(self).current_session(),
            *final(self) == old(self).after_stop(),
    {
        let mut prev = Lifecycle::Idle;
        std::mem::swap(self, &mut prev);
        match prev {
            Lifecycle::Idle => None,
            Lifecycle::Streaming(s) => Some(s),
        }
    }
}

/// The streaming flag is set exactly when a session is held.
pub proof fn lemma_flag_matches_session<S>(l: Lifecycle<S>)
    ensures
        l.streaming() <==> l.current_session() is Some,
{
}

/// Every start and stop leaves the flag and the session in agreement.
pub proof fn lemma_transitions_keep_consistency<S>(l: Lifecycle<S>, o: Result<S, SetupError>)
    ensures
        l.after_start(o).streaming() <==> l.after_start(o).current_session() is Some,
        l.after_stop().streaming() <==> l.after_stop().current_session() is Some,
{
}

/// A second start right after a successful one also succeeds and keeps the one
/// session the first created; the second setup outcome is never used.
pub proof fn lemma_start_twice<S>(l: Lifecycle<S>, first: Result<S, SetupError>, second: Result<
    S,
    SetupError,
>)
    requires
        l.start_status(first) == STATUS_OK,
    ensures
        l.after_start(first).streaming(),
        l.after_start(first).start_status(second) == STATUS_OK,
        l.after_start(first).after_start(second) == l.after_start(first),
{
    match first {
        Ok(_) => {},
        Err(e) => {
            assert(e.spec_code() < 0);
        },
    }
}

/// Stopping while idle is a no-op and leaves the state idle.
pub proof fn lemma_stop_when_idle<S>(l: Lifecycle<S>)
    requires
        !l.streaming(),
    ensures
        l.after_stop() == l,
        !l.after_stop().streaming(),
{
}

/// A start from idle whose setup fails at any step reports that step's status and
/// keeps no session.
pub proof fn lemma_failed_start_keeps_nothing<S>(l: Lifecycle<S>, e: SetupError)
    requires
        !l.streaming(),
    ensures
        l.start_status(Err(e)) == e.spec_code(),
        l.start_status(Err(e)) != STATUS_OK,
        l.after_start(Err(e)) is Idle,
        l.after_start(Err(e)).current_session() is None,
{
}

} // verus!
