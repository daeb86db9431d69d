use aurelay_engine::encoder::SampleEncoding;
use aurelay_engine::lifecycle::{endpoint_address, require_supported, Lifecycle, SetupError, STATUS_OK};
use std::cell::Cell;
use std::rc::Rc;

#[test]
fn status_codes() {
    let cases = [
        (SetupError::InvalidHost, -1),
        (SetupError::NoDevice, -2),
        (SetupError::FormatUnavailable, -3),
        (SetupError::BindFailed, -4),
        (SetupError::ConnectFailed, -5),
        (SetupError::UnsupportedEncoding, -6),
        (SetupError::StreamBuildFailed, -7),
        (SetupError::PlayFailed, -8),
    ];
    for (e, code) in cases {
        assert_eq!(e.status_code(), code);
    }
    assert_eq!(STATUS_OK, 0);
}

#[test]
fn start_twice_keeps_one_session() {
    let mut l: Lifecycle<u32> = Lifecycle::new();
    let runs = Cell::new(0);
    let first = l.start(|| {
        runs.set(runs.get() + 1);
        Ok(7)
    });
    let second = l.start(|| {
        runs.set(runs.get() + 1);
        Ok(8)
    });
    assert_eq!((first, second), (0, 0));
    assert_eq!(runs.get(), 1);
    assert!(l.is_streaming() && l.has_session());
    assert_eq!(l.stop(), Some(7));
}

#[test]
fn stop_when_idle_is_noop() {
    let mut l: Lifecycle<u32> = Lifecycle::new();
    assert_eq!(l.stop(), None);
    assert!(!l.is_streaming());
    assert!(!l.has_session());
}

#[test]
fn flag_and_session_agree_through_transitions() {
    let mut l: Lifecycle<&str> = Lifecycle::new();
    assert_eq!(l.is_streaming(), l.has_session());
    assert_eq!(l.finish_start(Err(SetupError::PlayFailed)), -8);
    assert_eq!(l.is_streaming(), l.has_session());
    assert!(l.needs_setup());
    assert_eq!(l.finish_start(Ok("session")), 0);
    assert!(l.is_streaming() && l.has_session());
    assert!(!l.needs_setup());
    assert_eq!(l.finish_start(Err(SetupError::BindFailed)), 0);
    assert!(l.is_streaming() && l.has_session());
    assert_eq!(l.stop(), Some("session"));
    assert!(!l.is_streaming() && !l.has_session());
}

#[test]
fn no_device_start_returns_minus_two() {
    let mut l: Lifecycle<u32> = Lifecycle::new();
    assert_eq!(l.start(|| Err(SetupError::NoDevice)), -2);
    assert!(!l.is_streaming() && !l.has_session());
}

struct Resource(Rc<Cell<u32>>);

impl Drop for Resource {
    fn drop(&mut self) {
        self.0.set(self.0.get() - 1);
    }
}

#[test]
fn connect_failure_returns_minus_five_and_releases() {
    let live = Rc::new(Cell::new(0u32));
    let mut l: Lifecycle<Resource> = Lifecycle::new();
    let code = l.start(|| {
        live.set(live.get() + 1);
        let _acquired = Resource(live.clone());
        Err(SetupError::ConnectFailed)
    });
    assert_eq!(code, -5);
    assert_eq!(live.get(), 0);
    assert!(!l.is_streaming() && !l.has_session());
}

#[test]
fn endpoint_uses_fixed_port() {
    assert_eq!(endpoint_address("127.0.0.1"), "127.0.0.1:50051");
    assert_eq!(endpoint_address("receiver.local"), "receiver.local:50051");
    assert_eq!(endpoint_address(""), ":50051");
}

#[test]
fn unsupported_encoding_fails_setup() {
    assert_eq!(require_supported(SampleEncoding::Other), Err(SetupError::UnsupportedEncoding));
    assert_eq!(require_supported(SampleEncoding::Float32), Ok(4));
    assert_eq!(require_supported(SampleEncoding::SignedInt16), Ok(2));
    assert_eq!(require_supported(SampleEncoding::UnsignedInt16), Ok(2));
}
