use std::sync::atomic::{AtomicU32, AtomicUsize, Ordering};
use std::sync::{Arc, Mutex};

use jack::client::callbacks::{
    buffer_size, clear_callbacks, client_registration, flag, freewheel, graph_order, latency,
    latency_type, port_connect, port_registration, port_rename, process, register_callbacks,
    sample_rate, shutdown, shutdown_status, shutdown_text, thread_init_callback, wired_callbacks,
    xrun, CallbackKind, Undelivered, UNREADABLE_REASON,
};
use jack::client::client_status::{FAILURE, SERVER_ERROR};
use jack::{
    ClientStatus, HandlerState, JackClient, JackControl, JackErr, JackHandler, LatencyType,
    ProcessHandler, ProcessScope, WeakClient,
};

/// Writes down every notification it gets.
#[derive(Default)]
struct Recorder {
    log: Mutex<Vec<String>>,
    answer_quit: bool,
}

impl Recorder {
    fn quitting() -> Recorder {
        Recorder { log: Mutex::new(Vec::new()), answer_quit: true }
    }

    fn note(&self, line: String) {
        self.log.lock().unwrap().push(line);
    }

    fn answer(&self) -> JackControl {
        if self.answer_quit {
            JackControl::Quit
        } else {
            JackControl::Continue
        }
    }
}

fn lines(state: &HandlerState<Recorder>) -> Vec<String> {
    state.handler.log.lock().unwrap().clone()
}

impl JackHandler for Recorder {
    fn thread_init(&self, client: &WeakClient) {
        self.note(format!("thread_init {}", client.as_ptr()));
    }
    fn shutdown(&self, status: ClientStatus, reason: &str) {
        self.note(format!("shutdown {} {}", status.bits(), reason));
    }
    fn process(&self, client: &WeakClient, scope: &ProcessScope) -> JackControl {
        self.note(format!("process {} {} {}", client.as_ptr(), scope.client_ptr(), scope.n_frames()));
        self.answer()
    }
    fn freewheel(&self, _: &WeakClient, enabled: bool) {
        self.note(format!("freewheel {}", enabled));
    }
    fn buffer_size(&self, _: &WeakClient, size: u32) -> JackControl {
        self.note(format!("buffer_size {}", size));
        self.answer()
    }
    fn sample_rate(&self, _: &WeakClient, srate: u32) -> JackControl {
        self.note(format!("sample_rate {}", srate));
        self.answer()
    }
    fn client_registration(&self, _: &WeakClient, name: &str, registered: bool) {
        self.note(format!("client_registration {} {}", name, registered));
    }
    fn port_registration(&self, _: &WeakClient, port_id: u32, registered: bool) {
        self.note(format!("port_registration {} {}", port_id, registered));
    }
    fn port_rename(&self, _: &WeakClient, port_id: u32, old: &str, new: &str) -> JackControl {
        self.note(format!("port_rename {} {} {}", port_id, old, new));
        self.answer()
    }
    fn ports_connected(&self, _: &WeakClient, a: u32, b: u32, connected: bool) {
        self.note(format!("ports_connected {} {} {}", a, b, connected));
    }
    fn graph_reorder(&self, _: &WeakClient) -> JackControl {
        self.note(format!("graph_reorder"));
        self.answer()
    }
    fn xrun(&self, _: &WeakClient) -> JackControl {
        self.note(format!("xrun"));
        self.answer()
    }
    fn latency(&self, _: &WeakClient, mode: LatencyType) {
        self.note(format!("latency {:?}", mode));
    }
}

/// Stops at the fifth cycle.
struct StopsAtFive {
    cycles: AtomicUsize,
}

impl JackHandler for StopsAtFive {
    fn process(&self, _: &WeakClient, _: &ProcessScope) -> JackControl {
        let cycle = self.cycles.fetch_add(1, Ordering::SeqCst) + 1;
        if cycle == 5 {
            JackControl::Quit
        } else {
            JackControl::Continue
        }
    }
}

/// Overrides nothing.
struct Silent;

impl JackHandler for Silent {}

#[test]
fn process_stops_the_engine_at_cycle_five() {
    let state = HandlerState::new(StopsAtFive { cycles: AtomicUsize::new(0) }, 0x1000);
    // The engine calls once per cycle for as long as it is answered with zero.
    let mut calls = 0;
    let mut codes = Vec::new();
    while calls < 100 {
        calls += 1;
        let code = process(&state, 256);
        codes.push(code);
        if code != 0 {
            break;
        }
    }
    assert_eq!(calls, 5);
    assert_eq!(codes, vec![0, 0, 0, 0, -1]);
    assert_eq!(state.handler.cycles.load(Ordering::SeqCst), 5);
}

#[test]
fn control_codes() {
    assert_eq!(JackControl::Continue.to_ffi(), 0);
    assert_eq!(JackControl::Quit.to_ffi(), -1);
    assert_ne!(JackControl::Quit.to_ffi(), 0);
}

#[test]
fn process_hands_the_frame_count_on() {
    let state = HandlerState::new(Recorder::default(), 77);
    assert_eq!(process(&state, 128), 0);
    assert_eq!(process(&state, 0), 0);
    assert_eq!(process(&state, u32::MAX), 0);
    assert_eq!(
        lines(&state),
        vec!["process 77 77 128", "process 77 77 0", "process 77 77 4294967295"]
    );
}

#[test]
fn vetoing_callbacks_return_the_stop_code() {
    let state = HandlerState::new(Recorder::quitting(), 1);
    assert_eq!(process(&state, 64), -1);
    assert_eq!(buffer_size(&state, 1024), -1);
    assert_eq!(sample_rate(&state, 48000), -1);
    assert_eq!(graph_order(&state), -1);
    assert_eq!(xrun(&state), -1);
    assert_eq!(port_rename(&state, 3, b"old", b"new"), Ok(-1));
    assert_eq!(
        lines(&state),
        vec![
            "process 1 1 64",
            "buffer_size 1024",
            "sample_rate 48000",
            "graph_reorder",
            "xrun",
            "port_rename 3 old new"
        ]
    );
}

#[test]
fn continuing_callbacks_return_zero() {
    let state = HandlerState::new(Recorder::default(), 1);
    assert_eq!(buffer_size(&state, 1024), 0);
    assert_eq!(sample_rate(&state, 44100), 0);
    assert_eq!(graph_order(&state), 0);
    assert_eq!(xrun(&state), 0);
    assert_eq!(port_rename(&state, 3, b"old", b"new"), Ok(0));
}

#[test]
fn default_handler_lets_the_engine_go_on() {
    let state = HandlerState::new(Silent, 1);
    thread_init_callback(&state);
    shutdown(&state, 0, b"bye");
    assert_eq!(process(&state, 64), 0);
    freewheel(&state, 1);
    assert_eq!(buffer_size(&state, 64), 0);
    assert_eq!(sample_rate(&state, 48000), 0);
    assert_eq!(client_registration(&state, b"other", 1), Ok(()));
    port_registration(&state, 1, 1);
    assert_eq!(port_rename(&state, 1, b"a", b"b"), Ok(0));
    port_connect(&state, 1, 2, 1);
    assert_eq!(graph_order(&state), 0);
    assert_eq!(xrun(&state), 0);
    assert_eq!(latency(&state, 0), Ok(()));
}

#[test]
fn flags_are_decoded_from_integers() {
    assert!(!flag(0));
    assert!(flag(1));
    assert!(flag(-1));
    assert!(flag(2));
    assert!(flag(i32::MIN));
    let state = HandlerState::new(Recorder::default(), 1);
    freewheel(&state, 0);
    freewheel(&state, 1);
    freewheel(&state, 7);
    port_registration(&state, 9, 0);
    port_registration(&state, 9, 1);
    port_connect(&state, 4, 5, 0);
    port_connect(&state, 4, 5, -3);
    assert_eq!(
        lines(&state),
        vec![
            "freewheel false",
            "freewheel true",
            "freewheel true",
            "port_registration 9 false",
            "port_registration 9 true",
            "ports_connected 4 5 false",
            "ports_connected 4 5 true"
        ]
    );
}

#[test]
fn thread_init_hands_the_client_on() {
    let state = HandlerState::new(Recorder::default(), 4242);
    thread_init_callback(&state);
    assert_eq!(lines(&state), vec!["thread_init 4242"]);
}

#[test]
fn shutdown_decodes_status_and_reason() {
    let state = HandlerState::new(Recorder::default(), 1);
    shutdown(&state, FAILURE | SERVER_ERROR, b"server went away");
    assert_eq!(lines(&state), vec!["shutdown 33 server went away"]);
}

#[test]
fn shutdown_with_unreadable_reason_uses_the_placeholder() {
    let state = HandlerState::new(Recorder::default(), 1);
    shutdown(&state, FAILURE, &[0xc3, 0x28]);
    assert_eq!(lines(&state), vec!["shutdown 1 Failed to interpret error."]);
    assert_eq!(shutdown_text(&[0xff]), "Failed to interpret error.");
    assert_eq!(shutdown_text(&[0xff]), UNREADABLE_REASON);
    assert_eq!(shutdown_text(b"ok"), "ok");
    assert_eq!(shutdown_text(b""), "");
}

#[test]
fn shutdown_with_unknown_status_bits_gets_the_empty_status() {
    let state = HandlerState::new(Recorder::default(), 1);
    shutdown(&state, 0x2000, b"why");
    shutdown(&state, 0x2001, b"why");
    assert_eq!(lines(&state), vec!["shutdown 0 why", "shutdown 0 why"]);
    assert_eq!(shutdown_status(0x2001), ClientStatus::empty());
    assert_eq!(shutdown_status(0x1fff), ClientStatus::all());
    assert_eq!(shutdown_status(4).bits(), 4);
}

#[test]
fn client_registration_decodes_the_name() {
    let state = HandlerState::new(Recorder::default(), 1);
    assert_eq!(client_registration(&state, b"synth", 1), Ok(()));
    assert_eq!(client_registration(&state, "caf\u{e9}".as_bytes(), 0), Ok(()));
    assert_eq!(lines(&state), vec!["client_registration synth true", "client_registration caf\u{e9} false"]);
}

#[test]
fn client_registration_with_a_name_that_is_no_text_is_not_delivered() {
    let state = HandlerState::new(Recorder::default(), 1);
    assert_eq!(client_registration(&state, &[0x73, 0xff, 0x74], 1), Err(Undelivered::NotText));
    assert!(lines(&state).is_empty());
}

#[test]
fn port_rename_with_a_name_that_is_no_text_is_not_delivered() {
    let state = HandlerState::new(Recorder::quitting(), 1);
    assert_eq!(port_rename(&state, 1, &[0xff], b"new"), Err(Undelivered::NotText));
    assert_eq!(port_rename(&state, 1, b"old", &[0xc0]), Err(Undelivered::NotText));
    assert_eq!(port_rename(&state, 1, &[0x80], &[0x80]), Err(Undelivered::NotText));
    assert!(lines(&state).is_empty());
}

#[test]
fn latency_modes_are_decoded() {
    assert_eq!(latency_type(jack_sys::JackCaptureLatency), Some(LatencyType::Capture));
    assert_eq!(latency_type(jack_sys::JackPlaybackLatency), Some(LatencyType::Playback));
    assert_eq!(latency_type(0), Some(LatencyType::Capture));
    assert_eq!(latency_type(1), Some(LatencyType::Playback));
    assert_eq!(latency_type(2), None);
    assert_eq!(latency_type(u32::MAX), None);
}

#[test]
fn latency_is_delivered_for_the_two_directions_only() {
    let state = HandlerState::new(Recorder::default(), 1);
    assert_eq!(latency(&state, 0), Ok(()));
    assert_eq!(latency(&state, 1), Ok(()));
    assert_eq!(latency(&state, 2), Err(Undelivered::UnknownLatencyMode));
    assert_eq!(lines(&state), vec!["latency Capture", "latency Playback"]);
}

#[test]
fn registration_succeeds_when_every_callback_is_accepted() {
    assert_eq!(register_callbacks(&[0; 12]), Ok(()));
    assert_eq!(register_callbacks(&[]), Ok(()));
}

#[test]
fn registration_fails_when_one_callback_is_refused() {
    let mut statuses = [0; 12];
    statuses[11] = -1;
    assert_eq!(register_callbacks(&statuses), Err(JackErr::CallbackRegistrationError));
    assert_eq!(register_callbacks(&[1]), Err(JackErr::CallbackRegistrationError));
    assert_eq!(register_callbacks(&[0, 0, 5, 0]), Err(JackErr::CallbackRegistrationError));
}

#[test]
fn clearing_maps_status() {
    assert_eq!(clear_callbacks(&[]), Ok(()));
    assert_eq!(clear_callbacks(&[0, 0]), Ok(()));
    assert_eq!(clear_callbacks(&[0, -1]), Err(JackErr::CallbackDeregistrationError));
}

#[test]
fn wired_callbacks_leave_port_rename_out() {
    let kinds = wired_callbacks();
    assert_eq!(
        kinds,
        vec![
            CallbackKind::ThreadInit,
            CallbackKind::Shutdown,
            CallbackKind::Process,
            CallbackKind::Freewheel,
            CallbackKind::BufferSize,
            CallbackKind::SampleRate,
            CallbackKind::ClientRegistration,
            CallbackKind::PortRegistration,
            CallbackKind::PortConnect,
            CallbackKind::GraphOrder,
            CallbackKind::Xrun,
            CallbackKind::Latency,
        ]
    );
    assert!(!kinds.contains(&CallbackKind::PortRename));
}

#[test]
fn process_handler_calls_the_function_every_cycle() {
    let frames = Arc::new(AtomicU32::new(0));
    let seen = frames.clone();
    let handler = ProcessHandler::new(move |client: &WeakClient, scope: &ProcessScope| {
        seen.fetch_add(scope.n_frames(), Ordering::SeqCst);
        if client.as_ptr() == scope.client_ptr() && scope.n_frames() < 1000 {
            JackControl::Continue
        } else {
            JackControl::Quit
        }
    });
    let state = HandlerState::new(handler, 9);
    assert_eq!(process(&state, 100), 0);
    assert_eq!(process(&state, 200), 0);
    assert_eq!(process(&state, 1000), -1);
    assert_eq!(frames.load(Ordering::SeqCst), 1300);
    // Everything but `process` keeps its default.
    assert_eq!(xrun(&state), 0);
    assert_eq!(buffer_size(&state, 64), 0);
}

#[test]
fn handler_state_holds_handler_and_client() {
    let state = HandlerState::new(Recorder::quitting(), 31);
    assert_eq!(state.client.as_ptr(), 31);
    assert!(state.handler.answer_quit);
}
