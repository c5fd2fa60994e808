use std::sync::{Arc, Mutex};

use crossbeam_channel::{bounded, Sender, TrySendError};
use native_ime::handle::ImeHandle;
use native_ime::queue::{event_queue, received_event, send_event, EVENT_QUEUE_CAPACITY};
use native_ime::{
    BackendKind, ContentType, CursorRect, ImeBackend, ImeCapabilities, ImeEngine, ImeEvent,
    KeyState,
};

struct RecordingBackend {
    tx: Sender<ImeEvent>,
}

impl ImeBackend for RecordingBackend {
    fn backend_kind(&self) -> BackendKind {
        BackendKind::Fcitx5
    }

    fn capabilities(&self) -> ImeCapabilities {
        ImeCapabilities(
            ImeCapabilities::PREEDIT | ImeCapabilities::COMMIT | ImeCapabilities::FORWARD_KEY,
        )
    }

    fn focus_in(&self) {}

    fn focus_out(&self) {}

    fn set_cursor_rect(&self, _rect: CursorRect) {}

    fn set_surrounding_text(&self, _text: &str, _cursor: i32, _anchor: i32) {}

    fn process_key_event(&self, keyval: u32, _keycode: u32, state: u32, _is_release: bool) -> bool {
        if keyval == 0x0061 {
            self.tx
                .try_send(ImeEvent::ForwardKey {
                    keyval,
                    state: KeyState(state),
                })
                .is_ok()
        } else {
            false
        }
    }

    fn reset(&self) {}
}

/// A backend that writes down the calls it gets.
struct DiaryBackend {
    calls: Arc<Mutex<Vec<String>>>,
}

impl DiaryBackend {
    fn note(&self, call: String) {
        self.calls.lock().unwrap().push(call);
    }
}

impl ImeBackend for DiaryBackend {
    fn focus_in(&self) {
        self.note("focus_in".to_string());
    }

    fn focus_out(&self) {
        self.note("focus_out".to_string());
    }

    fn set_cursor_rect(&self, rect: CursorRect) {
        self.note(format!("rect {} {} {} {}", rect.x, rect.y, rect.width, rect.height));
    }

    fn set_surrounding_text(&self, text: &str, cursor: i32, anchor: i32) {
        self.note(format!("text {text} {cursor} {anchor}"));
    }

    fn set_content_type(&self, content_type: ContentType) {
        self.note(format!("content {content_type:?}"));
    }

    fn process_key_event(&self, keyval: u32, keycode: u32, state: u32, is_release: bool) -> bool {
        self.note(format!("key {keyval} {keycode} {state} {is_release}"));
        is_release
    }

    fn reset(&self) {
        self.note("reset".to_string());
    }
}

#[test]
fn poll_event_returns_none_when_queue_is_empty() {
    let (tx, rx) = bounded(1);
    let engine = ImeEngine::new(Box::new(RecordingBackend { tx }), rx);

    assert!(engine.poll_event().is_none());
}

#[test]
fn poll_event_returns_none_when_queue_is_disconnected() {
    let (tx, rx) = bounded(1);
    drop(tx);

    let (backend_tx, _backend_rx) = bounded(1);
    let engine = ImeEngine::new(Box::new(RecordingBackend { tx: backend_tx }), rx);

    assert!(engine.poll_event().is_none());
}

#[test]
fn process_key_event_can_enqueue_event_for_host_polling() {
    let (tx, rx) = bounded(1);
    let engine = ImeEngine::new(Box::new(RecordingBackend { tx }), rx);

    assert!(engine.process_key_event(0x0061, 0, KeyState::SHIFT, false));

    match engine.poll_event() {
        Some(ImeEvent::ForwardKey { keyval, state }) => {
            assert_eq!(keyval, 0x0061);
            assert_eq!(state.0, KeyState::SHIFT);
        }
        other => panic!("unexpected event: {other:?}"),
    }
}

#[test]
fn backend_diagnostics_are_forwarded_from_backend() {
    let (tx, rx) = bounded(1);
    let engine = ImeEngine::new(Box::new(RecordingBackend { tx }), rx);

    assert_eq!(engine.backend_kind(), BackendKind::Fcitx5);
    assert_eq!(
        engine.capabilities().bits(),
        (ImeCapabilities(ImeCapabilities::PREEDIT)
            | ImeCapabilities(ImeCapabilities::COMMIT)
            | ImeCapabilities(ImeCapabilities::FORWARD_KEY))
        .bits()
    );
}

#[test]
fn engine_hands_every_call_to_its_backend() {
    let calls = Arc::new(Mutex::new(Vec::new()));
    let (_tx, rx) = event_queue();
    let backend: Box<dyn ImeBackend> = Box::new(DiaryBackend {
        calls: calls.clone(),
    });
    let engine: ImeEngine<dyn ImeBackend> = ImeEngine::new(backend, rx);

    engine.focus_in();
    engine.set_cursor_rect(CursorRect {
        x: 1,
        y: 2,
        width: 3,
        height: 4,
    });
    engine.set_surrounding_text("ab", 2, 1);
    engine.set_content_type(ContentType::Url);
    assert!(!engine.process_key_event(5, 6, 7, false));
    assert!(engine.process_key_event(5, 6, 7, true));
    engine.reset();
    engine.focus_out();

    assert_eq!(
        *calls.lock().unwrap(),
        vec![
            "focus_in",
            "rect 1 2 3 4",
            "text ab 2 1",
            "content Url",
            "key 5 6 7 false",
            "key 5 6 7 true",
            "reset",
            "focus_out",
        ]
    );
}

#[test]
fn backend_that_says_nothing_is_unknown_and_can_do_nothing() {
    let calls = Arc::new(Mutex::new(Vec::new()));
    let (_tx, rx) = event_queue();
    let engine = ImeEngine::new(Box::new(DiaryBackend { calls }), rx);

    assert_eq!(engine.backend_kind(), BackendKind::Unknown);
    assert_eq!(engine.capabilities(), ImeCapabilities(ImeCapabilities::NONE));
    assert_eq!(engine.capabilities(), ImeCapabilities::default());
}

#[test]
fn events_are_polled_in_the_order_they_were_sent() {
    let calls = Arc::new(Mutex::new(Vec::new()));
    let (tx, rx) = event_queue();
    let engine = ImeEngine::new(Box::new(DiaryBackend { calls }), rx);

    assert!(send_event(
        &tx,
        ImeEvent::Commit {
            text: "one".to_string()
        }
    )
    .is_ok());
    assert!(send_event(&tx, ImeEvent::PreeditEnd).is_ok());

    assert!(matches!(engine.poll_event(), Some(ImeEvent::Commit { text }) if text == "one"));
    assert!(matches!(engine.poll_event(), Some(ImeEvent::PreeditEnd)));
    assert!(engine.poll_event().is_none());
}

#[test]
fn full_queue_drops_events() {
    let (tx, rx) = event_queue();
    assert_eq!(EVENT_QUEUE_CAPACITY, 64);
    assert_eq!(tx.capacity(), Some(64));
    assert_eq!(rx.capacity(), Some(64));
    for _ in 0..64 {
        assert!(send_event(&tx, ImeEvent::PreeditEnd).is_ok());
    }
    assert!(matches!(
        send_event(&tx, ImeEvent::PreeditEnd),
        Err(TrySendError::Full(ImeEvent::PreeditEnd))
    ));
    assert_eq!(rx.len(), 64);
    assert!(received_event(rx.try_recv()).is_some());
    assert!(send_event(&tx, ImeEvent::PreeditEnd).is_ok());
}

#[test]
fn queue_without_engine_drops_events() {
    let (tx, rx) = event_queue();
    drop(rx);
    assert!(matches!(
        send_event(&tx, ImeEvent::PreeditEnd),
        Err(TrySendError::Disconnected(ImeEvent::PreeditEnd))
    ));
}

#[test]
fn handle_stands_on_the_backend_that_was_found() {
    let (tx, rx) = event_queue();
    let handle = ImeHandle::create(Some(Box::new(RecordingBackend { tx })), rx);
    let handle = match handle {
        Some(handle) => handle,
        None => panic!("a backend was given"),
    };

    assert_eq!(handle.backend_kind(), BackendKind::Fcitx5);
    assert_eq!(handle.capabilities().bits(), 7);
    handle.focus_in();
    handle.set_cursor_rect(CursorRect::default());
    handle.set_surrounding_text("", 0, 0);
    handle.set_content_type(ContentType::default());
    assert!(handle.process_key_event(0x0061, 0, 0, false));
    assert!(matches!(
        handle.poll_event(),
        Some(ImeEvent::ForwardKey { keyval: 0x0061, .. })
    ));
    handle.reset();
    handle.focus_out();

    let (_tx, rx) = event_queue();
    assert!(ImeHandle::<RecordingBackend>::create(None, rx).is_none());
}

#[test]
fn kinds_have_their_numbers() {
    assert_eq!(BackendKind::Unknown.as_abi(), 0);
    assert_eq!(BackendKind::Fcitx5.as_abi(), 1);
    assert_eq!(BackendKind::Fcitx4.as_abi(), 2);
    assert_eq!(BackendKind::IBus.as_abi(), 3);
}

#[test]
fn capability_bits_have_their_places() {
    assert_eq!(ImeCapabilities::PREEDIT, 1 << 0);
    assert_eq!(ImeCapabilities::COMMIT, 1 << 1);
    assert_eq!(ImeCapabilities::FORWARD_KEY, 1 << 2);
    assert_eq!(ImeCapabilities::DELETE_SURROUNDING_TEXT, 1 << 3);
    assert_eq!(ImeCapabilities::SURROUNDING_TEXT, 1 << 4);
    assert_eq!(ImeCapabilities::CONTENT_TYPE, 1 << 5);
    let both = ImeCapabilities(ImeCapabilities::COMMIT) | ImeCapabilities(0x20);
    assert_eq!(both.bits(), 0x22);
}

#[test]
fn key_state_bits_have_their_places() {
    assert_eq!(KeyState::SHIFT, 1 << 0);
    assert_eq!(KeyState::LOCK, 1 << 1);
    assert_eq!(KeyState::CTRL, 1 << 2);
    assert_eq!(KeyState::ALT, 1 << 3);
    assert_eq!(KeyState::RELEASE, 1 << 30);
    assert_eq!(KeyState::default().0, 0);
}
