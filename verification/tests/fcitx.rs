use native_ime::backend::BackendCall;
use native_ime::convert::{
    clamp_offset, deletion_event, deletion_fits, encode_release, join_segments, preedit_event,
    KeyReply, KEY_REPLY_TIMEOUT_MS,
};
use native_ime::fcitx4::{
    client_pid, delete_surrounding_event, fcitx4_capabilities, formatted_preedit_text,
    forward_key_event, input_context_path, key_event_type, Fcitx4Listening, Fcitx4Request,
    Fcitx4Signal, Fcitx4SignalKind, Fcitx4Step,
};
use native_ime::fcitx5::{
    fcitx5_capabilities, Fcitx5Listening, Fcitx5Request, Fcitx5Signal, Fcitx5SignalKind, Fcitx5Step,
};
use native_ime::{fcitx4, fcitx5};
use native_ime::{ContentType, CursorRect, ImeCapabilities, ImeEvent, KeyState};

#[test]
fn builds_input_context_path_from_icid() {
    assert_eq!(input_context_path(35), "/inputcontext_35");
}

#[test]
fn maps_key_release_to_fcitx_event_type() {
    assert_eq!(key_event_type(false), 0);
    assert_eq!(key_event_type(true), 1);
}

#[test]
fn joins_formatted_preedit_segments() {
    let segments = vec![("ni".to_owned(), 0), ("hao".to_owned(), 1)];
    assert_eq!(formatted_preedit_text(&segments), "nihao");
}

#[test]
fn marks_forward_key_release_in_key_state() {
    let event = forward_key_event(0xff0d, KeyState::SHIFT, 1);
    match event {
        ImeEvent::ForwardKey { keyval, state } => {
            assert_eq!(keyval, 0xff0d);
            assert_eq!(state.0, KeyState::SHIFT | KeyState::RELEASE);
        }
        other => panic!("unexpected event: {other:?}"),
    }
}

#[test]
fn converts_delete_surrounding_text_to_before_after_counts() {
    let event = delete_surrounding_event(-2, 3);
    match event {
        ImeEvent::DeleteSurroundingText { before, after } => {
            assert_eq!(before, 2);
            assert_eq!(after, 1);
        }
        other => panic!("unexpected event: {other:?}"),
    }
}

#[test]
fn context_paths_hold_all_their_digits() {
    assert_eq!(input_context_path(0), "/inputcontext_0");
    assert_eq!(input_context_path(i32::MAX), "/inputcontext_2147483647");
    assert_eq!(input_context_path(-7), "/inputcontext_-7");
}

#[test]
fn process_ids_are_capped() {
    assert_eq!(client_pid(1234), 1234);
    assert_eq!(client_pid(u32::MAX), i32::MAX);
}

#[test]
fn keys_wait_a_fifth_of_a_second() {
    assert_eq!(KEY_REPLY_TIMEOUT_MS, 200);
}

#[test]
fn segments_may_be_missing() {
    assert_eq!(join_segments(&[]), "");
    assert_eq!(join_segments(&[("".to_owned(), 3), ("候".to_owned(), 0)]), "候");
}

#[test]
fn empty_preedit_ends_the_composition() {
    assert!(matches!(preedit_event(String::new(), 3), ImeEvent::PreeditEnd));
    assert!(matches!(
        preedit_event("a".to_owned(), 3),
        ImeEvent::Preedit { text, cursor_begin: 3, cursor_end: 3 } if text == "a"
    ));
}

#[test]
fn release_flag_is_put_in_and_read_back() {
    let state = encode_release(KeyState::CTRL, true);
    assert_eq!(state & KeyState::RELEASE, KeyState::RELEASE);
    assert_eq!(state & !KeyState::RELEASE, KeyState::CTRL);
    assert_eq!(encode_release(KeyState::CTRL, false), KeyState::CTRL);
}

#[test]
fn negative_offsets_count_as_zero() {
    assert_eq!(clamp_offset(-1), 0);
    assert_eq!(clamp_offset(i32::MIN), 0);
    assert_eq!(clamp_offset(i32::MAX), 0x7fff_ffff);
}

#[test]
fn deletions_are_counted_from_the_cursor() {
    let cases = [
        (0, 0, 0, 0),
        (-2, 2, 2, 0),
        (-5, 2, 5, 0),
        (0, 4, 0, 4),
        (3, 4, 0, 7),
        (0, 0x8000_0000, 0, 0x8000_0000),
        (0, u32::MAX, 0, u32::MAX),
        (-2, u32::MAX, 2, u32::MAX - 2),
        (1, 0x7fff_ffff, 0, 0x8000_0000),
        (i32::MIN, 0, 0x8000_0000, 0),
    ];
    for (offset, count, expected_before, expected_after) in cases {
        assert!(deletion_fits(offset, count));
        match deletion_event(offset, count) {
            ImeEvent::DeleteSurroundingText { before, after } => {
                assert_eq!((before, after), (expected_before, expected_after));
            }
            other => panic!("unexpected event: {other:?}"),
        }
    }
}

#[test]
fn deletions_that_do_not_fit_are_told() {
    assert!(!deletion_fits(1, u32::MAX));
    assert!(!deletion_fits(5, u32::MAX));
    assert!(!deletion_fits(i32::MAX, 0x8000_0001));
    assert!(deletion_fits(i32::MAX, 0x8000_0000));
}

#[test]
fn fcitx4_deletions_are_computed_in_32_bits() {
    let cases = [
        (0, 0, 0, 0),
        (-5, 2, 5, 0),
        (3, 4, 0, 7),
        (0, u32::MAX, 0, 0),
        (5, u32::MAX, 0, 4),
        (0, 0x8000_0000, 0, 0),
    ];
    for (offset, nchar, expected_before, expected_after) in cases {
        assert!(fcitx4::deletion_fits(offset, nchar));
        match delete_surrounding_event(offset, nchar) {
            ImeEvent::DeleteSurroundingText { before, after } => {
                assert_eq!((before, after), (expected_before, expected_after));
            }
            other => panic!("unexpected event: {other:?}"),
        }
    }
    assert!(!fcitx4::deletion_fits(i32::MIN, 0));
    assert!(!fcitx4::deletion_fits(1, 0x7fff_ffff));
    assert!(!fcitx4::deletion_fits(-2, 0x8000_0000));
    assert!(fcitx4::deletion_fits(0, 0x7fff_ffff));
}

#[test]
fn fcitx4_declares_its_capabilities() {
    assert_eq!(
        fcitx4_capabilities().bits(),
        ImeCapabilities::PREEDIT
            | ImeCapabilities::COMMIT
            | ImeCapabilities::FORWARD_KEY
            | ImeCapabilities::DELETE_SURROUNDING_TEXT
            | ImeCapabilities::SURROUNDING_TEXT
    );
}

#[test]
fn fcitx5_declares_its_capabilities() {
    assert_eq!(
        fcitx5_capabilities().bits(),
        ImeCapabilities::PREEDIT
            | ImeCapabilities::COMMIT
            | ImeCapabilities::FORWARD_KEY
            | ImeCapabilities::SURROUNDING_TEXT
    );
}

#[test]
fn fcitx4_connects_when_everything_is_granted() {
    let step = fcitx4::connect_next(Fcitx4Step::OpenSession, 77, Ok(0));
    assert!(matches!(step, Fcitx4Step::BindInputMethod));
    let step = fcitx4::connect_next(step, 77, Ok(0));
    assert!(matches!(&step, Fcitx4Step::CreateContext { program, pid: 77 } if program == "native-ime"));
    let step = fcitx4::connect_next(step, 77, Ok(35));
    assert!(matches!(&step, Fcitx4Step::BindContext { path } if path == "/inputcontext_35"));
    let step = fcitx4::connect_next(step, 77, Ok(0));
    assert!(matches!(step, Fcitx4Step::SetCapacity { flags: 0x12 }));
    let step = fcitx4::connect_next(step, 77, Ok(0));
    assert!(matches!(step, Fcitx4Step::StartListening));
    let step = fcitx4::connect_next(step, 77, Ok(0));
    assert!(matches!(step, Fcitx4Step::Connected));
    let step = fcitx4::connect_next(step, 77, Err("late".to_owned()));
    assert!(matches!(step, Fcitx4Step::Connected));
}

#[test]
fn fcitx4_says_what_failed() {
    let failed = |step: Fcitx4Step, outcome: Result<i32, &str>| -> (String, Option<String>) {
        match fcitx4::connect_next(step, 1, outcome.map_err(|e| e.to_owned())) {
            Fcitx4Step::Failed { message, cause } => (message, cause),
            _ => panic!("the step should fail"),
        }
    };
    let told = |message: &str, cause: Option<&str>| {
        (message.to_owned(), cause.map(|c| c.to_owned()))
    };
    let create = || Fcitx4Step::CreateContext {
        program: "native-ime".to_owned(),
        pid: 1,
    };
    assert_eq!(failed(Fcitx4Step::OpenSession, Err("no bus")), told("no bus", None));
    assert_eq!(
        failed(Fcitx4Step::BindInputMethod, Err("x")),
        told("Fcitx 4 not available on D-Bus", Some("x"))
    );
    assert_eq!(
        failed(create(), Err("no method")),
        told("Fcitx 4 CreateICv3 failed", Some("no method"))
    );
    assert_eq!(
        failed(create(), Ok(-1)),
        told("Fcitx 4 returned invalid input context id: -1", None)
    );
    let bind = Fcitx4Step::BindContext {
        path: "/inputcontext_1".to_owned(),
    };
    assert_eq!(failed(bind, Err("gone")), told("gone", None));
    assert_eq!(
        failed(Fcitx4Step::SetCapacity { flags: 0x12 }, Err("refused")),
        told("Fcitx 4 SetCapacity failed", Some("refused"))
    );
    let over = Fcitx4Step::Failed {
        message: "first".to_owned(),
        cause: Some("second".to_owned()),
    };
    assert_eq!(failed(over, Ok(0)), told("first", Some("second")));
}

#[test]
fn fcitx4_stays_connected_without_its_signals() {
    let step = fcitx4::connect_next(Fcitx4Step::StartListening, 1, Err("x".to_owned()));
    assert!(matches!(step, Fcitx4Step::Connected));
}

#[test]
fn fcitx4_subscribes_in_order() {
    let mut seen = Vec::new();
    let mut state = fcitx4::subscribe_first();
    while let Fcitx4Listening::Subscribe(kind) = state {
        seen.push(kind);
        state = fcitx4::subscribe_next(kind, true);
    }
    assert!(matches!(state, Fcitx4Listening::Listening));
    assert_eq!(
        seen,
        vec![
            Fcitx4SignalKind::CommitString,
            Fcitx4SignalKind::UpdateFormattedPreedit,
            Fcitx4SignalKind::ForwardKey,
            Fcitx4SignalKind::DeleteSurroundingText,
        ]
    );
    assert!(matches!(
        fcitx4::subscribe_next(Fcitx4SignalKind::ForwardKey, false),
        Fcitx4Listening::Abandoned
    ));
}

#[test]
fn fcitx4_signals_become_events() {
    assert!(matches!(
        fcitx4::signal_event(Fcitx4Signal::CommitString { text: "好".to_owned() }),
        ImeEvent::Commit { text } if text == "好"
    ));
    assert!(matches!(
        fcitx4::signal_event(Fcitx4Signal::UpdateFormattedPreedit {
            segments: vec![("ni".to_owned(), 0), ("hao".to_owned(), 8)],
            cursor_pos: 5,
        }),
        ImeEvent::Preedit { text, cursor_begin: 5, cursor_end: 5 } if text == "nihao"
    ));
    assert!(matches!(
        fcitx4::signal_event(Fcitx4Signal::UpdateFormattedPreedit {
            segments: vec![],
            cursor_pos: 0,
        }),
        ImeEvent::PreeditEnd
    ));
    assert!(matches!(
        fcitx4::signal_event(Fcitx4Signal::ForwardKey { keyval: 9, state: 4, event_type: 2 }),
        ImeEvent::ForwardKey { keyval: 9, state: KeyState(4) }
    ));
    assert!(matches!(
        fcitx4::signal_event(Fcitx4Signal::DeleteSurroundingText { offset: -1, nchar: 1 }),
        ImeEvent::DeleteSurroundingText { before: 1, after: 0 }
    ));
}

#[test]
fn fcitx4_requests_follow_the_calls() {
    assert!(matches!(fcitx4::request(BackendCall::FocusIn), Some(Fcitx4Request::FocusIn)));
    assert!(matches!(fcitx4::request(BackendCall::FocusOut), Some(Fcitx4Request::FocusOut)));
    assert!(matches!(fcitx4::request(BackendCall::Reset), Some(Fcitx4Request::Reset)));
    let rect = CursorRect { x: 1, y: 2, width: 3, height: 4 };
    assert!(matches!(
        fcitx4::request(BackendCall::SetCursorRect { rect }),
        Some(Fcitx4Request::SetCursorRect { x: 1, y: 2, w: 3, h: 4 })
    ));
    assert!(matches!(
        fcitx4::request(BackendCall::SetSurroundingText { text: "t".to_owned(), cursor: -1, anchor: 1 }),
        Some(Fcitx4Request::SetSurroundingText { text, cursor: 0, anchor: 1 }) if text == "t"
    ));
    assert!(fcitx4::request(BackendCall::SetContentType {
        content_type: ContentType::Password
    })
    .is_none());
    assert!(matches!(
        fcitx4::request(BackendCall::ProcessKeyEvent { keyval: 1, keycode: 2, state: 3, is_release: true }),
        Some(Fcitx4Request::ProcessKeyEvent { keyval: 1, keycode: 2, state: 3, event_type: 1, time: 0 })
    ));
}

#[test]
fn fcitx4_takes_a_key_by_any_answer_but_zero() {
    assert!(fcitx4::key_handled(KeyReply::Answered(1)));
    assert!(fcitx4::key_handled(KeyReply::Answered(-1)));
    assert!(!fcitx4::key_handled(KeyReply::Answered(0)));
    assert!(!fcitx4::key_handled(KeyReply::Failed));
    assert!(!fcitx4::key_handled(KeyReply::TimedOut));
}

#[test]
fn fcitx5_connects_when_everything_is_granted() {
    let ok = || Ok(String::new());
    let step = fcitx5::connect_next(Fcitx5Step::OpenSession, ok());
    assert!(matches!(step, Fcitx5Step::BindInputMethod));
    let step = fcitx5::connect_next(step, ok());
    assert!(matches!(step, Fcitx5Step::QueryVersion));
    let step = fcitx5::connect_next(step, Ok("5.1".to_owned()));
    assert!(matches!(
        &step,
        Fcitx5Step::CreateContext { key, value } if key == "program" && value == "native-ime"
    ));
    let step = fcitx5::connect_next(step, Ok("/ic/3".to_owned()));
    assert!(matches!(&step, Fcitx5Step::BindContext { path } if path == "/ic/3"));
    let step = fcitx5::connect_next(step, ok());
    assert!(matches!(step, Fcitx5Step::SetCapability { flags: 3 }));
    let step = fcitx5::connect_next(step, ok());
    assert!(matches!(step, Fcitx5Step::StartListening));
    let step = fcitx5::connect_next(step, ok());
    assert!(matches!(step, Fcitx5Step::Connected));
}

#[test]
fn fcitx5_says_what_failed() {
    let failed = |step: Fcitx5Step| -> (String, Option<String>) {
        match fcitx5::connect_next(step, Err("error".to_owned())) {
            Fcitx5Step::Failed { message, cause } => (message, cause),
            _ => panic!("the step should fail"),
        }
    };
    let error = || ("error".to_owned(), None);
    let behind = |message: &str| (message.to_owned(), Some("error".to_owned()));
    assert_eq!(failed(Fcitx5Step::OpenSession), error());
    assert_eq!(
        failed(Fcitx5Step::BindInputMethod),
        behind("Fcitx5 not available on D-Bus")
    );
    assert_eq!(
        failed(Fcitx5Step::QueryVersion),
        behind("Fcitx5 InputMethod not responding")
    );
    assert_eq!(
        failed(Fcitx5Step::CreateContext {
            key: "program".to_owned(),
            value: "native-ime".to_owned()
        }),
        error()
    );
    assert_eq!(
        failed(Fcitx5Step::BindContext {
            path: "/ic/3".to_owned()
        }),
        error()
    );
    assert_eq!(failed(Fcitx5Step::SetCapability { flags: 3 }), error());
}

#[test]
fn fcitx5_subscribes_in_order() {
    let mut seen = Vec::new();
    let mut state = fcitx5::subscribe_first();
    while let Fcitx5Listening::Subscribe(kind) = state {
        seen.push(kind);
        state = fcitx5::subscribe_next(kind, true);
    }
    assert!(matches!(state, Fcitx5Listening::Listening));
    assert_eq!(
        seen,
        vec![
            Fcitx5SignalKind::CommitString,
            Fcitx5SignalKind::UpdatePreedit,
            Fcitx5SignalKind::ForwardKey,
        ]
    );
    assert!(matches!(
        fcitx5::subscribe_next(Fcitx5SignalKind::CommitString, false),
        Fcitx5Listening::Abandoned
    ));
}

#[test]
fn fcitx5_signals_become_events() {
    assert!(matches!(
        fcitx5::signal_event(Fcitx5Signal::CommitString { text: "好".to_owned() }),
        ImeEvent::Commit { text } if text == "好"
    ));
    assert!(matches!(
        fcitx5::signal_event(Fcitx5Signal::UpdatePreedit {
            texts: vec![("ni".to_owned(), 0), ("hao".to_owned(), 8)],
            cursor_pos: 2,
        }),
        ImeEvent::Preedit { text, cursor_begin: 2, cursor_end: 2 } if text == "nihao"
    ));
    assert!(matches!(
        fcitx5::signal_event(Fcitx5Signal::UpdatePreedit { texts: vec![], cursor_pos: 2 }),
        ImeEvent::PreeditEnd
    ));
    match fcitx5::signal_event(Fcitx5Signal::ForwardKey {
        keyval: 0xff0d,
        state: KeyState::ALT,
        is_release: true,
    }) {
        ImeEvent::ForwardKey { keyval, state } => {
            assert_eq!(keyval, 0xff0d);
            assert_eq!(state.0, KeyState::ALT | KeyState::RELEASE);
        }
        other => panic!("unexpected event: {other:?}"),
    }
}

#[test]
fn fcitx5_requests_follow_the_calls() {
    assert!(matches!(fcitx5::request(BackendCall::FocusIn), Some(Fcitx5Request::FocusIn)));
    assert!(matches!(fcitx5::request(BackendCall::FocusOut), Some(Fcitx5Request::FocusOut)));
    assert!(matches!(fcitx5::request(BackendCall::Reset), Some(Fcitx5Request::Reset)));
    let rect = CursorRect { x: 1, y: 2, width: 3, height: 4 };
    assert!(matches!(
        fcitx5::request(BackendCall::SetCursorRect { rect }),
        Some(Fcitx5Request::SetCursorRect { x: 1, y: 2, w: 3, h: 4 })
    ));
    assert!(matches!(
        fcitx5::request(BackendCall::SetSurroundingText { text: "t".to_owned(), cursor: 2, anchor: -9 }),
        Some(Fcitx5Request::SetSurroundingText { text, cursor: 2, anchor: 0 }) if text == "t"
    ));
    assert!(fcitx5::request(BackendCall::SetContentType {
        content_type: ContentType::Normal
    })
    .is_none());
    assert!(matches!(
        fcitx5::request(BackendCall::ProcessKeyEvent { keyval: 1, keycode: 2, state: 3, is_release: true }),
        Some(Fcitx5Request::ProcessKeyEvent { keyval: 1, keycode: 2, state: 3, is_release: true, time: 0 })
    ));
}

#[test]
fn fcitx5_takes_a_key_only_by_saying_so() {
    assert!(fcitx5::key_handled(KeyReply::Answered(true)));
    assert!(!fcitx5::key_handled(KeyReply::Answered(false)));
    assert!(!fcitx5::key_handled(KeyReply::Failed));
    assert!(!fcitx5::key_handled(KeyReply::TimedOut));
}

#[test]
fn fcitx_signals_keep_to_the_declared_capabilities() {
    let capability = |event: ImeEvent| match event {
        ImeEvent::Preedit { .. } | ImeEvent::PreeditEnd => ImeCapabilities::PREEDIT,
        ImeEvent::Commit { .. } => ImeCapabilities::COMMIT,
        ImeEvent::DeleteSurroundingText { .. } => ImeCapabilities::DELETE_SURROUNDING_TEXT,
        ImeEvent::ForwardKey { .. } => ImeCapabilities::FORWARD_KEY,
    };
    let signal = Fcitx4Signal::DeleteSurroundingText { offset: 0, nchar: 1 };
    let needed = capability(fcitx4::signal_event(signal));
    assert_ne!(fcitx4_capabilities().bits() & needed, 0);
    assert_eq!(fcitx5_capabilities().bits() & needed, 0);
    let signal = Fcitx5Signal::CommitString { text: String::new() };
    let needed = capability(fcitx5::signal_event(signal));
    assert_ne!(fcitx5_capabilities().bits() & needed, 0);
}

#[test]
fn fcitx4_deletions_out_of_range_give_no_event() {
    let checked = |offset: i32, nchar: u32| {
        fcitx4::checked_signal_event(Fcitx4Signal::DeleteSurroundingText { offset, nchar })
    };
    assert!(checked(i32::MIN, 0).is_none());
    assert!(checked(1, 0x7fff_ffff).is_none());
    assert!(matches!(
        checked(-2, 3),
        Some(ImeEvent::DeleteSurroundingText { before: 2, after: 1 })
    ));
    assert!(matches!(
        fcitx4::checked_signal_event(Fcitx4Signal::CommitString { text: "a".to_owned() }),
        Some(ImeEvent::Commit { text }) if text == "a"
    ));
}
