use native_ime::backend::BackendCall;
use native_ime::convert::KeyReply;
use native_ime::ibus;
use native_ime::ibus::{
    build_empty_ibus_attr_list, build_ibus_text, extract_ibus_text_string, forward_key_summary,
    ibus_capabilities, ibus_content_type, signal_log, signal_loop_ready, text_event_summary,
    IBusListening, IBusRequest, IBusSignal, IBusSignalKind, IBusStep, IBUS_INPUT_HINT_NONE,
    IBUS_INPUT_HINT_NO_SPELLCHECK, IBUS_INPUT_PURPOSE_EMAIL, IBUS_INPUT_PURPOSE_FREE_FORM,
    IBUS_INPUT_PURPOSE_NUMBER, IBUS_INPUT_PURPOSE_PASSWORD, IBUS_INPUT_PURPOSE_PHONE,
    IBUS_INPUT_PURPOSE_URL,
};
use native_ime::{ContentType, CursorRect, ImeCapabilities, ImeEvent, KeyState};
use zbus::zvariant::Value;

#[test]
fn build_ibus_text_matches_extract_ibus_text_string() {
    let value = build_ibus_text("hello 输入法");

    assert_eq!(extract_ibus_text_string(&value), "hello 输入法");
}

#[test]
fn formats_text_event_without_content() {
    let summary = text_event_summary("commit", "密码a", None);

    assert_eq!(summary, "commit byte_len=7 char_count=3");
    assert!(!summary.contains("密码a"));
}

#[test]
fn formats_preedit_event_with_cursor_without_content() {
    let summary = text_event_summary("preedit", "候选", Some(2));

    assert_eq!(summary, "preedit byte_len=6 char_count=2 cursor=2");
    assert!(!summary.contains("候选"));
}

#[test]
fn formats_forward_key_without_keyval() {
    let summary = forward_key_summary(KeyState::SHIFT);

    assert_eq!(summary, "forward-key state=0x1");
    assert!(!summary.contains("ff0d"));
}

#[test]
fn build_ibus_text_uses_ibus_serializable_shape() {
    let value = build_ibus_text("abc");
    let Value::Structure(text) = value else {
        panic!("IBusText should be encoded as a structure");
    };

    let fields = text.fields();
    assert_eq!(fields.len(), 4);
    assert!(matches!(&fields[0], Value::Str(name) if name.as_str() == "IBusText"));
    assert!(matches!(&fields[1], Value::Dict(_)));
    assert!(matches!(&fields[2], Value::Str(text) if text.as_str() == "abc"));

    let Value::Value(attrs) = &fields[3] else {
        panic!("IBusText attrs field should be a variant");
    };
    let Value::Structure(attrs) = attrs.as_ref() else {
        panic!("IBusText attrs variant should wrap IBusAttrList");
    };
    assert!(matches!(&attrs.fields()[0], Value::Str(name) if name.as_str() == "IBusAttrList"));
}

#[test]
fn content_type_maps_to_ibus_purpose_and_hints() {
    assert_eq!(
        ibus_content_type(ContentType::Normal),
        (IBUS_INPUT_PURPOSE_FREE_FORM, IBUS_INPUT_HINT_NONE)
    );
    assert_eq!(
        ibus_content_type(ContentType::Password),
        (IBUS_INPUT_PURPOSE_PASSWORD, IBUS_INPUT_HINT_NO_SPELLCHECK)
    );
    assert_eq!(
        ibus_content_type(ContentType::Number),
        (IBUS_INPUT_PURPOSE_NUMBER, IBUS_INPUT_HINT_NONE)
    );
    assert_eq!(
        ibus_content_type(ContentType::Phone),
        (IBUS_INPUT_PURPOSE_PHONE, IBUS_INPUT_HINT_NONE)
    );
    assert_eq!(
        ibus_content_type(ContentType::Url),
        (IBUS_INPUT_PURPOSE_URL, IBUS_INPUT_HINT_NO_SPELLCHECK)
    );
    assert_eq!(
        ibus_content_type(ContentType::Email),
        (IBUS_INPUT_PURPOSE_EMAIL, IBUS_INPUT_HINT_NO_SPELLCHECK)
    );
}

#[test]
fn reports_ibus_text_context_capabilities() {
    assert_eq!(
        ibus_capabilities(),
        ImeCapabilities(ImeCapabilities::PREEDIT)
            | ImeCapabilities(ImeCapabilities::COMMIT)
            | ImeCapabilities(ImeCapabilities::FORWARD_KEY)
            | ImeCapabilities(ImeCapabilities::DELETE_SURROUNDING_TEXT)
            | ImeCapabilities(ImeCapabilities::SURROUNDING_TEXT)
            | ImeCapabilities(ImeCapabilities::CONTENT_TYPE)
    );
}

#[test]
fn propagates_signal_loop_initialization_failure() {
    let err = signal_loop_ready(Some(Err("subscribe forward-key failed".to_string()))).unwrap_err();
    assert!(err.contains("subscribe forward-key failed"));
}

#[test]
fn reports_missing_signal_loop_initialization_result() {
    let err = signal_loop_ready(None).unwrap_err();
    assert!(err.contains("IBus signal loop ended before initialization completed"));
}

#[test]
fn ready_signal_loop_is_no_failure() {
    assert!(signal_loop_ready(Some(Ok(()))).is_ok());
}

#[test]
fn attribute_list_is_empty_and_typed() {
    let value = build_empty_ibus_attr_list();
    assert_eq!(value.value_signature().to_string(), "(sa{sv}v)");
    let Value::Structure(list) = value else {
        panic!("the list should be a structure");
    };
    let Value::Dict(attachments) = &list.fields()[1] else {
        panic!("the attachments should be a dictionary");
    };
    assert_eq!(attachments.iter().count(), 0);
    assert_eq!(attachments.signature().to_string(), "a{sv}");
    let Value::Value(inner) = &list.fields()[2] else {
        panic!("the attributes should be inside a variant");
    };
    let Value::Array(attributes) = inner.as_ref() else {
        panic!("the attributes should be an array");
    };
    assert_eq!(attributes.len(), 0);
    assert_eq!(attributes.element_signature().to_string(), "(uuiu)");
}

#[test]
fn text_has_the_signature_of_ibus_text() {
    assert_eq!(build_ibus_text("x").value_signature().to_string(), "(sa{sv}sv)");
}

#[test]
fn text_inside_a_variant_is_extracted() {
    let wrapped = Value::Value(Box::new(build_ibus_text("词")));
    assert_eq!(extract_ibus_text_string(&wrapped), "词");
    let twice = Value::Value(Box::new(Value::Value(Box::new(build_ibus_text("词")))));
    assert_eq!(extract_ibus_text_string(&twice), "");
}

#[test]
fn other_values_hold_no_text() {
    assert_eq!(extract_ibus_text_string(&Value::new("text")), "");
    assert_eq!(extract_ibus_text_string(&Value::new(7u32)), "");
    assert_eq!(extract_ibus_text_string(&Value::new(("a", "b"))), "");
    assert_eq!(extract_ibus_text_string(&Value::new(("a", "b", 3u32))), "");
    assert_eq!(extract_ibus_text_string(&Value::new(("a", "b", "c"))), "c");
}

#[test]
fn ibus_connects_when_everything_is_granted() {
    let ok = || Ok(String::new());
    let step = ibus::connect_next(IBusStep::OpenSession, ok());
    assert!(matches!(step, IBusStep::BindBus));
    let step = ibus::connect_next(step, ok());
    assert!(matches!(&step, IBusStep::CreateContext { client } if client == "native-ime"));
    let step = ibus::connect_next(step, Ok("/ic/1".to_string()));
    assert!(matches!(&step, IBusStep::BindContext { path } if path == "/ic/1"));
    let step = ibus::connect_next(step, ok());
    assert!(matches!(step, IBusStep::SetCapabilities { flags: 0x29 }));
    let step = ibus::connect_next(step, ok());
    assert!(matches!(step, IBusStep::StartListening));
    let step = ibus::connect_next(step, ok());
    assert!(matches!(step, IBusStep::Connected));
    let step = ibus::connect_next(step, Err("late".to_string()));
    assert!(matches!(step, IBusStep::Connected));
}

#[test]
fn ibus_fails_at_any_step() {
    let steps = vec![
        IBusStep::OpenSession,
        IBusStep::BindBus,
        IBusStep::CreateContext {
            client: "native-ime".to_string(),
        },
        IBusStep::BindContext {
            path: "/ic/1".to_string(),
        },
        IBusStep::SetCapabilities { flags: 0x29 },
        IBusStep::StartListening,
    ];
    for step in steps {
        let next = ibus::connect_next(step, Err("cause".to_string()));
        assert!(matches!(&next, IBusStep::Failed { message } if message == "cause"));
        let after = ibus::connect_next(next, Ok(String::new()));
        assert!(matches!(after, IBusStep::Failed { message } if message == "cause"));
    }
}

#[test]
fn ibus_subscribes_in_order() {
    let mut seen = Vec::new();
    let mut state = ibus::subscribe_first();
    while let IBusListening::Subscribe(kind) = state {
        seen.push(kind.name());
        state = ibus::subscribe_next(kind, Ok(()));
    }
    assert!(matches!(state, IBusListening::Listening));
    assert_eq!(
        seen,
        vec![
            "commit-text",
            "update-preedit-text",
            "hide-preedit-text",
            "delete-surrounding-text",
            "forward-key-event",
        ]
    );
}

#[test]
fn ibus_names_the_subscription_that_failed() {
    let next = ibus::subscribe_next(IBusSignalKind::HidePreeditText, Err("refused".to_string()));
    assert!(matches!(
        next,
        IBusListening::Abandoned { message }
            if message == "IBus subscribe hide-preedit-text failed: refused"
    ));
}

#[test]
fn ibus_signals_become_events() {
    assert!(matches!(
        ibus::signal_event(IBusSignal::CommitText { text: build_ibus_text("好") }),
        ImeEvent::Commit { text } if text == "好"
    ));
    assert!(matches!(
        ibus::signal_event(IBusSignal::UpdatePreeditText {
            text: Value::Value(Box::new(build_ibus_text("hao"))),
            cursor_pos: 3,
        }),
        ImeEvent::Preedit { text, cursor_begin: 3, cursor_end: 3 } if text == "hao"
    ));
    assert!(matches!(
        ibus::signal_event(IBusSignal::UpdatePreeditText {
            text: build_ibus_text(""),
            cursor_pos: 0,
        }),
        ImeEvent::PreeditEnd
    ));
    assert!(matches!(
        ibus::signal_event(IBusSignal::UpdatePreeditText {
            text: build_ibus_text("x"),
            cursor_pos: u32::MAX,
        }),
        ImeEvent::Preedit { cursor_begin: -1, cursor_end: -1, .. }
    ));
    assert!(matches!(
        ibus::signal_event(IBusSignal::HidePreeditText),
        ImeEvent::PreeditEnd
    ));
    assert!(matches!(
        ibus::signal_event(IBusSignal::DeleteSurroundingText { offset: -3, nchars: 3 }),
        ImeEvent::DeleteSurroundingText { before: 3, after: 0 }
    ));
    assert!(matches!(
        ibus::signal_event(IBusSignal::ForwardKeyEvent { keyval: 0x61, state: KeyState::RELEASE }),
        ImeEvent::ForwardKey { keyval: 0x61, state: KeyState(KeyState::RELEASE) }
    ));
}

#[test]
fn ibus_log_tells_sizes_only() {
    assert_eq!(
        signal_log(&IBusSignal::CommitText {
            text: build_ibus_text("密码a")
        })
        .as_deref(),
        Some("commit byte_len=7 char_count=3")
    );
    assert_eq!(
        signal_log(&IBusSignal::UpdatePreeditText {
            text: build_ibus_text("候选"),
            cursor_pos: 2
        })
        .as_deref(),
        Some("preedit byte_len=6 char_count=2 cursor=2")
    );
    assert_eq!(signal_log(&IBusSignal::HidePreeditText).as_deref(), Some("hide-preedit"));
    assert_eq!(
        signal_log(&IBusSignal::ForwardKeyEvent {
            keyval: 0xff0d,
            state: 0x1f
        })
        .as_deref(),
        Some("forward-key state=0x1f")
    );
    assert!(signal_log(&IBusSignal::DeleteSurroundingText { offset: 0, nchars: 1 }).is_none());
}

#[test]
fn texts_of_one_size_look_alike_in_the_ibus_log() {
    assert_eq!(
        text_event_summary("commit", "abc", Some(-1)),
        text_event_summary("commit", "xyz", Some(-1))
    );
    assert_eq!(
        text_event_summary("commit", "abc", Some(-1)),
        "commit byte_len=3 char_count=3 cursor=-1"
    );
}

#[test]
fn ibus_requests_follow_the_calls() {
    assert!(matches!(ibus::request(BackendCall::FocusIn), IBusRequest::FocusIn));
    assert!(matches!(ibus::request(BackendCall::FocusOut), IBusRequest::FocusOut));
    assert!(matches!(ibus::request(BackendCall::Reset), IBusRequest::Reset));
    let rect = CursorRect {
        x: 1,
        y: 2,
        width: 3,
        height: 4,
    };
    assert!(matches!(
        ibus::request(BackendCall::SetCursorRect { rect }),
        IBusRequest::SetCursorLocation { x: 1, y: 2, w: 3, h: 4 }
    ));
    match ibus::request(BackendCall::SetSurroundingText {
        text: "around".to_string(),
        cursor: 3,
        anchor: -3,
    }) {
        IBusRequest::SetSurroundingText { text, cursor, anchor } => {
            assert_eq!(extract_ibus_text_string(&text), "around");
            assert_eq!((cursor, anchor), (3, 0));
        }
        _ => panic!("the text should be announced"),
    }
    assert!(matches!(
        ibus::request(BackendCall::SetContentType { content_type: ContentType::Password }),
        IBusRequest::SetContentType { purpose: 8, hints: 2 }
    ));
    assert!(matches!(
        ibus::request(BackendCall::ProcessKeyEvent { keyval: 1, keycode: 2, state: 4, is_release: true }),
        IBusRequest::ProcessKeyEvent { keyval: 1, keycode: 2, state: 0x4000_0004 }
    ));
}

#[test]
fn ibus_takes_a_key_only_by_saying_so() {
    assert!(ibus::key_handled(KeyReply::Answered(true)));
    assert!(!ibus::key_handled(KeyReply::Answered(false)));
    assert!(!ibus::key_handled(KeyReply::Failed));
    assert!(!ibus::key_handled(KeyReply::TimedOut));
}

#[test]
fn ibus_deletions_out_of_range_give_no_event() {
    let checked = |offset: i32, nchars: u32| {
        ibus::checked_signal_event(IBusSignal::DeleteSurroundingText { offset, nchars })
    };
    assert!(checked(1, u32::MAX).is_none());
    assert!(checked(i32::MAX, u32::MAX).is_none());
    assert!(matches!(
        checked(0, 0x8000_0000),
        Some(ImeEvent::DeleteSurroundingText { before: 0, after: 0x8000_0000 })
    ));
    assert!(matches!(
        checked(-2, 3),
        Some(ImeEvent::DeleteSurroundingText { before: 2, after: 1 })
    ));
    assert!(matches!(
        ibus::checked_signal_event(IBusSignal::HidePreeditText),
        Some(ImeEvent::PreeditEnd)
    ));
}
