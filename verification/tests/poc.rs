use std::sync::{Arc, Mutex};

use native_ime::poc::{
    announce, char_to_basic_x11_keysym, default_cursor_rect, default_text, line_steps,
    maybe_set_surrounding_text, stroke_key, text_steps, Announcement, KeyStep,
};
use native_ime::poc_args::{
    next_arg, parse_non_negative_i32, usage, PocArgs, SurroundingTextArgs,
};
use native_ime::poc_report::{
    append_quoted, diagnostics_line, event_title, format_backend_kind, format_capabilities,
    format_char_label, format_event, format_event_text, format_forward_key_event,
    format_key_event, format_key_report, format_skipped_char, format_surrounding_text_request,
    format_text_summary, log_unsupported_char,
};
use native_ime::queue::event_queue;
use native_ime::{
    BackendKind, CursorRect, ImeBackend, ImeCapabilities, ImeEngine, ImeEvent, KeyState,
};

fn words(args: &[&str]) -> Vec<String> {
    args.iter().map(|arg| arg.to_string()).collect()
}

/// A backend with given capabilities that writes down the texts and keys it gets.
struct TypedBackend {
    caps: u32,
    calls: Arc<Mutex<Vec<String>>>,
}

impl ImeBackend for TypedBackend {
    fn capabilities(&self) -> ImeCapabilities {
        ImeCapabilities(self.caps)
    }

    fn focus_in(&self) {}

    fn focus_out(&self) {}

    fn set_cursor_rect(&self, _rect: CursorRect) {}

    fn set_surrounding_text(&self, text: &str, cursor: i32, anchor: i32) {
        self.calls
            .lock()
            .unwrap()
            .push(format!("text {text} {cursor} {anchor}"));
    }

    fn process_key_event(&self, keyval: u32, keycode: u32, state: u32, is_release: bool) -> bool {
        self.calls
            .lock()
            .unwrap()
            .push(format!("key {keyval} {keycode} {state} {is_release}"));
        !is_release
    }

    fn reset(&self) {}
}

fn typed_engine(caps: u32) -> (ImeEngine<TypedBackend>, Arc<Mutex<Vec<String>>>) {
    let calls = Arc::new(Mutex::new(Vec::new()));
    let (_tx, rx) = event_queue();
    let backend = TypedBackend {
        caps,
        calls: calls.clone(),
    };
    (ImeEngine::new(Box::new(backend), rx), calls)
}

#[test]
fn maps_ascii_chars_to_x11_keysyms() {
    assert_eq!(char_to_basic_x11_keysym('a'), Some(0x0061));
    assert_eq!(char_to_basic_x11_keysym('Z'), Some(0x005a));
    assert_eq!(char_to_basic_x11_keysym('0'), Some(0x0030));
    assert_eq!(char_to_basic_x11_keysym(' '), Some(0x0020));
}

#[test]
fn maps_line_breaks_to_return_keysym() {
    assert_eq!(char_to_basic_x11_keysym('\n'), Some(0xff0d));
    assert_eq!(char_to_basic_x11_keysym('\r'), Some(0xff0d));
}

#[test]
fn rejects_non_ascii_chars_without_guessing_keyboard_layout() {
    assert_eq!(char_to_basic_x11_keysym('你'), None);
}

#[test]
fn parses_surrounding_text_with_default_offsets() {
    let args = PocArgs::parse(words(&["--surrounding-text", "你a"])).unwrap();

    assert!(!args.log_text);
    assert_eq!(
        args.surrounding_text,
        Some(SurroundingTextArgs {
            text: "你a".to_string(),
            cursor: 4,
            anchor: 4,
        })
    );
}

#[test]
fn parses_log_text_as_explicit_opt_in() {
    let args = PocArgs::parse(words(&["--log-text"])).unwrap();

    assert!(args.log_text);
}

#[test]
fn formats_event_text_without_content_by_default() {
    let summary = format_event_text("commit", "密码a", None, false);

    assert_eq!(summary, "Commit byte_len=7 char_count=3");
    assert!(!summary.contains("密码a"));
}

#[test]
fn formats_event_text_with_content_when_enabled() {
    let summary = format_event_text("preedit", "候选", Some((2, 2)), true);

    assert_eq!(
        summary,
        "Preedit byte_len=6 char_count=2 cursor=[2..2] text=\"候选\""
    );
}

#[test]
fn formats_surrounding_text_without_content_by_default() {
    let args = SurroundingTextArgs {
        text: "上下文".to_string(),
        cursor: 9,
        anchor: 3,
    };

    let summary = format_surrounding_text_request(&args, false);

    assert_eq!(
        summary,
        "Requested surrounding text byte_len=9 char_count=3 cursor=9 anchor=3"
    );
    assert!(!summary.contains("上下文"));
}

#[test]
fn formats_surrounding_text_with_content_when_enabled() {
    let args = SurroundingTextArgs {
        text: "上下文".to_string(),
        cursor: 9,
        anchor: 3,
    };

    let summary = format_surrounding_text_request(&args, true);

    assert_eq!(
        summary,
        "Requested surrounding text byte_len=9 char_count=3 cursor=9 anchor=3 text=\"上下文\""
    );
}

#[test]
fn formats_key_event_without_recoverable_keysym_by_default() {
    let summary = format_key_event("a", 0x0061, false);

    assert_eq!(summary, "Character");
    assert!(!summary.contains("'a'"));
    assert!(!summary.contains("0061"));
}

#[test]
fn formats_key_event_with_label_and_keysym_when_enabled() {
    assert_eq!(format_key_event("a", 0x0061, true), "'a' (0x0061)");
}

#[test]
fn formats_forward_key_without_keyval_by_default() {
    let summary = format_forward_key_event(0x0061, 0, false);

    assert_eq!(summary, "ForwardKey state=0x0");
    assert!(!summary.contains("0061"));
}

#[test]
fn formats_forward_key_with_keyval_when_enabled() {
    assert_eq!(
        format_forward_key_event(0x0061, 0, true),
        "ForwardKey keyval=0x61 state=0x0"
    );
}

#[test]
fn parses_explicit_surrounding_text_offsets() {
    let args = PocArgs::parse(words(&[
        "--interactive",
        "--surrounding-text",
        "hello",
        "--cursor",
        "2",
        "--anchor",
        "1",
    ]))
    .unwrap();

    assert!(args.interactive);
    assert_eq!(
        args.surrounding_text,
        Some(SurroundingTextArgs {
            text: "hello".to_string(),
            cursor: 2,
            anchor: 1,
        })
    );
}

#[test]
fn rejects_offsets_without_surrounding_text() {
    let err = PocArgs::parse(words(&["--cursor", "1"])).unwrap_err();

    assert_eq!(err, "--cursor/--anchor require --surrounding-text");
}

#[test]
fn rejects_negative_offsets() {
    let err =
        PocArgs::parse(words(&["--surrounding-text", "hello", "--cursor", "-1"])).unwrap_err();

    assert!(err.contains("--cursor must be a non-negative i32 byte offset"));
}

#[test]
fn formats_capability_bits_as_human_readable_names() {
    let caps = ImeCapabilities(ImeCapabilities::PREEDIT)
        | ImeCapabilities(ImeCapabilities::COMMIT)
        | ImeCapabilities(ImeCapabilities::FORWARD_KEY);

    assert_eq!(
        format_capabilities(caps),
        "0x00000007 [preedit, commit, forward_key]"
    );
}

#[test]
fn formats_empty_capabilities_explicitly() {
    assert_eq!(
        format_capabilities(ImeCapabilities(ImeCapabilities::NONE)),
        "0x00000000 [none]"
    );
}

#[test]
fn no_arguments_ask_for_nothing() {
    assert_eq!(PocArgs::parse(vec![]).unwrap(), PocArgs::default());
}

#[test]
fn last_flag_counts() {
    let args = PocArgs::parse(words(&[
        "--surrounding-text",
        "one",
        "--cursor",
        "1",
        "--surrounding-text",
        "two words",
        "--cursor",
        "+5",
    ]))
    .unwrap();
    assert_eq!(
        args.surrounding_text,
        Some(SurroundingTextArgs {
            text: "two words".to_string(),
            cursor: 5,
            anchor: 5,
        })
    );
}

#[test]
fn flag_as_a_value_is_a_value() {
    let args = PocArgs::parse(words(&["--surrounding-text", "--log-text"])).unwrap();
    assert!(!args.log_text);
    assert_eq!(args.surrounding_text.unwrap().text, "--log-text");
}

#[test]
fn missing_values_are_told() {
    for flag in ["--surrounding-text", "--cursor", "--anchor"] {
        let err = PocArgs::parse(words(&["--interactive", flag])).unwrap_err();
        assert_eq!(err, format!("{flag} requires a value\n{}", usage()));
    }
}

#[test]
fn unknown_arguments_are_told() {
    let err = PocArgs::parse(words(&["--fast"])).unwrap_err();
    assert_eq!(err, format!("Unknown argument: --fast\n{}", usage()));
}

#[test]
fn help_is_the_usage() {
    assert_eq!(PocArgs::parse(words(&["--help"])).unwrap_err(), usage());
    assert_eq!(PocArgs::parse(words(&["-h", "--fast"])).unwrap_err(), usage());
    assert_eq!(
        usage(),
        "Usage: ime-poc [--interactive] [--log-text] [--surrounding-text <text> [--cursor <n>] [--anchor <n>]]"
    );
}

#[test]
fn anchor_alone_is_rejected() {
    let err = PocArgs::parse(words(&["--anchor", "1"])).unwrap_err();
    assert_eq!(err, "--cursor/--anchor require --surrounding-text");
}

#[test]
fn next_arg_walks_along() {
    let args = words(&["a", "b"]);
    let mut index = 1;
    assert_eq!(next_arg(&args, &mut index, "--x").unwrap(), "b");
    assert_eq!(index, 2);
    assert_eq!(
        next_arg(&args, &mut index, "--x").unwrap_err(),
        format!("--x requires a value\n{}", usage())
    );
    assert_eq!(index, 2);
}

#[test]
fn offsets_are_read_as_integers() {
    let good = [
        ("0", 0),
        ("-0", 0),
        ("+7", 7),
        ("0042", 42),
        ("2147483647", i32::MAX),
        ("00000000000000000001", 1),
    ];
    for (text, value) in good {
        assert_eq!(parse_non_negative_i32("--cursor", text), Ok(value));
        assert_eq!(text.parse::<i32>(), Ok(value));
    }
    let bad = [
        "", "+", "-", "-1", "2147483648", "99999999999999999999", " 1", "1 ", "1a", "+-1", "--1",
        "0x1", "١", "-2147483649",
    ];
    for text in bad {
        assert_eq!(
            parse_non_negative_i32("--anchor", text),
            Err(format!("--anchor must be a non-negative i32 byte offset: {text}"))
        );
    }
}

#[test]
fn kinds_have_names() {
    assert_eq!(format_backend_kind(BackendKind::Unknown), "unknown");
    assert_eq!(format_backend_kind(BackendKind::Fcitx5), "fcitx5");
    assert_eq!(format_backend_kind(BackendKind::Fcitx4), "fcitx4");
    assert_eq!(format_backend_kind(BackendKind::IBus), "ibus");
}

#[test]
fn all_and_unknown_capabilities_are_named() {
    assert_eq!(
        format_capabilities(ImeCapabilities(0x3f)),
        "0x0000003f [preedit, commit, forward_key, delete_surrounding_text, surrounding_text, content_type]"
    );
    assert_eq!(
        format_capabilities(ImeCapabilities(0x8000_0042)),
        "0x80000042 [commit, unknown(0x80000040)]"
    );
}

#[test]
fn diagnostics_name_the_backend() {
    assert_eq!(
        diagnostics_line("Fcitx 4", BackendKind::Fcitx4, ImeCapabilities(1)),
        "Backend diagnostics: name=Fcitx 4 kind=fcitx4 capabilities=0x00000001 [preedit]"
    );
}

#[test]
fn titles_follow_the_kind_of_event() {
    assert_eq!(event_title("commit"), "Commit");
    assert_eq!(event_title("preedit"), "Preedit");
    assert_eq!(event_title("Commit"), "TextEvent");
    assert_eq!(format_text_summary("T", "é"), "T byte_len=2 char_count=1");
}

#[test]
fn quoted_text_is_appended() {
    assert_eq!(append_quoted("s".to_string(), Some("\"q\"")), "s text=\"q\"");
    assert_eq!(append_quoted("s".to_string(), None), "s");
}

#[test]
fn shown_texts_are_escaped() {
    assert_eq!(
        format_event_text("commit", "a\"b\n", None, true),
        "Commit byte_len=4 char_count=4 text=\"a\\\"b\\n\""
    );
}

#[test]
fn labels_name_plain_characters_only_on_request() {
    assert_eq!(format_char_label('\n', false), "Return");
    assert_eq!(format_char_label('\r', true), "Return");
    assert_eq!(format_char_label(' ', false), "Space");
    assert_eq!(format_char_label('q', false), "Character");
    assert_eq!(format_char_label('q', true), "q");
}

#[test]
fn keys_that_say_nothing_are_named() {
    assert_eq!(format_key_event("Return", 0xff0d, false), "Return");
    assert_eq!(format_key_event("Space", 0x20, false), "Space");
    assert_eq!(format_key_event("Return", 0xff0d, true), "'Return' (0xff0d)");
    assert_eq!(format_key_event("x", 0x12345, true), "'x' (0x12345)");
}

#[test]
fn key_reports_say_how_it_went() {
    assert_eq!(
        format_key_report("Return", 0xff0d, false, true, false),
        "process_key_event Return keydown: handled=true"
    );
    assert_eq!(
        format_key_report("q", 0x71, true, false, true),
        "process_key_event 'q' (0x0071) keyup: handled=false"
    );
}

#[test]
fn untyped_characters_are_told_by_size() {
    assert_eq!(
        log_unsupported_char('你', false),
        "Skipping unsupported non-ASCII char: byte_len=3 char_count=1; PoC only maps basic X11 keysyms"
    );
    assert_eq!(
        log_unsupported_char('你', true),
        "Skipping unsupported non-ASCII char '你'; PoC only maps basic X11 keysyms"
    );
    assert_eq!(
        log_unsupported_char('\u{301}', true),
        "Skipping unsupported non-ASCII char '\\u{301}'; PoC only maps basic X11 keysyms"
    );
    assert_eq!(
        format_skipped_char("?"),
        "Skipping unsupported non-ASCII char ?; PoC only maps basic X11 keysyms"
    );
    assert_eq!(log_unsupported_char('é', false), log_unsupported_char('ü', false));
    for ch in ['\u{80}', '\u{7ff}', '\u{800}', '\u{ffff}', '\u{10000}', '\u{10ffff}'] {
        assert!(log_unsupported_char(ch, false).contains(&format!("byte_len={} ", ch.len_utf8())));
    }
}

#[test]
fn events_are_told_in_one_line() {
    let preedit = ImeEvent::Preedit {
        text: "候选".to_string(),
        cursor_begin: -1,
        cursor_end: 2,
    };
    assert_eq!(
        format_event(&preedit, false),
        "Preedit byte_len=6 char_count=2 cursor=[-1..2]"
    );
    assert_eq!(format_event(&ImeEvent::PreeditEnd, true), "PreeditEnd");
    let commit = ImeEvent::Commit {
        text: "好".to_string(),
    };
    assert_eq!(format_event(&commit, true), "Commit byte_len=3 char_count=1 text=\"好\"");
    let delete = ImeEvent::DeleteSurroundingText {
        before: 0,
        after: u32::MAX,
    };
    assert_eq!(
        format_event(&delete, false),
        "DeleteSurroundingText before=0 after=4294967295"
    );
    let key = ImeEvent::ForwardKey {
        keyval: 0xff0d,
        state: KeyState(0x1c),
    };
    assert_eq!(format_event(&key, false), "ForwardKey state=0x1c");
    assert_eq!(format_event(&key, true), "ForwardKey keyval=0xff0d state=0x1c");
}

#[test]
fn events_of_one_outline_look_alike() {
    let shown = |text: &str| {
        format_event(
            &ImeEvent::Commit {
                text: text.to_string(),
            },
            false,
        )
    };
    assert_eq!(shown("密码"), shown("文字"));
    assert_ne!(shown("密码"), shown("abcdef"));
}

#[test]
fn texts_are_typed_character_by_character() {
    let steps = text_steps("a é\n", true);
    assert_eq!(steps.len(), 4);
    assert!(matches!(&steps[0], KeyStep::Type { keysym: 0x61, label } if label == "a"));
    assert!(matches!(&steps[1], KeyStep::Type { keysym: 0x20, label } if label == "Space"));
    assert!(matches!(
        &steps[2],
        KeyStep::Skip { message } if *message == log_unsupported_char('é', true)
    ));
    assert!(matches!(&steps[3], KeyStep::Type { keysym: 0xff0d, label } if label == "Return"));
}

#[test]
fn lines_end_in_return() {
    let steps = line_steps("z", false);
    assert_eq!(steps.len(), 2);
    assert!(matches!(&steps[0], KeyStep::Type { keysym: 0x7a, label } if label == "Character"));
    assert!(matches!(&steps[1], KeyStep::Type { keysym: 0xff0d, label } if label == "Return"));
    assert_eq!(line_steps("", true).len(), 1);
}

#[test]
fn defaults_of_the_program() {
    assert_eq!(default_text(), "nihao\n");
    let rect = default_cursor_rect();
    assert_eq!((rect.x, rect.y, rect.width, rect.height), (200, 300, 1, 20));
}

#[test]
fn keys_are_sent_bare() {
    let (engine, calls) = typed_engine(0);
    assert_eq!(
        stroke_key(&engine, 0x61, "a", false, true),
        "process_key_event 'a' (0x0061) keydown: handled=true"
    );
    assert_eq!(
        stroke_key(&engine, 0x61, "a", true, false),
        "process_key_event Character keyup: handled=false"
    );
    assert_eq!(*calls.lock().unwrap(), vec!["key 97 0 0 false", "key 97 0 0 true"]);
}

#[test]
fn surrounding_text_is_announced_where_it_can_be() {
    let asked = SurroundingTextArgs {
        text: "hello".to_string(),
        cursor: 5,
        anchor: 2,
    };

    let (engine, calls) = typed_engine(ImeCapabilities::SURROUNDING_TEXT);
    let announcement = maybe_set_surrounding_text(&engine, Some(&asked));
    assert_eq!(announcement, Announcement::Sent);
    assert_eq!(announcement.message(), Some("set_surrounding_text called."));
    assert_eq!(*calls.lock().unwrap(), vec!["text hello 5 2"]);

    let (engine, calls) = typed_engine(ImeCapabilities::PREEDIT);
    let announcement = maybe_set_surrounding_text(&engine, Some(&asked));
    assert_eq!(announcement, Announcement::NotSupported);
    assert_eq!(
        announcement.message(),
        Some("Backend capability missing: surrounding_text. Skipping set_surrounding_text.")
    );
    assert!(calls.lock().unwrap().is_empty());

    let announcement = maybe_set_surrounding_text(&engine, None);
    assert_eq!(announcement, Announcement::NotAsked);
    assert_eq!(announcement.message(), None);
}

#[test]
fn line_is_typed_like_text_with_a_line_break() {
    let typed = line_steps("hi", true);
    let same = text_steps("hi\n", true);
    assert_eq!(typed.len(), same.len());
    for (a, b) in typed.iter().zip(same.iter()) {
        match (a, b) {
            (
                KeyStep::Type { keysym: x, label: p },
                KeyStep::Type { keysym: y, label: q },
            ) => {
                assert_eq!(x, y);
                assert_eq!(p, q);
            }
            _ => panic!("both should be typed"),
        }
    }
}

#[test]
fn requests_of_one_size_look_alike() {
    let shown = |text: &str| {
        let args = SurroundingTextArgs {
            text: text.to_string(),
            cursor: 0,
            anchor: 1,
        };
        format_surrounding_text_request(&args, false)
    };
    assert_eq!(shown("one"), shown("two"));
}

#[test]
fn plain_keys_look_alike() {
    let shown = |ch: char| {
        let keysym = char_to_basic_x11_keysym(ch).unwrap();
        format_key_report(&format_char_label(ch, false), keysym, false, true, false)
    };
    assert_eq!(shown('p'), shown('w'));
    assert_ne!(shown('p'), shown(' '));
}

#[test]
fn texts_are_announced_only_where_due() {
    let asked = SurroundingTextArgs {
        text: "hello".to_string(),
        cursor: 5,
        anchor: 2,
    };
    let missing = ImeCapabilities(!ImeCapabilities::SURROUNDING_TEXT);
    assert_eq!(
        announce(&asked, missing, |_| panic!("the capability is missing")),
        Announcement::NotSupported
    );
    let mut seen = Vec::new();
    let present = ImeCapabilities(ImeCapabilities::SURROUNDING_TEXT);
    assert_eq!(
        announce(&asked, present, |args| seen.push(args.text.clone())),
        Announcement::Sent
    );
    assert_eq!(seen, vec!["hello"]);
}
