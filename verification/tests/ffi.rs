use std::sync::{Arc, Mutex};

use native_ime::detect::{search_first, search_next, Framework, Search};
use native_ime::event_data::{fill_event_data, write_text};
use native_ime::ffi::{
    content_type_from_abi, deliver_event, hand_on_content_type, hand_on_text, ime_backend_kind, ime_capabilities, ime_focus_in,
    ime_focus_out, ime_poll_event, ime_process_key_event, ime_reset, ime_set_content_type,
    ime_set_cursor_rect, ime_set_surrounding_text, poll_into, text_argument, with_handle,
};
use native_ime::queue::{event_queue, send_event};
use native_ime::{
    BackendKind, ContentType, CursorRect, ImeBackend, ImeCapabilities, ImeEvent, ImeEventData,
    ImeHandle, KeyState,
};

/// A backend that writes down the calls it gets.
struct NotingBackend {
    calls: Arc<Mutex<Vec<String>>>,
}

impl NotingBackend {
    fn note(&self, call: String) {
        self.calls.lock().unwrap().push(call);
    }
}

impl ImeBackend for NotingBackend {
    fn backend_kind(&self) -> BackendKind {
        BackendKind::IBus
    }

    fn capabilities(&self) -> ImeCapabilities {
        ImeCapabilities(0x3f)
    }

    fn focus_in(&self) {
        self.note("focus_in".to_string());
    }

    fn focus_out(&self) {
        self.note("focus_out".to_string());
    }

    fn set_cursor_rect(&self, rect: CursorRect) {
        self.note(format!("rect {} {} {} {}", rect.x, rect.y, rect.width, rect.height));
    }

    fn set_surrounding_text(&self, text: &str, cursor: i32, anchor: i32) {
        self.note(format!("text {text:?} {cursor} {anchor}"));
    }

    fn set_content_type(&self, content_type: ContentType) {
        self.note(format!("content {content_type:?}"));
    }

    fn process_key_event(&self, keyval: u32, keycode: u32, state: u32, is_release: bool) -> bool {
        self.note(format!("key {keyval} {keycode} {state} {is_release}"));
        keyval == 1
    }

    fn reset(&self) {
        self.note("reset".to_string());
    }
}

fn stale_event_data() -> ImeEventData {
    ImeEventData {
        event_type: -1,
        text: [b'x'; 2048],
        cursor_begin: -1,
        cursor_end: -1,
        param1: -1,
        param2: -1,
    }
}

/// The text that a C program reads from the record.
fn c_text(data: &ImeEventData) -> String {
    let end = data.text.iter().position(|&byte| byte == 0).unwrap();
    String::from_utf8(data.text[..end].to_vec()).unwrap()
}

#[test]
fn null_handle_calls_are_noops() {
    let none: Option<&ImeHandle<NotingBackend>> = None;
    ime_focus_in(none);
    ime_focus_out(none);
    ime_set_cursor_rect(none, 1, 2, 3, 4);
    ime_set_surrounding_text(none, None, 0, 0);
    ime_set_content_type(none, 999);
    ime_reset(none);
    assert_eq!(ime_backend_kind(none), 0);
    assert_eq!(ime_capabilities(none), 0);
    assert_eq!(ime_process_key_event(none, 0, 0, 0, 0), 0);

    let mut event = ImeEventData {
        event_type: -1,
        text: [1; 2048],
        cursor_begin: -1,
        cursor_end: -1,
        param1: -1,
        param2: -1,
    };
    assert_eq!(ime_poll_event(none, Some(&mut event)), 0);
    assert_eq!(ime_poll_event(none, None), 0);
    assert_eq!(event.event_type, -1);
    assert_eq!(event.text[0], 1);
}

#[test]
fn write_text_writes_ascii_and_null_terminator() {
    let mut buf = [0u8; 2048];

    write_text(&mut buf, "abc");

    assert_eq!(&buf[..4], b"abc\0");
}

#[test]
fn write_text_truncates_at_utf8_boundary() {
    let mut buf = [0u8; 2048];
    let text = format!("{}中", "a".repeat(2046));

    write_text(&mut buf, &text);

    assert_eq!(buf[2046], 0);
    assert!(std::str::from_utf8(&buf[..2046]).is_ok());
}

#[test]
fn fill_event_data_clears_stale_values_for_preedit_end() {
    let mut event = ImeEventData {
        event_type: 3,
        text: [b'x'; 2048],
        cursor_begin: 7,
        cursor_end: 8,
        param1: 9,
        param2: 10,
    };

    fill_event_data(&mut event, ImeEvent::PreeditEnd);

    assert_eq!(event.event_type, 2);
    assert_eq!(event.text[0], 0);
    assert_eq!(event.cursor_begin, 0);
    assert_eq!(event.cursor_end, 0);
    assert_eq!(event.param1, 0);
    assert_eq!(event.param2, 0);
}

#[test]
fn invalid_content_type_values_are_ignored() {
    assert!(content_type_from_abi(0).is_some());
    assert!(content_type_from_abi(5).is_some());
    assert!(content_type_from_abi(-1).is_none());
    assert!(content_type_from_abi(7).is_none());
}

#[test]
fn content_types_have_their_numbers() {
    assert_eq!(content_type_from_abi(0), Some(ContentType::Normal));
    assert_eq!(content_type_from_abi(1), Some(ContentType::Password));
    assert_eq!(content_type_from_abi(2), Some(ContentType::Number));
    assert_eq!(content_type_from_abi(3), Some(ContentType::Phone));
    assert_eq!(content_type_from_abi(4), Some(ContentType::Url));
    assert_eq!(content_type_from_abi(5), Some(ContentType::Email));
    assert_eq!(content_type_from_abi(6), None);
}

#[test]
fn write_text_fills_the_buffer_to_the_last_byte() {
    let mut buf = [7u8; 2048];
    write_text(&mut buf, &"b".repeat(2047));
    assert_eq!(buf[2046], b'b');
    assert_eq!(buf[2047], 0);

    let mut buf = [7u8; 2048];
    write_text(&mut buf, &"b".repeat(5000));
    assert_eq!(buf[2046], b'b');
    assert_eq!(buf[2047], 0);
}

#[test]
fn write_text_leaves_what_comes_after_the_zero() {
    let mut buf = [7u8; 2048];
    write_text(&mut buf, "");
    assert_eq!(buf[0], 0);
    assert_eq!(buf[1], 7);
    write_text(&mut buf, "é");
    assert_eq!(&buf[..4], &[0xc3, 0xa9, 0, 7]);
}

#[test]
fn long_texts_lose_less_than_a_character() {
    for (pad, kept) in [(0, 2044), (1, 2045), (2, 2046), (3, 2047)] {
        let mut data = stale_event_data();
        let text = format!("{}{}", "a".repeat(pad), "😀".repeat(600));
        fill_event_data(&mut data, ImeEvent::Commit { text: text.clone() });
        let read = c_text(&data);
        assert_eq!(read.len(), kept);
        assert!(text.starts_with(&read));
    }
}

#[test]
fn text_with_a_zero_is_read_up_to_it() {
    let mut data = stale_event_data();
    fill_event_data(
        &mut data,
        ImeEvent::Commit {
            text: "a\0b".to_string(),
        },
    );
    assert_eq!(c_text(&data), "a");
    assert_eq!(&data.text[..4], b"a\0b\0");
}

#[test]
fn filled_records_tell_the_event() {
    let mut data = stale_event_data();
    fill_event_data(
        &mut data,
        ImeEvent::Preedit {
            text: "拼音".to_string(),
            cursor_begin: 1,
            cursor_end: 2,
        },
    );
    assert_eq!(data.event_type, 1);
    assert_eq!(c_text(&data), "拼音");
    assert_eq!((data.cursor_begin, data.cursor_end), (1, 2));
    assert_eq!((data.param1, data.param2), (0, 0));

    fill_event_data(
        &mut data,
        ImeEvent::Commit {
            text: "词".to_string(),
        },
    );
    assert_eq!(data.event_type, 3);
    assert_eq!(c_text(&data), "词");
    assert_eq!((data.cursor_begin, data.cursor_end), (0, 0));

    fill_event_data(
        &mut data,
        ImeEvent::DeleteSurroundingText {
            before: 4,
            after: u32::MAX,
        },
    );
    assert_eq!(data.event_type, 4);
    assert_eq!(c_text(&data), "");
    assert_eq!(data.param1, 4);
    assert_eq!(data.param2 as u32, u32::MAX);

    fill_event_data(
        &mut data,
        ImeEvent::ForwardKey {
            keyval: 0xff0d,
            state: KeyState(0x8000_0001),
        },
    );
    assert_eq!(data.event_type, 5);
    assert_eq!(data.param1, 0xff0d);
    assert_eq!(data.param2 as u32, 0x8000_0001);
}

#[test]
fn delivery_of_nothing_leaves_the_record() {
    let mut data = stale_event_data();
    assert_eq!(deliver_event(None, &mut data), 0);
    assert_eq!(data.event_type, -1);
    assert_eq!(data.text[0], b'x');
    assert_eq!(deliver_event(Some(ImeEvent::PreeditEnd), &mut data), 2);
}

#[test]
fn text_arguments_are_utf8_or_nothing() {
    assert_eq!(text_argument(None), Some(""));
    assert_eq!(text_argument(Some("文".as_bytes())), Some("文"));
    assert_eq!(text_argument(Some(b"")), Some(""));
    assert_eq!(text_argument(Some(&[0xff])), None);
    assert_eq!(text_argument(Some(&[0xe4, 0xb8])), None);
    assert_eq!(text_argument(Some(&[0xed, 0xa0, 0x80])), None);
}

#[test]
fn handle_calls_reach_the_backend() {
    let calls = Arc::new(Mutex::new(Vec::new()));
    let (tx, rx) = event_queue();
    let backend: Box<dyn ImeBackend> = Box::new(NotingBackend {
        calls: calls.clone(),
    });
    let handle: ImeHandle<dyn ImeBackend> = ImeHandle::create(Some(backend), rx).unwrap();
    let handle = Some(&handle);

    ime_focus_in(handle);
    ime_set_cursor_rect(handle, 1, 2, 3, 4);
    ime_set_surrounding_text(handle, Some("文".as_bytes()), 3, 0);
    ime_set_surrounding_text(handle, None, 1, 2);
    ime_set_surrounding_text(handle, Some(&[0xff]), 1, 2);
    ime_set_content_type(handle, 4);
    ime_set_content_type(handle, 6);
    assert_eq!(ime_process_key_event(handle, 1, 2, 3, 7), 1);
    assert_eq!(ime_process_key_event(handle, 2, 2, 3, 0), 0);
    ime_reset(handle);
    ime_focus_out(handle);
    assert_eq!(ime_backend_kind(handle), 3);
    assert_eq!(ime_capabilities(handle), 0x3f);

    assert_eq!(
        *calls.lock().unwrap(),
        vec![
            "focus_in",
            "rect 1 2 3 4",
            "text \"文\" 3 0",
            "text \"\" 1 2",
            "content Url",
            "key 1 2 3 true",
            "key 2 2 3 false",
            "reset",
            "focus_out",
        ]
    );

    let mut data = stale_event_data();
    assert_eq!(ime_poll_event(handle, Some(&mut data)), 0);
    assert_eq!(data.event_type, -1);
    assert!(send_event(
        &tx,
        ImeEvent::Commit {
            text: "ok".to_string()
        }
    )
    .is_ok());
    assert_eq!(ime_poll_event(handle, None), 0);
    assert_eq!(ime_poll_event(handle, Some(&mut data)), 3);
    assert_eq!(c_text(&data), "ok");
    assert_eq!(ime_poll_event(handle, Some(&mut data)), 0);
}

fn search(answers: [bool; 3]) -> Search {
    let mut state = search_first();
    while let Search::Try(framework) = state {
        let answered = match framework {
            Framework::Fcitx5 => answers[0],
            Framework::Fcitx4 => answers[1],
            Framework::IBus => answers[2],
        };
        state = search_next(framework, answered);
    }
    state
}

#[test]
fn first_framework_to_answer_is_found() {
    assert_eq!(search([true, true, true]), Search::Found(Framework::Fcitx5));
    assert_eq!(search([false, true, true]), Search::Found(Framework::Fcitx4));
    assert_eq!(search([false, false, true]), Search::Found(Framework::IBus));
    assert_eq!(search([false, false, false]), Search::NoneFound);
}

#[test]
fn frameworks_have_names_and_kinds() {
    assert_eq!(Framework::Fcitx5.name(), "Fcitx5");
    assert_eq!(Framework::Fcitx4.name(), "Fcitx 4");
    assert_eq!(Framework::IBus.name(), "IBus");
    assert_eq!(Framework::Fcitx5.backend_kind(), BackendKind::Fcitx5);
    assert_eq!(Framework::Fcitx4.backend_kind(), BackendKind::Fcitx4);
    assert_eq!(Framework::IBus.backend_kind(), BackendKind::IBus);
}

#[test]
fn content_types_are_handed_on_only_when_known() {
    let mut seen = Vec::new();
    for value in -1..7 {
        hand_on_content_type(value, |known| seen.push(known));
    }
    assert_eq!(
        seen,
        vec![
            ContentType::Normal,
            ContentType::Password,
            ContentType::Number,
            ContentType::Phone,
            ContentType::Url,
            ContentType::Email,
        ]
    );
}

#[test]
fn texts_are_handed_on_only_when_valid() {
    let mut seen: Vec<String> = Vec::new();
    hand_on_text(None, |text| seen.push(text.to_string()));
    hand_on_text(Some("文".as_bytes()), |text| seen.push(text.to_string()));
    hand_on_text(Some(&[0xff]), |text| seen.push(text.to_string()));
    assert_eq!(seen, vec!["", "文"]);
}

#[test]
fn nothing_is_done_without_a_handle() {
    let none: Option<&ImeHandle<NotingBackend>> = None;
    with_handle(none, |_| panic!("there is no handle"));
}

#[test]
fn nothing_is_polled_without_a_record() {
    assert_eq!(poll_into(|| panic!("there is no record"), None), 0);
    let mut data = stale_event_data();
    assert_eq!(poll_into(|| Some(ImeEvent::PreeditEnd), Some(&mut data)), 2);
    assert_eq!(data.event_type, 2);
    assert_eq!(poll_into(|| None, Some(&mut data)), 0);
    assert_eq!(data.event_type, 2);
}
