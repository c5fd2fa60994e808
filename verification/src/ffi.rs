//! The calls of the C interface, on references in place of pointers: an
//! absent handle stands for a null pointer.

use vstd::prelude::*;
#[allow(unused_imports)]
use vstd::string::*;
#[allow(unused_imports)]
use vstd::utf8::*;

use crate::backend::ImeBackend;
#[allow(unused_imports)]
use crate::engine;
use crate::event_data;
use crate::event_data::{fill_event_data, ImeEventData};
use crate::handle::ImeHandle;
use crate::types::{BackendKind, ContentType, CursorRect, ImeCapabilities, ImeEvent};

verus! {

/// Why bytes are not a text.
#[verifier::external_type_specification]
#[verifier::external_body]
pub struct ExUtf8Error(core::str::Utf8Error);

/// `core::str::from_utf8` takes bytes that are valid UTF-8 as a text, and
/// turns down any other.
pub assume_specification[ core::str::from_utf8 ](v: &[u8]) -> (read: Result<
    &str,
    core::str::Utf8Error,
>)
    ensures
        read is Ok <==> valid_utf8(v@),
        read matches Ok(s) ==> s.spec_bytes() == v@,
;

// ---------------------------------------------------------------------------
// Arguments
// ---------------------------------------------------------------------------

/// The content type with the number `value`.
pub open spec fn content_type_of(value: i32) -> Option<ContentType> {
    if value == 0 {
        Some(ContentType::Normal)
    } else if value == 1 {
        Some(ContentType::Password)
    } else if value == 2 {
        Some(ContentType::Number)
    } else if value == 3 {
        Some(ContentType::Phone)
    } else if value == 4 {
        Some(ContentType::Url)
    } else if value == 5 {
        Some(ContentType::Email)
    } else {
        None
    }
}

/// The content type with the number `value`; none where the number is unknown.
pub fn content_type_from_abi(value: i32) -> (content_type: Option<ContentType>)
    ensures
        content_type == content_type_of(value),
{
    match value {
        0 => Some(ContentType::Normal),
        1 => Some(ContentType::Password),
        2 => Some(ContentType::Number),
        3 => Some(ContentType::Phone),
        4 => Some(ContentType::Url),
        5 => Some(ContentType::Email),
        _ => None,
    }
}

/// Every content type has a number, and only one.
pub proof fn content_types_have_one_number(content_type: ContentType)
    ensures
        exists|value: i32| #[trigger] content_type_of(value) == Some(content_type),
        forall|a: i32, b: i32|
            #![trigger content_type_of(a), content_type_of(b)]
            content_type_of(a) == Some(content_type) && content_type_of(b) == Some(content_type)
                ==> a == b,
{
    assert(content_type_of(0) == Some(ContentType::Normal));
    assert(content_type_of(1) == Some(ContentType::Password));
    assert(content_type_of(2) == Some(ContentType::Number));
    assert(content_type_of(3) == Some(ContentType::Phone));
    assert(content_type_of(4) == Some(ContentType::Url));
    assert(content_type_of(5) == Some(ContentType::Email));
}

/// The numbers from zero to five, and no others, stand for content types.
pub proof fn content_types_are_numbered_in_order(value: i32, content_type: Option<ContentType>)
    requires
        call_ensures(content_type_from_abi, (value,), content_type),
    ensures
        content_type is Some <==> 0 <= value <= 5,
        content_type == Some(ContentType::Normal) <==> value == 0,
        content_type == Some(ContentType::Password) <==> value == 1,
        content_type == Some(ContentType::Number) <==> value == 2,
        content_type == Some(ContentType::Phone) <==> value == 3,
        content_type == Some(ContentType::Url) <==> value == 4,
        content_type == Some(ContentType::Email) <==> value == 5,
{
}

/// The text that a C string stands for: an absent one is empty, and one that
/// is not UTF-8 is none.
pub fn text_argument<'a>(bytes: Option<&'a [u8]>) -> (text: Option<&'a str>)
    ensures
        match bytes {
            None => text == Some(""),
            Some(b) => (text is Some <==> valid_utf8(b@)) && (text matches Some(t)
                ==> t.spec_bytes() == b@),
        },
{
    match bytes {
        None => Some(""),
        Some(b) => match core::str::from_utf8(b) {
            Ok(text) => Some(text),
            Err(_) => None,
        },
    }
}

/// Hands on the text that a C string stands for, as [`text_argument`] reads
/// it. `set` has to be ready for that text alone: where there is none, it is
/// not called.
pub fn hand_on_text<F: FnOnce(&str)>(bytes: Option<&[u8]>, set: F)
    requires
        match bytes {
            None => call_requires(set, ("",)),
            Some(b) => valid_utf8(b@) ==> forall|t: &str|
                #![trigger t.spec_bytes()]
                t.spec_bytes() == b@ ==> call_requires(set, (t,)),
        },
    ensures
        match bytes {
            None => call_ensures(set, ("",), ()),
            Some(b) => valid_utf8(b@) ==> exists|t: &str|
                #![trigger t.spec_bytes()]
                t.spec_bytes() == b@ && call_ensures(set, (t,), ()),
        },
{
    if let Some(t) = text_argument(bytes) {
        set(t);
    }
}

/// Hands on the content type with the number `value`. `set` has to be ready
/// for that one alone: where the number is unknown, it is not called.
pub fn hand_on_content_type<F: FnOnce(ContentType)>(value: i32, set: F)
    requires
        content_type_of(value) matches Some(known) ==> call_requires(set, (known,)),
    ensures
        content_type_of(value) matches Some(known) ==> call_ensures(set, (known,), ()),
{
    if let Some(known) = content_type_from_abi(value) {
        set(known);
    }
}

/// Does `f` with the handle, if there is one. `f` has to be ready for that
/// handle alone: where there is none, it is not called.
pub fn with_handle<B: ImeBackend + ?Sized, F: FnOnce(&ImeHandle<B>)>(
    handle: Option<&ImeHandle<B>>,
    f: F,
)
    requires
        handle matches Some(h) ==> call_requires(f, (h,)),
    ensures
        handle matches Some(h) ==> call_ensures(f, (h,), ()),
{
    if let Some(h) = handle {
        f(h);
    }
}

// ---------------------------------------------------------------------------
// Calls
// ---------------------------------------------------------------------------

/// The text field gained the focus.
pub fn ime_focus_in<B: ImeBackend + ?Sized>(handle: Option<&ImeHandle<B>>)
    ensures
        handle matches Some(h) ==> call_ensures(B::focus_in, (&*h.backend(),), ()),
{
    with_handle(
        handle,
        |h: &ImeHandle<B>|
            ensures
                call_ensures(B::focus_in, (&*h.backend(),), ())
            { h.focus_in() },
    );
}

/// The text field lost the focus.
pub fn ime_focus_out<B: ImeBackend + ?Sized>(handle: Option<&ImeHandle<B>>)
    ensures
        handle matches Some(h) ==> call_ensures(B::focus_out, (&*h.backend(),), ()),
{
    with_handle(
        handle,
        |h: &ImeHandle<B>|
            ensures
                call_ensures(B::focus_out, (&*h.backend(),), ())
            { h.focus_out() },
    );
}

/// The cursor moved, in screen coordinates.
pub fn ime_set_cursor_rect<B: ImeBackend + ?Sized>(
    handle: Option<&ImeHandle<B>>,
    x: i32,
    y: i32,
    w: i32,
    h: i32,
)
    ensures
        handle matches Some(found) ==> call_ensures(
            B::set_cursor_rect,
            (&*found.backend(), CursorRect { x, y, width: w, height: h }),
            (),
        ),
{
    let rect = CursorRect { x, y, width: w, height: h };
    with_handle(
        handle,
        |found: &ImeHandle<B>|
            ensures
                call_ensures(B::set_cursor_rect, (&*found.backend(), rect), ())
            { found.set_cursor_rect(rect) },
    );
}

/// Whether the backend was told the text that a C string stands for, if it
/// stands for one.
pub open spec fn text_reaches<B: ImeBackend + ?Sized>(
    handle: ImeHandle<B>,
    text: Option<&[u8]>,
    cursor: i32,
    anchor: i32,
) -> bool {
    match text {
        None => call_ensures(
            B::set_surrounding_text,
            (&*handle.backend(), "", cursor, anchor),
            (),
        ),
        Some(bytes) => valid_utf8(bytes@) ==> exists|t: &str|
            #![trigger t.spec_bytes()]
            t.spec_bytes() == bytes@ && call_ensures(
                B::set_surrounding_text,
                (&*handle.backend(), t, cursor, anchor),
                (),
            ),
    }
}

/// A text that reaches the backend is the one that was given, with the offsets
/// that were given, each in its place.
pub proof fn text_reaches_as_given<B: ImeBackend + ?Sized>(
    handle: ImeHandle<B>,
    text: Option<&[u8]>,
    cursor: i32,
    anchor: i32,
)
    requires
        text_reaches(handle, text, cursor, anchor),
    ensures
        text is None ==> call_ensures(
            B::set_surrounding_text,
            (&*handle.backend(), "", cursor, anchor),
            (),
        ),
        text matches Some(bytes) ==> valid_utf8(bytes@) ==> exists|t: &str|
            #![trigger t.spec_bytes()]
            t.spec_bytes() == bytes@ && call_ensures(
                B::set_surrounding_text,
                (&*handle.backend(), t, cursor, anchor),
                (),
            ),
{
}

/// The text around the cursor, with the cursor and the selection's other end
/// as byte offsets. An absent text is empty; one that is not UTF-8 is ignored.
/// That nothing is called then is a matter of [`with_handle`] and
/// [`hand_on_text`]; the contract here leaves it unsaid.
pub fn ime_set_surrounding_text<B: ImeBackend + ?Sized>(
    handle: Option<&ImeHandle<B>>,
    text: Option<&[u8]>,
    cursor: i32,
    anchor: i32,
)
    ensures
        handle matches Some(h) ==> text_reaches(*h, text, cursor, anchor),
{
    with_handle(
        handle,
        |h: &ImeHandle<B>|
            ensures
                text_reaches(*h, text, cursor, anchor)
            { hand_on_text(
                text,
                |t: &str|
                    ensures
                        call_ensures(
                            B::set_surrounding_text,
                            (&*h.backend(), t, cursor, anchor),
                            (),
                        )
                    { h.set_surrounding_text(t, cursor, anchor) },
            ) },
    );
}

/// The number of the backend's kind; zero without a handle.
pub fn ime_backend_kind<B: ImeBackend + ?Sized>(handle: Option<&ImeHandle<B>>) -> (value: i32)
    ensures
        match handle {
            Some(h) => exists|kind: BackendKind|
                #[trigger] call_ensures(B::backend_kind, (&*h.backend(),), kind) && value
                    == kind.abi(),
            None => value == 0,
        },
{
    match handle {
        Some(h) => h.backend_kind().as_abi(),
        None => 0,
    }
}

/// The bits of the backend's capabilities; zero without a handle.
pub fn ime_capabilities<B: ImeBackend + ?Sized>(handle: Option<&ImeHandle<B>>) -> (bits: u32)
    ensures
        match handle {
            Some(h) => call_ensures(B::capabilities, (&*h.backend(),), ImeCapabilities(bits)),
            None => bits == 0,
        },
{
    match handle {
        Some(h) => h.capabilities().bits(),
        None => 0,
    }
}

/// The kind of text the field expects, by its number. Unknown numbers are
/// ignored. That nothing is called then is a matter of [`with_handle`] and
/// [`hand_on_content_type`]; the contract here leaves it unsaid.
pub fn ime_set_content_type<B: ImeBackend + ?Sized>(
    handle: Option<&ImeHandle<B>>,
    content_type: i32,
)
    ensures
        handle matches Some(h) ==> (content_type_of(content_type) matches Some(known)
            ==> call_ensures(B::set_content_type, (&*h.backend(), known), ())),
{
    with_handle(
        handle,
        |h: &ImeHandle<B>|
            ensures
                content_type_of(content_type) matches Some(known) ==> call_ensures(
                    B::set_content_type,
                    (&*h.backend(), known),
                    (),
                )
            { hand_on_content_type(
                content_type,
                |known: ContentType|
                    ensures
                        call_ensures(B::set_content_type, (&*h.backend(), known), ())
                    { h.set_content_type(known) },
            ) },
    );
}

/// Drops the composition under way.
pub fn ime_reset<B: ImeBackend + ?Sized>(handle: Option<&ImeHandle<B>>)
    ensures
        handle matches Some(h) ==> call_ensures(B::reset, (&*h.backend(),), ()),
{
    with_handle(
        handle,
        |h: &ImeHandle<B>|
            ensures
                call_ensures(B::reset, (&*h.backend(),), ())
            { h.reset() },
    );
}

/// Hands a key to the input method; any `is_release` but zero says that the
/// key went up. One where the input method took the key, zero where it did
/// not or there is no handle.
pub fn ime_process_key_event<B: ImeBackend + ?Sized>(
    handle: Option<&ImeHandle<B>>,
    keyval: u32,
    keycode: u32,
    state: u32,
    is_release: i32,
) -> (taken: i32)
    ensures
        match handle {
            Some(h) => (taken == 0 || taken == 1) && call_ensures(
                B::process_key_event,
                (&*h.backend(), keyval, keycode, state, is_release != 0),
                taken == 1,
            ),
            None => taken == 0,
        },
{
    match handle {
        Some(h) => {
            if h.process_key_event(keyval, keycode, state, is_release != 0) {
                1
            } else {
                0
            }
        },
        None => 0,
    }
}

/// Whether a record that was `before` has had `event` delivered to it, with
/// `code` returned: no event leaves the record alone.
pub open spec fn delivered(
    data: ImeEventData,
    before: ImeEventData,
    event: Option<ImeEvent>,
    code: i32,
) -> bool {
    match event {
        Some(e) => event_data::tells(data, before, e@) && code == event_data::event_code(e@),
        None => data == before && code == 0,
    }
}

/// Puts an event into a record, and returns the number of the event's kind;
/// zero where there is none.
pub fn deliver_event(event: Option<ImeEvent>, data: &mut ImeEventData) -> (code: i32)
    ensures
        delivered(*final(data), *old(data), event, code),
{
    match event {
        Some(e) => {
            fill_event_data(data, e);
            data.event_type
        },
        None => 0,
    }
}

/// What a delivery returns tells whether there was an event, and the host
/// reads just that event from the record, but for the end of a text that is
/// too long. Only a text with a zero in it is left out of the second part.
pub proof fn delivered_event_reads_back(
    data: ImeEventData,
    before: ImeEventData,
    event: Option<ImeEvent>,
    code: i32,
)
    requires
        delivered(data, before, event, code),
    ensures
        code != 0 <==> event is Some,
        event is Some ==> code == data.event_type,
        event is None ==> data == before,
        event matches Some(e) ==> event_data::event_zero_free(e@) ==> (event_data::read_event(
            data,
        ) matches Some(kept) && event_data::event_kept_of(kept, e@)),
{
    if let Some(e) = event {
        if event_data::event_zero_free(e@) {
            event_data::event_reads_back(data, before, e@);
        }
    }
}

/// Takes an event by `poll` and puts it into a record. Returns the number of
/// the event's kind; zero where none came. `poll` is called once at most, and
/// where there is no record, it is not called.
pub fn poll_into<F: FnOnce() -> Option<ImeEvent>>(
    poll: F,
    out_data: Option<&mut ImeEventData>,
) -> (code: i32)
    requires
        out_data is Some ==> call_requires(poll, ()),
    ensures
        match out_data {
            Some(data) => exists|event: Option<ImeEvent>|
                #[trigger] call_ensures(poll, (), event) && delivered(
                    *final(data),
                    *data,
                    event,
                    code,
                ),
            None => code == 0,
        },
{
    match out_data {
        Some(data) => {
            let event = poll();
            deliver_event(event, data)
        },
        None => 0,
    }
}

/// Takes the next event and puts it into a record. Returns the number of the
/// event's kind; zero where none is waiting, there is no handle, or there is
/// no record. That no event is taken where there is no record, and never more
/// than one, is a matter of [`poll_into`]; the contract here leaves it unsaid.
pub fn ime_poll_event<B: ?Sized>(
    handle: Option<&ImeHandle<B>>,
    out_data: Option<&mut ImeEventData>,
) -> (code: i32)
    ensures
        match out_data {
            Some(data) => match handle {
                Some(h) => exists|event: Option<ImeEvent>|
                    #[trigger] engine::polled(h.event_rx(), event) && delivered(
                        *final(data),
                        *data,
                        event,
                        code,
                    ),
                None => code == 0 && *final(data) == *data,
            },
            None => code == 0,
        },
{
    match handle {
        Some(h) => poll_into(
            || -> (event: Option<ImeEvent>)
                ensures
                    engine::polled(h.event_rx(), event)
                { h.poll_event() },
            out_data,
        ),
        None => 0,
    }
}

} // verus!
