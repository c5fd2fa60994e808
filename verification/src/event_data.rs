//! Events as the C interface hands them out: a record of plain numbers with a
//! buffer of bytes for the text.

use vstd::prelude::*;
use vstd::utf8::*;
#[allow(unused_imports)]
use vstd::string::*;

#[allow(unused_imports)]
use crate::text;
#[allow(unused_imports)]
use crate::types::{EventView, ImeEvent};

verus! {

/// The most bytes of text that the buffer takes, one being kept for the zero
/// at the end.
pub const TEXT_ROOM: usize = 2047;

/// An event as the host reads it.
pub struct ImeEventData {
    /// 1 = preedit, 2 = end of preedit, 3 = commit, 4 = delete surrounding
    /// text, 5 = forward key; 0 where there is no event.
    pub event_type: i32,
    /// The text of a preedit or a commit in UTF-8, with a zero after it.
    pub text: [u8; 2048],
    /// Where the preedit's cursor begins, in characters.
    pub cursor_begin: i32,
    /// Where the preedit's cursor ends, in characters.
    pub cursor_end: i32,
    /// The characters to delete before the cursor, or the key forwarded.
    pub param1: i32,
    /// The characters to delete after the cursor, or the state of the key.
    pub param2: i32,
}

// ---------------------------------------------------------------------------
// Text
// ---------------------------------------------------------------------------

/// Whether a text cut after `len` of its bytes keeps as much as goes into
/// `room` bytes without splitting a character.
pub open spec fn is_cut(bytes: Seq<u8>, room: int, len: int) -> bool {
    &&& 0 <= len <= bytes.len()
    &&& len <= room
    &&& is_char_boundary(bytes, len)
    &&& forall|i: int|
        len < i <= bytes.len() && i <= room ==> !#[trigger] is_char_boundary(bytes, i)
}

/// Whether a buffer that held `before` now starts with `text`, cut to fit,
/// and a zero. What comes after the zero is left over.
pub open spec fn wrote_text(buf: Seq<u8>, before: Seq<u8>, text: Seq<char>) -> bool {
    exists|len: int|
        {
            &&& #[trigger] is_cut(encode_utf8(text), TEXT_ROOM as int, len)
            &&& buf == encode_utf8(text).take(len) + seq![0u8] + before.skip(len + 1)
        }
}

/// Writes `text` and a zero to the start of `buf`. A text that is too long is
/// cut between two characters, so that the buffer always holds valid UTF-8.
pub fn write_text(buf: &mut [u8; 2048], text: &str)
    ensures
        wrote_text(final(buf)@, old(buf)@, text@),
{
    let bytes = text.as_bytes();
    let ghost before = buf@;
    let ghost encoded = encode_utf8(text@);
    assert(bytes@ == encoded);
    proof {
        encode_utf8_valid_utf8(text@);
        is_char_boundary_start_end_of_seq(encoded);
    }
    let mut len: usize = if bytes.len() < TEXT_ROOM {
        bytes.len()
    } else {
        TEXT_ROOM
    };
    while len > 0 && !text.is_char_boundary(len)
        invariant
            text.spec_bytes() == encoded,
            len <= encoded.len(),
            len <= TEXT_ROOM,
            forall|i: int|
                len < i <= encoded.len() && i <= TEXT_ROOM ==> !#[trigger] is_char_boundary(
                    encoded,
                    i,
                ),
        decreases len,
    {
        len = len - 1;
    }
    let mut i: usize = 0;
    while i < len
        invariant
            i <= len <= bytes.len(),
            len <= TEXT_ROOM,
            before.len() == 2048,
            buf@ =~= bytes@.take(i as int) + before.skip(i as int),
        decreases len - i,
    {
        buf[i] = bytes[i];
        i = i + 1;
    }
    buf[len] = 0;
    assert(is_cut(encoded, TEXT_ROOM as int, len as int));
    assert(buf@ =~= encoded.take(len as int) + seq![0u8] + before.skip(len + 1));
}

/// The bytes before the first zero.
pub open spec fn until_zero(buf: Seq<u8>) -> Seq<u8>
    decreases buf.len(),
{
    if buf.len() == 0 || buf[0] == 0 {
        Seq::empty()
    } else {
        seq![buf[0]] + until_zero(buf.drop_first())
    }
}

/// Whether a text is free of the zero character, which ends a text in C.
pub open spec fn zero_free(text: Seq<char>) -> bool {
    forall|i: int| 0 <= i < text.len() ==> #[trigger] text[i] != '\0'
}

/// The text that the host reads from a buffer.
pub open spec fn read_text(buf: Seq<u8>) -> Seq<char> {
    decode_utf8(until_zero(buf))
}

/// Whether `kept` is what a buffer can hold of `text`: all of it where it
/// fits, and otherwise its start, with less than one character's room left.
pub open spec fn kept_of(kept: Seq<char>, text: Seq<char>) -> bool {
    &&& kept.is_prefix_of(text)
    &&& text::byte_len(text) <= TEXT_ROOM ==> kept == text
    &&& text::byte_len(text) > TEXT_ROOM ==> TEXT_ROOM - 3 <= text::byte_len(kept) <= TEXT_ROOM
}

proof fn lemma_until_zero(head: Seq<u8>, rest: Seq<u8>)
    requires
        forall|i: int| 0 <= i < head.len() ==> #[trigger] head[i] != 0,
    ensures
        until_zero(head + rest) == head + until_zero(rest),
    decreases head.len(),
{
    if head.len() == 0 {
        assert(head + rest =~= rest);
        assert(until_zero(head + rest) =~= head + until_zero(rest));
    } else {
        let tail = head.drop_first();
        assert forall|i: int| 0 <= i < tail.len() implies #[trigger] tail[i] != 0 by {
            assert(tail[i] == head[i + 1]);
        }
        lemma_until_zero(tail, rest);
        assert((head + rest).drop_first() =~= tail + rest);
        assert(until_zero(head + rest) =~= head + until_zero(rest));
    }
}

proof fn lemma_char_zero_free(character: char)
    requires
        character != '\0',
    ensures
        forall|i: int|
            0 <= i < encode_scalar(character as u32).len() ==> #[trigger] encode_scalar(
                character as u32,
            )[i] != 0,
{
    let c = character as u32;
    assert(0 < c && c <= 0x7f ==> (c & 0x7f) as u8 != 0) by (bit_vector);
    assert(forall|x: u8| #![auto] 0x80 | x != 0) by (bit_vector);
    assert(forall|x: u8| #![auto] 0xc0 | x != 0) by (bit_vector);
    assert(forall|x: u8| #![auto] 0xe0 | x != 0) by (bit_vector);
    assert(forall|x: u8| #![auto] 0xf0 | x != 0) by (bit_vector);
}

proof fn lemma_encoded_zero_free(text: Seq<char>)
    requires
        zero_free(text),
    ensures
        forall|i: int| 0 <= i < encode_utf8(text).len() ==> #[trigger] encode_utf8(text)[i] != 0,
    decreases text.len(),
{
    if text.len() > 0 {
        let head = encode_scalar(text[0] as u32);
        let tail = text.drop_first();
        assert forall|i: int| 0 <= i < tail.len() implies #[trigger] tail[i] != '\0' by {
            assert(tail[i] == text[i + 1]);
        }
        lemma_encoded_zero_free(tail);
        lemma_char_zero_free(text[0]);
        assert(encode_utf8(text) == head + encode_utf8(tail));
        assert forall|i: int| 0 <= i < encode_utf8(text).len() implies #[trigger] encode_utf8(
            text,
        )[i] != 0 by {
            if i >= head.len() {
                assert(encode_utf8(text)[i] == encode_utf8(tail)[i - head.len()]);
            } else {
                assert(encode_utf8(text)[i] == head[i]);
            }
        }
    }
}

proof fn lemma_until_zero_valid(text: Seq<char>, rest: Seq<u8>)
    ensures
        valid_utf8(until_zero(encode_utf8(text) + seq![0u8] + rest)),
    decreases text.len(),
{
    let buf = encode_utf8(text) + seq![0u8] + rest;
    if text.len() == 0 {
        assert(buf[0] == 0);
    } else if text[0] == '\0' {
        assert(0u32 & 0x7f == 0) by (bit_vector);
        assert(buf[0] == 0);
    } else {
        let head = encode_scalar(text[0] as u32);
        let tail = encode_utf8(text.drop_first()) + seq![0u8] + rest;
        lemma_char_zero_free(text[0]);
        lemma_until_zero_valid(text.drop_first(), rest);
        assert(buf =~= head + tail);
        lemma_until_zero(head, tail);
        let single = seq![text[0]];
        assert(encode_utf8(single.drop_first()) =~= Seq::empty());
        assert(encode_utf8(single) =~= head);
        encode_utf8_valid_utf8(single);
        valid_utf8_concat(head, until_zero(tail));
    }
}

/// No character is longer than four bytes, so a boundary is never far.
proof fn lemma_boundary_near(bytes: Seq<u8>, index: int)
    requires
        valid_utf8(bytes),
        0 <= index <= bytes.len(),
    ensures
        exists|i: int|
            0 <= i <= index && index - 3 <= i && #[trigger] is_char_boundary(bytes, i),
    decreases bytes.len(),
{
    if index == 0 {
        assert(is_char_boundary(bytes, 0));
    } else if index < length_of_first_scalar(bytes) {
        assert(is_char_boundary(bytes, 0));
    } else {
        let width = length_of_first_scalar(bytes);
        let tail = pop_first_scalar(bytes);
        lemma_boundary_near(tail, index - width);
        let i = choose|i: int|
            0 <= i <= index - width && index - width - 3 <= i && #[trigger] is_char_boundary(
                tail,
                i,
            );
        assert(is_char_boundary(bytes, i + width));
    }
}

/// The buffer always holds valid UTF-8 up to its first zero, which is among
/// its first bytes, whatever was written and whatever it held before.
pub proof fn written_text_is_valid_utf8(buf: Seq<u8>, before: Seq<u8>, text: Seq<char>)
    requires
        wrote_text(buf, before, text),
    ensures
        valid_utf8(until_zero(buf)),
        exists|i: int| 0 <= i <= TEXT_ROOM && #[trigger] buf[i] == 0,
{
    let bytes = encode_utf8(text);
    let len = choose|len: int|
        #[trigger] is_cut(bytes, TEXT_ROOM as int, len) && buf == bytes.take(len) + seq![0u8]
            + before.skip(len + 1);
    encode_utf8_valid_utf8(text);
    valid_utf8_split(bytes, len);
    assert(bytes.take(len) =~= bytes.subrange(0, len));
    decode_utf8_encode_utf8(bytes.take(len));
    lemma_until_zero_valid(decode_utf8(bytes.take(len)), before.skip(len + 1));
    assert(buf[len] == 0);
}

/// The buffer starts with the bytes of the text, whatever they are: with all of
/// them where they fit, and otherwise with as many as fit but for less than a
/// character. A zero follows, and what comes after it is left as it was.
pub proof fn written_bytes_are_the_texts(buf: Seq<u8>, before: Seq<u8>, text: Seq<char>) -> (len:
    int)
    requires
        wrote_text(buf, before, text),
        before.len() == 2048,
    ensures
        buf.len() == before.len(),
        0 <= len <= 2047,
        len <= text::byte_len(text),
        text::byte_len(text) <= 2047 ==> len == text::byte_len(text),
        text::byte_len(text) > 2047 ==> len > 2047 - 4,
        forall|i: int| 0 <= i < len ==> #[trigger] buf[i] == encode_utf8(text)[i],
        buf[len] == 0,
        forall|i: int| len < i < buf.len() ==> #[trigger] buf[i] == before[i],
        valid_utf8(buf.take(len)),
{
    let bytes = encode_utf8(text);
    let len = choose|len: int|
        #[trigger] is_cut(bytes, TEXT_ROOM as int, len) && buf == bytes.take(len) + seq![0u8]
            + before.skip(len + 1);
    encode_utf8_valid_utf8(text);
    is_char_boundary_start_end_of_seq(bytes);
    valid_utf8_split(bytes, len);
    assert(buf.take(len) =~= bytes.subrange(0, len));
    if bytes.len() <= TEXT_ROOM {
        assert(is_char_boundary(bytes, bytes.len() as int));
    } else {
        lemma_boundary_near(bytes, TEXT_ROOM as int);
    }
    len
}

/// What the host reads from the buffer is the text written to it, cut between
/// two characters where it was too long, provided that the text itself holds
/// no zero.
pub proof fn written_text_reads_back(buf: Seq<u8>, before: Seq<u8>, text: Seq<char>)
    requires
        wrote_text(buf, before, text),
        zero_free(text),
    ensures
        valid_utf8(until_zero(buf)),
        kept_of(read_text(buf), text),
{
    let bytes = encode_utf8(text);
    let len = choose|len: int|
        #[trigger] is_cut(bytes, TEXT_ROOM as int, len) && buf == bytes.take(len) + seq![0u8]
            + before.skip(len + 1);
    lemma_encoded_zero_free(text);
    assert forall|i: int| 0 <= i < len implies #[trigger] bytes.take(len)[i] != 0 by {
        assert(bytes.take(len)[i] == bytes[i]);
    }
    let rest = seq![0u8] + before.skip(len + 1);
    lemma_until_zero(bytes.take(len), rest);
    assert(buf =~= bytes.take(len) + rest);
    assert(until_zero(buf) =~= bytes.take(len));
    encode_utf8_valid_utf8(text);
    encode_utf8_decode_utf8(text);
    is_char_boundary_start_end_of_seq(bytes);
    assert(bytes.take(len) =~= bytes.subrange(0, len));
    valid_utf8_split(bytes, len);
    decode_utf8_split(bytes, len);
    decode_utf8_encode_utf8(bytes.take(len));
    let kept = decode_utf8(bytes.take(len));
    assert(text == kept + decode_utf8(bytes.subrange(len, bytes.len() as int)));
    assert(kept =~= text.subrange(0, kept.len() as int));
    if bytes.len() <= TEXT_ROOM {
        assert(is_char_boundary(bytes, bytes.len() as int));
        assert(len == bytes.len());
        assert(bytes.take(len) =~= bytes);
    } else {
        lemma_boundary_near(bytes, TEXT_ROOM as int);
    }
}

// ---------------------------------------------------------------------------
// Events
// ---------------------------------------------------------------------------

/// The number by which the C interface names the kind of an event.
pub open spec fn event_code(event: EventView) -> i32 {
    match event {
        EventView::Preedit { .. } => 1,
        EventView::PreeditEnd => 2,
        EventView::Commit { .. } => 3,
        EventView::DeleteSurroundingText { .. } => 4,
        EventView::ForwardKey { .. } => 5,
    }
}

/// Whether a record that was `before` now tells of `event`. Numbers that the
/// event does not have are zero, and so is the first byte of a text that it
/// does not have.
pub open spec fn tells(data: ImeEventData, before: ImeEventData, event: EventView) -> bool {
    &&& data.event_type == event_code(event)
    &&& match event {
        EventView::Preedit { text, cursor_begin, cursor_end } => {
            &&& wrote_text(data.text@, before.text@, text)
            &&& data.cursor_begin == cursor_begin
            &&& data.cursor_end == cursor_end
            &&& data.param1 == 0
            &&& data.param2 == 0
        },
        EventView::PreeditEnd => {
            &&& data.text@ == before.text@.update(0, 0)
            &&& data.cursor_begin == 0
            &&& data.cursor_end == 0
            &&& data.param1 == 0
            &&& data.param2 == 0
        },
        EventView::Commit { text } => {
            &&& wrote_text(data.text@, before.text@, text)
            &&& data.cursor_begin == 0
            &&& data.cursor_end == 0
            &&& data.param1 == 0
            &&& data.param2 == 0
        },
        EventView::DeleteSurroundingText { before: count_before, after: count_after } => {
            &&& data.text@ == before.text@.update(0, 0)
            &&& data.cursor_begin == 0
            &&& data.cursor_end == 0
            &&& data.param1 == count_before as i32
            &&& data.param2 == count_after as i32
        },
        EventView::ForwardKey { keyval, state } => {
            &&& data.text@ == before.text@.update(0, 0)
            &&& data.cursor_begin == 0
            &&& data.cursor_end == 0
            &&& data.param1 == keyval as i32
            &&& data.param2 == state as i32
        },
    }
}

proof fn lemma_wrote_over_zeroed(buf: Seq<u8>, before: Seq<u8>, text: Seq<char>)
    requires
        before.len() == 2048,
        wrote_text(buf, before.update(0, 0), text),
    ensures
        wrote_text(buf, before, text),
{
    let len = choose|len: int|
        #[trigger] is_cut(encode_utf8(text), TEXT_ROOM as int, len) && buf == encode_utf8(
            text,
        ).take(len) + seq![0u8] + before.update(0, 0).skip(len + 1);
    assert(before.update(0, 0).skip(len + 1) =~= before.skip(len + 1));
}

/// Puts an event into a record, over whatever the record held.
pub fn fill_event_data(data: &mut ImeEventData, event: ImeEvent)
    ensures
        tells(*final(data), *old(data), event@),
{
    let ghost before = data.text@;
    data.event_type = 0;
    data.cursor_begin = 0;
    data.cursor_end = 0;
    data.param1 = 0;
    data.param2 = 0;
    data.text[0] = 0;
    match event {
        ImeEvent::Preedit { text, cursor_begin, cursor_end } => {
            data.event_type = 1;
            write_text(&mut data.text, text.as_str());
            data.cursor_begin = cursor_begin;
            data.cursor_end = cursor_end;
            proof {
                lemma_wrote_over_zeroed(data.text@, before, text@);
            }
        },
        ImeEvent::PreeditEnd => {
            data.event_type = 2;
        },
        ImeEvent::Commit { text } => {
            data.event_type = 3;
            write_text(&mut data.text, text.as_str());
            proof {
                lemma_wrote_over_zeroed(data.text@, before, text@);
            }
        },
        ImeEvent::DeleteSurroundingText { before, after } => {
            data.event_type = 4;
            data.param1 = before as i32;
            data.param2 = after as i32;
        },
        ImeEvent::ForwardKey { keyval, state } => {
            data.event_type = 5;
            data.param1 = keyval as i32;
            data.param2 = state.0 as i32;
        },
    }
}

/// The event that the host reads from a record.
pub open spec fn read_event(data: ImeEventData) -> Option<EventView> {
    if data.event_type == 1 {
        Some(
            EventView::Preedit {
                text: read_text(data.text@),
                cursor_begin: data.cursor_begin,
                cursor_end: data.cursor_end,
            },
        )
    } else if data.event_type == 2 {
        Some(EventView::PreeditEnd)
    } else if data.event_type == 3 {
        Some(EventView::Commit { text: read_text(data.text@) })
    } else if data.event_type == 4 {
        Some(
            EventView::DeleteSurroundingText {
                before: data.param1 as u32,
                after: data.param2 as u32,
            },
        )
    } else if data.event_type == 5 {
        Some(EventView::ForwardKey { keyval: data.param1 as u32, state: data.param2 as u32 })
    } else {
        None
    }
}

/// Whether an event is `event`, but for the end of a text that is too long.
pub open spec fn event_kept_of(kept: EventView, event: EventView) -> bool {
    match event {
        EventView::Preedit { text, cursor_begin, cursor_end } => {
            kept matches EventView::Preedit { text: t, cursor_begin: b, cursor_end: e }
                && kept_of(t, text) && b == cursor_begin && e == cursor_end
        },
        EventView::Commit { text } => {
            kept matches EventView::Commit { text: t } && kept_of(t, text)
        },
        _ => kept == event,
    }
}

/// The text of an event, if it has one, is free of the zero character.
pub open spec fn event_zero_free(event: EventView) -> bool {
    match event {
        EventView::Preedit { text, .. } => zero_free(text),
        EventView::Commit { text } => zero_free(text),
        _ => true,
    }
}

/// The host reads from a record the event that was put there, whatever the
/// record held before; only a text that is too long loses its end, and only a
/// text with a zero in it is left out of this.
pub proof fn event_reads_back(data: ImeEventData, before: ImeEventData, event: EventView)
    requires
        tells(data, before, event),
        event_zero_free(event),
    ensures
        read_event(data) matches Some(kept) && event_kept_of(kept, event),
{
    match event {
        EventView::Preedit { text, .. } => {
            written_text_reads_back(data.text@, before.text@, text);
        },
        EventView::Commit { text } => {
            written_text_reads_back(data.text@, before.text@, text);
        },
        EventView::DeleteSurroundingText { before: count_before, after: count_after } => {
            assert((count_before as i32) as u32 == count_before) by (bit_vector);
            assert((count_after as i32) as u32 == count_after) by (bit_vector);
        },
        EventView::ForwardKey { keyval, state } => {
            assert((keyval as i32) as u32 == keyval) by (bit_vector);
            assert((state as i32) as u32 == state) by (bit_vector);
        },
        EventView::PreeditEnd => {},
    }
}

/// The number of an event's kind is none of the others' and never zero, and
/// what the event does not have is zero or empty in the record.
pub proof fn records_hold_nothing_else(data: ImeEventData, before: ImeEventData, event: EventView)
    requires
        tells(data, before, event),
    ensures
        event is Preedit <==> data.event_type == 1,
        event is PreeditEnd <==> data.event_type == 2,
        event is Commit <==> data.event_type == 3,
        event is DeleteSurroundingText <==> data.event_type == 4,
        event is ForwardKey <==> data.event_type == 5,
        !(event is Preedit) ==> data.cursor_begin == 0 && data.cursor_end == 0,
        !(event is DeleteSurroundingText || event is ForwardKey) ==> data.param1 == 0 && data.param2
            == 0,
        !(event is Preedit || event is Commit) ==> read_text(data.text@).len() == 0 && (forall|
            i: int,
        |
            0 < i < 2048 ==> #[trigger] data.text@[i] == before.text@[i]),
{
    if !(event is Preedit || event is Commit) {
        assert(data.text@[0] == 0);
        assert(until_zero(data.text@) =~= Seq::empty());
    }
}

/// The cursor of a preedit, the counts of a deletion and the key and state of a
/// forwarded key reach the host as they are.
pub proof fn records_keep_the_numbers(data: ImeEventData, before: ImeEventData, event: EventView)
    requires
        tells(data, before, event),
    ensures
        event matches EventView::Preedit { cursor_begin, cursor_end, .. } ==> data.cursor_begin
            == cursor_begin && data.cursor_end == cursor_end,
        event matches EventView::DeleteSurroundingText { before: b, after: a } ==> data.param1 as u32
            == b && data.param2 as u32 == a,
        event matches EventView::ForwardKey { keyval, state } ==> data.param1 as u32 == keyval
            && data.param2 as u32 == state,
{
    match event {
        EventView::DeleteSurroundingText { before: b, after: a } => {
            assert((b as i32) as u32 == b) by (bit_vector);
            assert((a as i32) as u32 == a) by (bit_vector);
        },
        EventView::ForwardKey { keyval, state } => {
            assert((keyval as i32) as u32 == keyval) by (bit_vector);
            assert((state as i32) as u32 == state) by (bit_vector);
        },
        _ => {},
    }
}

/// The record of an event that has a text starts with the bytes of that text,
/// whatever they are, as far as they fit.
pub proof fn records_start_with_the_text(
    data: ImeEventData,
    before: ImeEventData,
    event: EventView,
    text: Seq<char>,
) -> (len: int)
    requires
        tells(data, before, event),
        event is Preedit || event is Commit,
        event matches EventView::Preedit { text: t, .. } ==> t == text,
        event matches EventView::Commit { text: t } ==> t == text,
    ensures
        0 <= len <= 2047,
        text::byte_len(text) <= 2047 ==> len == text::byte_len(text),
        text::byte_len(text) > 2047 ==> len > 2047 - 4,
        len <= text::byte_len(text),
        forall|i: int| 0 <= i < len ==> #[trigger] data.text@[i] == encode_utf8(text)[i],
        data.text@[len] == 0,
        forall|i: int| len < i < 2048 ==> #[trigger] data.text@[i] == before.text@[i],
{
    written_bytes_are_the_texts(data.text@, before.text@, text)
}

} // verus!
