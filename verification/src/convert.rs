//! Conversions that the frameworks have in common: from the arguments of
//! their signals to events, and from the host's calls to their arguments.

use vstd::prelude::*;
#[allow(unused_imports)]
use vstd::string::*;

use crate::types::{EventView, ImeEvent, KeyState};

verus! {

/// How long a key waits for the input method's answer.
pub const KEY_REPLY_TIMEOUT_MS: u64 = 200;

// ---------------------------------------------------------------------------
// Composed text
// ---------------------------------------------------------------------------

/// What a change of the composed text means to the host: an empty text ends
/// the composition, any other is shown with the cursor in it.
pub open spec fn preedit_view(text: Seq<char>, cursor: i32) -> EventView {
    if text.len() == 0 {
        EventView::PreeditEnd
    } else {
        EventView::Preedit { text, cursor_begin: cursor, cursor_end: cursor }
    }
}

/// The event for a change of the composed text.
pub fn preedit_event(text: String, cursor: i32) -> (event: ImeEvent)
    ensures
        event@ == preedit_view(text@, cursor),
{
    if text.as_str().is_empty() {
        ImeEvent::PreeditEnd
    } else {
        ImeEvent::Preedit { text, cursor_begin: cursor, cursor_end: cursor }
    }
}

/// A change of the composed text ends the composition just where the text is
/// empty. Otherwise the host is shown the text itself, with both ends of the
/// cursor where the framework puts it.
pub proof fn preedit_shows_the_text(text: Seq<char>, cursor: i32)
    ensures
        preedit_view(text, cursor) is PreeditEnd <==> text.len() == 0,
        preedit_view(text, cursor) is Preedit <==> text.len() > 0,
        preedit_view(text, cursor) matches EventView::Preedit { text: t, cursor_begin, cursor_end }
            ==> t == text && cursor_begin == cursor && cursor_end == cursor,
{
}

/// The texts of formatted segments, one after the other.
pub open spec fn segments_text(segments: Seq<(String, i32)>) -> Seq<char>
    decreases segments.len(),
{
    if segments.len() == 0 {
        Seq::empty()
    } else {
        segments_text(segments.drop_last()) + segments.last().0@
    }
}

/// Joins the texts of formatted segments; the formats are dropped.
pub fn join_segments(segments: &[(String, i32)]) -> (text: String)
    ensures
        text@ == segments_text(segments@),
{
    let mut text = String::new();
    let mut i: usize = 0;
    while i < segments.len()
        invariant
            i <= segments.len(),
            text@ == segments_text(segments@.take(i as int)),
        decreases segments.len() - i,
    {
        text.append(segments[i].0.as_str());
        assert(segments@.take(i + 1).drop_last() =~= segments@.take(i as int));
        i = i + 1;
    }
    assert(segments@.take(i as int) =~= segments@);
    text
}

/// How many characters the segments before number `i` hold.
pub open spec fn start_of_segment(segments: Seq<(String, i32)>, i: int) -> nat
    decreases i,
{
    if i <= 0 {
        0
    } else {
        start_of_segment(segments, i - 1) + segments[i - 1].0@.len()
    }
}

proof fn lemma_segment_starts(a: Seq<(String, i32)>, b: Seq<(String, i32)>, i: int)
    requires
        0 <= i <= a.len(),
        i <= b.len(),
        forall|j: int| 0 <= j < i ==> (#[trigger] a[j]).0@ == b[j].0@,
    ensures
        start_of_segment(a, i) == start_of_segment(b, i),
    decreases i,
{
    if i > 0 {
        lemma_segment_starts(a, b, i - 1);
        assert(a[i - 1].0@ == b[i - 1].0@);
    }
}

proof fn lemma_segments_stand(segments: Seq<(String, i32)>)
    ensures
        segments_text(segments).len() == start_of_segment(segments, segments.len() as int),
        forall|i: int|
            #![trigger segments[i]]
            0 <= i < segments.len() ==> start_of_segment(segments, i) + segments[i].0@.len()
                <= segments_text(segments).len(),
        forall|i: int, k: int|
            #![trigger segments[i].0@[k]]
            0 <= i < segments.len() && 0 <= k < segments[i].0@.len() ==> segments_text(
                segments,
            )[start_of_segment(segments, i) + k] == segments[i].0@[k],
    decreases segments.len(),
{
    let text = segments_text(segments);
    if segments.len() > 0 {
        let front = segments.drop_last();
        let n = segments.len() - 1;
        lemma_segments_stand(front);
        assert forall|i: int| 0 <= i <= n implies #[trigger] start_of_segment(front, i)
            == start_of_segment(segments, i) by {
            lemma_segment_starts(front, segments, i);
        }
        assert(start_of_segment(front, n) == start_of_segment(segments, n));
        assert(text.len() == segments_text(front).len() + segments[n].0@.len());
        assert forall|i: int|
            #![trigger segments[i]]
            0 <= i < segments.len() implies start_of_segment(segments, i) + segments[i].0@.len()
            <= text.len() by {
            if i < n {
                assert(front[i] == segments[i]);
                assert(start_of_segment(front, i) == start_of_segment(segments, i));
            }
        }
        assert forall|i: int, k: int|
            #![trigger segments[i].0@[k]]
            0 <= i < segments.len() && 0 <= k < segments[i].0@.len() implies text[start_of_segment(
            segments,
            i,
        ) + k] == segments[i].0@[k] by {
            if i < n {
                assert(front[i] == segments[i]);
                assert(front[i].0@[k] == segments[i].0@[k]);
                assert(start_of_segment(front, i) == start_of_segment(segments, i));
            }
        }
    }
}

/// The composed text holds every segment: it is as long as all of them
/// together, and each stands right after those before it.
pub proof fn segments_stand_in_order(segments: Seq<(String, i32)>, i: int)
    requires
        0 <= i < segments.len(),
    ensures
        segments_text(segments).len() == start_of_segment(segments, segments.len() as int),
        start_of_segment(segments, i) + segments[i].0@.len() <= segments_text(segments).len(),
        segments_text(segments).subrange(
            start_of_segment(segments, i) as int,
            (start_of_segment(segments, i) + segments[i].0@.len()) as int,
        ) == segments[i].0@,
{
    lemma_segments_stand(segments);
    let part = segments_text(segments).subrange(
        start_of_segment(segments, i) as int,
        (start_of_segment(segments, i) + segments[i].0@.len()) as int,
    );
    assert forall|k: int| 0 <= k < segments[i].0@.len() implies #[trigger] part[k]
        == segments[i].0@[k] by {
        assert(segments[i].0@[k] == segments[i].0@[k]);
    }
    assert(part =~= segments[i].0@);
}

/// The formats have no part in the composed text: segments with the same texts
/// give the same text.
pub proof fn formats_do_not_matter(a: Seq<(String, i32)>, b: Seq<(String, i32)>)
    requires
        a.len() == b.len(),
        forall|i: int| 0 <= i < a.len() ==> (#[trigger] a[i]).0@ == b[i].0@,
    ensures
        segments_text(a) == segments_text(b),
    decreases a.len(),
{
    if a.len() > 0 {
        assert(a.last().0@ == b.last().0@) by {
            assert(a[a.len() - 1].0@ == b[a.len() - 1].0@);
        }
        assert forall|i: int| 0 <= i < a.len() - 1 implies (#[trigger] a.drop_last()[i]).0@
            == b.drop_last()[i].0@ by {
            assert(a[i].0@ == b[i].0@);
        }
        formats_do_not_matter(a.drop_last(), b.drop_last());
    }
}

/// Segments that come in two parts give the texts of the parts, one after the
/// other.
pub proof fn segments_join_piecewise(a: Seq<(String, i32)>, b: Seq<(String, i32)>)
    ensures
        segments_text(a + b) == segments_text(a) + segments_text(b),
    decreases b.len(),
{
    if b.len() == 0 {
        assert(a + b =~= a);
        assert(segments_text(a + b) =~= segments_text(a) + segments_text(b));
    } else {
        segments_join_piecewise(a, b.drop_last());
        assert((a + b).drop_last() =~= a + b.drop_last());
        assert((a + b).last() == b.last());
        assert(segments_text(a + b) =~= segments_text(a) + segments_text(b));
    }
}

// ---------------------------------------------------------------------------
// Keys
// ---------------------------------------------------------------------------

/// A modifier mask with the release flag put in where the key went up.
pub open spec fn key_state(state: u32, is_release: bool) -> u32 {
    if is_release {
        state | KeyState::RELEASE
    } else {
        state
    }
}

/// A modifier mask with the release flag put in where the key went up.
pub fn encode_release(state: u32, is_release: bool) -> (encoded: u32)
    ensures
        encoded == key_state(state, is_release),
{
    if is_release {
        state | KeyState::RELEASE
    } else {
        state
    }
}

/// The release flag says which way the key went, and the rest of the mask
/// stays what it was, provided that the flag was free.
pub proof fn release_flag_reads_back(state: u32, is_release: bool)
    requires
        state & KeyState::RELEASE == 0,
    ensures
        (key_state(state, is_release) & KeyState::RELEASE != 0) == is_release,
        key_state(state, is_release) & !KeyState::RELEASE == state,
{
    assert(state & 0x4000_0000 == 0 ==> (state | 0x4000_0000) & 0x4000_0000 != 0 && (state
        | 0x4000_0000) & !0x4000_0000u32 == state && state & !0x4000_0000u32 == state)
        by (bit_vector);
}

/// A key that goes down keeps its mask as it is. One that goes up has the
/// release flag in it, and the rest of the mask stays what it was.
pub proof fn release_leaves_modifiers_alone(state: u32, is_release: bool)
    ensures
        !is_release ==> key_state(state, is_release) == state,
        is_release ==> key_state(state, is_release) & 0x4000_0000 == 0x4000_0000,
        key_state(state, is_release) & 0xbfff_ffff == state & 0xbfff_ffff,
{
    assert((state | 0x4000_0000) & 0x4000_0000 == 0x4000_0000) by (bit_vector);
    assert((state | 0x4000_0000) & 0xbfff_ffff == state & 0xbfff_ffff) by (bit_vector);
}

/// The answer of an input method to a key.
pub enum KeyReply<T> {
    /// It answered.
    Answered(T),
    /// The call failed.
    Failed,
    /// No answer came in time.
    TimedOut,
}

// ---------------------------------------------------------------------------
// Offsets into the surrounding text
// ---------------------------------------------------------------------------

/// A byte offset as the frameworks take it: negative ones count as zero.
pub open spec fn offset_arg(offset: i32) -> u32 {
    if offset < 0 {
        0
    } else {
        offset as u32
    }
}

/// A byte offset as the frameworks take it: negative ones count as zero.
pub fn clamp_offset(offset: i32) -> (arg: u32)
    ensures
        arg == offset_arg(offset),
{
    if offset < 0 {
        0
    } else {
        offset as u32
    }
}

/// An offset that is not negative is handed on as it is, any other as the start
/// of the text.
pub proof fn offsets_are_handed_on(offset: i32)
    ensures
        offset >= 0 ==> offset_arg(offset) == offset,
        offset <= 0 ==> offset_arg(offset) == 0,
{
}

/// Whether the bounds of a deletion fit their numbers.
pub open spec fn deletion_in_range(offset: i32, count: u32) -> bool {
    offset + count <= u32::MAX
}

/// A request to delete `count` characters from `offset` on, seen from the
/// cursor: as many before it as the offset is negative, and what reaches
/// past it after it.
pub open spec fn deletion_view(offset: i32, count: u32) -> EventView {
    EventView::DeleteSurroundingText {
        before: if offset < 0 {
            (-offset) as u32
        } else {
            0
        },
        after: if offset + count > 0 {
            (offset + count) as u32
        } else {
            0
        },
    }
}

/// Whether the bounds of a deletion fit their numbers.
pub fn deletion_fits(offset: i32, count: u32) -> (fits: bool)
    ensures
        fits == deletion_in_range(offset, count),
{
    offset as i64 + count as i64 <= u32::MAX as i64
}

/// The event for a request to delete text around the cursor.
pub fn deletion_event(offset: i32, count: u32) -> (event: ImeEvent)
    requires
        deletion_in_range(offset, count),
    ensures
        event@ == deletion_view(offset, count),
{
    let start: i64 = -(offset as i64);
    let end: i64 = offset as i64 + count as i64;
    let before: u32 = if start > 0 { start as u32 } else { 0 };
    let after: u32 = if end > 0 { end as u32 } else { 0 };
    ImeEvent::DeleteSurroundingText { before, after }
}

/// A deletion that starts at or before the cursor and reaches it takes away
/// just as many characters as were asked for.
pub proof fn deletion_across_cursor_keeps_count(offset: i32, count: u32)
    requires
        offset <= 0 <= offset + count,
    ensures
        deletion_view(offset, count) matches EventView::DeleteSurroundingText { before, after }
            && before + after == count,
{
}

/// The characters that the host deletes, from `before` characters before the
/// cursor up to `after` characters after it, are just those that the framework
/// named, provided that these start at or before the cursor and reach it.
pub proof fn deletion_covers_the_range_asked_for(offset: i32, count: u32, position: int)
    requires
        offset <= 0 <= offset + count,
    ensures
        deletion_view(offset, count) matches EventView::DeleteSurroundingText { before, after }
            && (-before <= position < after <==> offset <= position < offset + count),
        deletion_view(offset, count) matches EventView::DeleteSurroundingText { before, after }
            && before == -offset && after == offset + count,
{
}

/// Each end of a deletion is counted by itself. The start is as far before the
/// cursor as the offset says, and never after it; the end is as far after the
/// cursor as the deletion reaches, and never before it.
pub proof fn deletion_ends_are_counted_apart(offset: i32, count: u32)
    requires
        deletion_in_range(offset, count),
    ensures
        deletion_view(offset, count) matches EventView::DeleteSurroundingText { before, after } && {
            &&& offset <= 0 ==> before == -offset
            &&& offset >= 0 ==> before == 0
            &&& offset + count >= 0 ==> after == offset + count
            &&& offset + count <= 0 ==> after == 0
        },
{
}

/// Only a deletion that reaches further past the cursor than can be counted is
/// turned down.
pub proof fn deletions_are_turned_down_only_for_their_size(offset: i32, count: u32)
    ensures
        deletion_in_range(offset, count) <==> offset + count < 0x1_0000_0000,
{
}

} // verus!
