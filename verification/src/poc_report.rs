//! What the demonstration program says in its log. Unless texts are asked
//! for, it tells them by their sizes alone.

use vstd::prelude::*;
#[allow(unused_imports)]
use vstd::string::*;

#[allow(unused_imports)]
use crate::poc_args;
use crate::poc_args::SurroundingTextArgs;
use crate::text;
use crate::text::{
    char_len, push_count, push_decimal, push_hex, push_hex_padded, quote, quote_char, same_text,
    summarize_size,
};
use crate::types::{BackendKind, EventView, ImeCapabilities, ImeEvent};

verus! {

// ---------------------------------------------------------------------------
// Backends
// ---------------------------------------------------------------------------

/// The name of a kind of backend.
pub open spec fn kind_name(kind: BackendKind) -> Seq<char> {
    match kind {
        BackendKind::Unknown => "unknown"@,
        BackendKind::Fcitx5 => "fcitx5"@,
        BackendKind::Fcitx4 => "fcitx4"@,
        BackendKind::IBus => "ibus"@,
    }
}

/// The name of a kind of backend.
pub fn format_backend_kind(kind: BackendKind) -> (name: &'static str)
    ensures
        name@ == kind_name(kind),
{
    match kind {
        BackendKind::Unknown => "unknown",
        BackendKind::Fcitx5 => "fcitx5",
        BackendKind::Fcitx4 => "fcitx4",
        BackendKind::IBus => "ibus",
    }
}

/// The capabilities that have a name.
pub const KNOWN_CAPABILITIES: u32 = 0x3f;

/// The capabilities that have a name are those that a backend can declare.
pub proof fn known_capabilities_are_all()
    ensures
        KNOWN_CAPABILITIES == ImeCapabilities::PREEDIT | ImeCapabilities::COMMIT
            | ImeCapabilities::FORWARD_KEY | ImeCapabilities::DELETE_SURROUNDING_TEXT
            | ImeCapabilities::SURROUNDING_TEXT | ImeCapabilities::CONTENT_TYPE,
{
    assert(0x3fu32 == 0x01u32 | 0x02u32 | 0x04u32 | 0x08u32 | 0x10u32 | 0x20u32) by (bit_vector);
}

/// `name`, where `bits` hold `mask`.
pub open spec fn name_if(bits: u32, mask: u32, name: Seq<char>) -> Seq<Seq<char>> {
    if bits & mask != 0 {
        seq![name]
    } else {
        Seq::empty()
    }
}

/// The names of the capabilities in `bits`, from the lowest bit up; the bits
/// without a name come last, together.
pub open spec fn held_names(bits: u32) -> Seq<Seq<char>> {
    name_if(bits, ImeCapabilities::PREEDIT, "preedit"@) + name_if(
        bits,
        ImeCapabilities::COMMIT,
        "commit"@,
    ) + name_if(bits, ImeCapabilities::FORWARD_KEY, "forward_key"@) + name_if(
        bits,
        ImeCapabilities::DELETE_SURROUNDING_TEXT,
        "delete_surrounding_text"@,
    ) + name_if(bits, ImeCapabilities::SURROUNDING_TEXT, "surrounding_text"@) + name_if(
        bits,
        ImeCapabilities::CONTENT_TYPE,
        "content_type"@,
    ) + name_if(
        bits,
        !KNOWN_CAPABILITIES,
        "unknown(0x"@ + text::hex_padded((bits & !KNOWN_CAPABILITIES) as nat, 8) + ")"@,
    )
}

/// The names of the capabilities in `bits`, or that there are none.
pub open spec fn capability_names(bits: u32) -> Seq<Seq<char>> {
    if held_names(bits).len() == 0 {
        seq!["none"@]
    } else {
        held_names(bits)
    }
}

/// Names in a row, with a comma between them.
pub open spec fn joined(names: Seq<Seq<char>>) -> Seq<char>
    decreases names.len(),
{
    if names.len() == 0 {
        Seq::empty()
    } else if names.len() == 1 {
        names[0]
    } else {
        joined(names.drop_last()) + ", "@ + names.last()
    }
}

/// A set of capabilities as its bits and their names.
pub open spec fn capabilities_text(bits: u32) -> Seq<char> {
    "0x"@ + text::hex_padded(bits as nat, 8) + " ["@ + joined(capability_names(bits)) + "]"@
}

/// A capability is named just where it is held; that there is none is said
/// just where nothing is held.
pub proof fn capabilities_are_named_if_held(bits: u32)
    ensures
        capability_names(bits).contains("preedit"@) <==> bits & 0x01 != 0,
        capability_names(bits).contains("commit"@) <==> bits & 0x02 != 0,
        capability_names(bits).contains("forward_key"@) <==> bits & 0x04 != 0,
        capability_names(bits).contains("delete_surrounding_text"@) <==> bits & 0x08 != 0,
        capability_names(bits).contains("surrounding_text"@) <==> bits & 0x10 != 0,
        capability_names(bits).contains("content_type"@) <==> bits & 0x20 != 0,
        capability_names(bits).contains("none"@) <==> bits == 0,
{
    reveal_strlit("preedit");
    reveal_strlit("commit");
    reveal_strlit("forward_key");
    reveal_strlit("delete_surrounding_text");
    reveal_strlit("surrounding_text");
    reveal_strlit("content_type");
    reveal_strlit("none");
    reveal_strlit("unknown(0x");
    assert(bits == 0 <==> (bits & 0x01 == 0 && bits & 0x02 == 0 && bits & 0x04 == 0 && bits & 0x08
        == 0 && bits & 0x10 == 0 && bits & 0x20 == 0 && bits & !0x3fu32 == 0)) by (bit_vector);
    let names = capability_names(bits);
    let unknown = "unknown(0x"@ + text::hex_padded((bits & !KNOWN_CAPABILITIES) as nat, 8) + ")"@;
    assert(unknown[0] == 'u');
    let n1 = name_if(bits, 0x01, "preedit"@);
    let n2 = n1 + name_if(bits, 0x02, "commit"@);
    let n3 = n2 + name_if(bits, 0x04, "forward_key"@);
    let n4 = n3 + name_if(bits, 0x08, "delete_surrounding_text"@);
    let n5 = n4 + name_if(bits, 0x10, "surrounding_text"@);
    let n6 = n5 + name_if(bits, 0x20, "content_type"@);
    let n7 = n6 + name_if(bits, !KNOWN_CAPABILITIES, unknown);
    assert(held_names(bits) =~= n7);
    assert forall|name: Seq<char>| #[trigger] n7.contains(name) <==> {
        ||| bits & 0x01 != 0 && name == "preedit"@
        ||| bits & 0x02 != 0 && name == "commit"@
        ||| bits & 0x04 != 0 && name == "forward_key"@
        ||| bits & 0x08 != 0 && name == "delete_surrounding_text"@
        ||| bits & 0x10 != 0 && name == "surrounding_text"@
        ||| bits & 0x20 != 0 && name == "content_type"@
        ||| bits & !KNOWN_CAPABILITIES != 0 && name == unknown
    } by {
        lemma_name_if(n6, bits, !KNOWN_CAPABILITIES, unknown, name);
        lemma_name_if(n5, bits, 0x20, "content_type"@, name);
        lemma_name_if(n4, bits, 0x10, "surrounding_text"@, name);
        lemma_name_if(n3, bits, 0x08, "delete_surrounding_text"@, name);
        lemma_name_if(n2, bits, 0x04, "forward_key"@, name);
        lemma_name_if(n1, bits, 0x02, "commit"@, name);
        lemma_name_if(Seq::empty(), bits, 0x01, "preedit"@, name);
        assert(Seq::<Seq<char>>::empty() + n1 =~= n1);
    }
    assert("preedit"@.len() == 7 && "commit"@.len() == 6 && "forward_key"@.len() == 11
        && "delete_surrounding_text"@.len() == 23 && "surrounding_text"@.len() == 16
        && "content_type"@.len() == 12 && "none"@.len() == 4);
    assert("preedit"@[0] == 'p' && "commit"@[0] == 'c' && "forward_key"@[0] == 'f'
        && "delete_surrounding_text"@[0] == 'd' && "surrounding_text"@[0] == 's'
        && "content_type"@[0] == 'c' && "none"@[0] == 'n');
    if held_names(bits).len() == 0 {
        assert(!n7.contains("preedit"@) && !n7.contains("commit"@) && !n7.contains(
            "forward_key"@,
        ) && !n7.contains("delete_surrounding_text"@) && !n7.contains("surrounding_text"@)
            && !n7.contains("content_type"@) && !n7.contains(unknown));
        assert(names =~= seq!["none"@]);
        assert(names[0] == "none"@);
        assert(names.contains("none"@));
    } else {
        assert(n7.contains(n7[0]));
    }
}

proof fn lemma_name_if(
    names: Seq<Seq<char>>,
    bits: u32,
    mask: u32,
    name: Seq<char>,
    wanted: Seq<char>,
)
    ensures
        (names + name_if(bits, mask, name)).contains(wanted) <==> names.contains(wanted) || (bits
            & mask != 0 && wanted == name),
{
    let all = names + name_if(bits, mask, name);
    if names.contains(wanted) {
        let i = names.index_of(wanted);
        assert(all[i] == wanted);
    }
    if bits & mask != 0 {
        assert(all[names.len() as int] == name);
    }
    if all.contains(wanted) {
        let i = all.index_of(wanted);
        if i < names.len() {
            assert(names[i] == wanted);
        }
    }
}

/// One, where `bits` hold `mask`.
pub open spec fn held(bits: u32, mask: u32) -> int {
    if bits & mask != 0 {
        1
    } else {
        0
    }
}

/// Capabilities are named from the lowest bit up, each once: a name stands after
/// as many names as lower bits are held. Bits without a name come last.
pub proof fn lower_bits_are_named_first(bits: u32)
    ensures
        ({
            let n1 = held(bits, 0x01);
            let n2 = n1 + held(bits, 0x02);
            let n3 = n2 + held(bits, 0x04);
            let n4 = n3 + held(bits, 0x08);
            let n5 = n4 + held(bits, 0x10);
            let n6 = n5 + held(bits, 0x20);
            let n7 = n6 + held(bits, 0xffff_ffc0);
            let names = held_names(bits);
            &&& names.len() == n7
            &&& bits & 0x01 != 0 ==> names[0] == "preedit"@
            &&& bits & 0x02 != 0 ==> names[n1] == "commit"@
            &&& bits & 0x04 != 0 ==> names[n2] == "forward_key"@
            &&& bits & 0x08 != 0 ==> names[n3] == "delete_surrounding_text"@
            &&& bits & 0x10 != 0 ==> names[n4] == "surrounding_text"@
            &&& bits & 0x20 != 0 ==> names[n5] == "content_type"@
            &&& bits & 0xffff_ffc0 != 0 ==> names[n6] == "unknown(0x"@ + text::hex_padded(
                (bits & 0xffff_ffc0) as nat,
                8,
            ) + ")"@
        }),
{
    assert(!0x3fu32 == 0xffff_ffc0u32) by (bit_vector);
}

/// Rows of names join into the joined rows, with a comma between, and a name
/// alone is its own row.
pub proof fn rows_join_piecewise(a: Seq<Seq<char>>, b: Seq<Seq<char>>, name: Seq<char>)
    ensures
        a.len() > 0 && b.len() > 0 ==> joined(a + b) == joined(a) + ", "@ + joined(b),
        joined(seq![name]) == name,
        joined(Seq::empty()) == Seq::<char>::empty(),
    decreases b.len(),
{
    if a.len() > 0 && b.len() > 0 {
        assert((a + b).drop_last() =~= a + b.drop_last());
        assert((a + b).last() == b.last());
        if b.len() == 1 {
            assert(a + b.drop_last() =~= a);
            assert(joined(a + b) =~= joined(a) + ", "@ + joined(b));
        } else {
            rows_join_piecewise(a, b.drop_last(), name);
            assert(joined(a + b) =~= joined(a) + ", "@ + joined(b));
        }
    }
}

/// The bits of the capabilities can be read off their text, before the names.
pub proof fn capability_bits_are_told(bits: u32)
    ensures
        capabilities_text(bits).len() > 10,
        capabilities_text(bits).take(2) == "0x"@,
        text::row_value(capabilities_text(bits).subrange(2, 10), 16) == bits,
        capabilities_text(bits).skip(10) == " ["@ + joined(capability_names(bits)) + "]"@,
{
    reveal_strlit("0x");
    reveal_strlit(" [");
    text::hex_of_32_bits_is_short(bits);
    let shown = capabilities_text(bits);
    assert(shown.take(2) =~= "0x"@);
    assert(shown.subrange(2, 10) =~= text::hex_padded(bits as nat, 8));
    assert(shown.skip(10) =~= " ["@ + joined(capability_names(bits)) + "]"@);
}

fn push_name_if(names: &mut Vec<String>, bits: u32, mask: u32, name: &str)
    ensures
        poc_args::words(final(names)@) == poc_args::words(old(names)@) + name_if(bits, mask, name@),
{
    if bits & mask != 0 {
        names.push(name.to_owned());
    }
    assert(poc_args::words(names@) =~= poc_args::words(old(names)@) + name_if(bits, mask, name@));
}

fn join_names(names: &Vec<String>) -> (row: String)
    ensures
        row@ == joined(poc_args::words(names@)),
{
    let mut row = String::new();
    let mut i: usize = 0;
    let ghost all = poc_args::words(names@);
    while i < names.len()
        invariant
            i <= names.len(),
            all == poc_args::words(names@),
            row@ =~= joined(all.take(i as int)),
        decreases names.len() - i,
    {
        if i > 0 {
            row.append(", ");
        }
        row.append(names[i].as_str());
        assert(all.take(i + 1).drop_last() =~= all.take(i as int));
        assert(all.take(i + 1).last() == names@[i as int]@);
        i = i + 1;
    }
    assert(all.take(i as int) =~= all);
    row
}

/// A set of capabilities as its bits and their names.
pub fn format_capabilities(caps: ImeCapabilities) -> (shown: String)
    ensures
        shown@ == capabilities_text(caps.0),
{
    let bits: u32 = caps.bits();
    let mut names: Vec<String> = Vec::new();
    push_name_if(&mut names, bits, ImeCapabilities::PREEDIT, "preedit");
    push_name_if(&mut names, bits, ImeCapabilities::COMMIT, "commit");
    push_name_if(&mut names, bits, ImeCapabilities::FORWARD_KEY, "forward_key");
    push_name_if(
        &mut names,
        bits,
        ImeCapabilities::DELETE_SURROUNDING_TEXT,
        "delete_surrounding_text",
    );
    push_name_if(&mut names, bits, ImeCapabilities::SURROUNDING_TEXT, "surrounding_text");
    push_name_if(&mut names, bits, ImeCapabilities::CONTENT_TYPE, "content_type");
    let mut unknown = "unknown(0x".to_owned();
    push_hex_padded(&mut unknown, bits & !KNOWN_CAPABILITIES, 8);
    unknown.append(")");
    push_name_if(&mut names, bits, !KNOWN_CAPABILITIES, unknown.as_str());
    assert(poc_args::words(names@) =~= held_names(bits));
    if names.len() == 0 {
        names.push("none".to_owned());
    }
    assert(poc_args::words(names@) =~= capability_names(bits));
    let mut shown = "0x".to_owned();
    push_hex_padded(&mut shown, bits, 8);
    shown.append(" [");
    shown.append(join_names(&names).as_str());
    shown.append("]");
    shown
}

/// What is known of a backend, in one line.
pub fn diagnostics_line(name: &str, kind: BackendKind, caps: ImeCapabilities) -> (line: String)
    ensures
        line@ == "Backend diagnostics: name="@ + name@ + " kind="@ + kind_name(kind)
            + " capabilities="@ + capabilities_text(caps.0),
{
    let mut line = "Backend diagnostics: name=".to_owned();
    line.append(name);
    line.append(" kind=");
    line.append(format_backend_kind(kind));
    line.append(" capabilities=");
    line.append(format_capabilities(caps).as_str());
    line
}

// ---------------------------------------------------------------------------
// Texts
// ---------------------------------------------------------------------------

/// A text told by its size alone: bytes and characters.
pub fn format_text_summary(event_type: &str, text: &str) -> (summary: String)
    ensures
        summary@ == text::size_summary(event_type@, text@),
{
    summarize_size(event_type, text)
}

/// The title of an event that has a text.
pub open spec fn title_of(event_type: Seq<char>) -> Seq<char> {
    if event_type == "commit"@ {
        "Commit"@
    } else if event_type == "preedit"@ {
        "Preedit"@
    } else {
        "TextEvent"@
    }
}

/// The title of an event that has a text.
pub fn event_title(event_type: &str) -> (title: &'static str)
    ensures
        title@ == title_of(event_type@),
{
    if same_text(event_type, "commit") {
        "Commit"
    } else if same_text(event_type, "preedit") {
        "Preedit"
    } else {
        "TextEvent"
    }
}

/// A summary, followed by the text in quotes where it may be shown.
pub open spec fn with_text(summary: Seq<char>, quoted: Option<Seq<char>>) -> Seq<char> {
    match quoted {
        Some(q) => summary + " text="@ + q,
        None => summary,
    }
}

/// A text in quotes, where it may be shown.
pub open spec fn quoted_if(text: Seq<char>, log_text: bool) -> Option<Seq<char>> {
    if log_text {
        Some(text::quoted(text))
    } else {
        None
    }
}

/// A summary, followed by the text in quotes where one is given.
pub fn append_quoted(summary: String, quoted: Option<&str>) -> (line: String)
    ensures
        line@ == with_text(
            summary@,
            match quoted {
                Some(q) => Some(q@),
                None => None,
            },
        ),
{
    match quoted {
        Some(q) => {
            let mut line = summary;
            line.append(" text=");
            line.append(q);
            line
        },
        None => summary,
    }
}

/// An event that has a text, told without the text.
pub open spec fn event_text_summary(
    event_type: Seq<char>,
    text: Seq<char>,
    cursor: Option<(i32, i32)>,
) -> Seq<char> {
    let size = text::size_summary(title_of(event_type), text);
    match cursor {
        Some((begin, end)) => size + " cursor=["@ + text::decimal(begin as int) + ".."@
            + text::decimal(end as int) + "]"@,
        None => size,
    }
}

/// An event that has a text; the text itself only where `log_text` says so.
pub fn format_event_text(
    event_type: &str,
    text: &str,
    cursor: Option<(i32, i32)>,
    log_text: bool,
) -> (line: String)
    ensures
        line@ == with_text(
            event_text_summary(event_type@, text@, cursor),
            quoted_if(text@, log_text),
        ),
{
    let mut summary = format_text_summary(event_title(event_type), text);
    if let Some((begin, end)) = cursor {
        summary.append(" cursor=[");
        push_decimal(&mut summary, begin);
        summary.append("..");
        push_decimal(&mut summary, end);
        summary.append("]");
    }
    if log_text {
        let quoted = quote(text);
        append_quoted(summary, Some(quoted.as_str()))
    } else {
        append_quoted(summary, None)
    }
}

/// A request to announce the surrounding text, told without the text.
pub open spec fn request_summary(text: Seq<char>, cursor: i32, anchor: i32) -> Seq<char> {
    text::size_summary("Requested surrounding text"@, text) + " cursor="@ + text::decimal(
        cursor as int,
    ) + " anchor="@ + text::decimal(anchor as int)
}

/// A request to announce the surrounding text; the text itself only where
/// `log_text` says so.
pub fn format_surrounding_text_request(args: &SurroundingTextArgs, log_text: bool) -> (line: String)
    ensures
        line@ == with_text(
            request_summary(args.text@, args.cursor, args.anchor),
            quoted_if(args.text@, log_text),
        ),
{
    let mut summary = format_text_summary("Requested surrounding text", args.text.as_str());
    summary.append(" cursor=");
    push_decimal(&mut summary, args.cursor);
    summary.append(" anchor=");
    push_decimal(&mut summary, args.anchor);
    if log_text {
        let quoted = quote(args.text.as_str());
        append_quoted(summary, Some(quoted.as_str()))
    } else {
        append_quoted(summary, None)
    }
}

// ---------------------------------------------------------------------------
// Keys
// ---------------------------------------------------------------------------

/// The label of the key that types a character.
pub open spec fn char_label(ch: char, log_text: bool) -> Seq<char> {
    if ch == '\n' || ch == '\r' {
        "Return"@
    } else if ch == ' ' {
        "Space"@
    } else if log_text {
        seq![ch]
    } else {
        "Character"@
    }
}

/// The label of the key that types a character; the character itself only
/// where `log_text` says so.
pub fn format_char_label(ch: char, log_text: bool) -> (label: String)
    ensures
        label@ == char_label(ch, log_text),
{
    if ch == '\n' || ch == '\r' {
        "Return".to_owned()
    } else if ch == ' ' {
        "Space".to_owned()
    } else if log_text {
        let mut label = String::new();
        label.push(ch);
        assert(label@ =~= seq![ch]);
        label
    } else {
        "Character".to_owned()
    }
}

/// A key by its label and its keysym, or by its label alone where that says
/// nothing of a text.
pub open spec fn key_text(label: Seq<char>, keysym: u32, log_text: bool) -> Seq<char> {
    if log_text {
        "'"@ + label + "' (0x"@ + text::hex_padded(keysym as nat, 4) + ")"@
    } else if label == "Return"@ || label == "Space"@ {
        label
    } else {
        "Character"@
    }
}

/// A key in the log; which character it types only where `log_text` says so.
pub fn format_key_event(label: &str, keysym: u32, log_text: bool) -> (shown: String)
    ensures
        shown@ == key_text(label@, keysym, log_text),
{
    if log_text {
        let mut shown = "'".to_owned();
        shown.append(label);
        shown.append("' (0x");
        push_hex_padded(&mut shown, keysym, 4);
        shown.append(")");
        shown
    } else if same_text(label, "Return") || same_text(label, "Space") {
        label.to_owned()
    } else {
        "Character".to_owned()
    }
}

/// How an attempt to type a key came out.
pub open spec fn key_report(
    label: Seq<char>,
    keysym: u32,
    is_release: bool,
    handled: bool,
    log_text: bool,
) -> Seq<char> {
    "process_key_event "@ + key_text(label, keysym, log_text) + (if is_release {
        " keyup: handled="@
    } else {
        " keydown: handled="@
    }) + (if handled {
        "true"@
    } else {
        "false"@
    })
}

/// How an attempt to type a key came out.
pub fn format_key_report(
    label: &str,
    keysym: u32,
    is_release: bool,
    handled: bool,
    log_text: bool,
) -> (line: String)
    ensures
        line@ == key_report(label@, keysym, is_release, handled, log_text),
{
    let mut line = "process_key_event ".to_owned();
    line.append(format_key_event(label, keysym, log_text).as_str());
    if is_release {
        line.append(" keyup: handled=");
    } else {
        line.append(" keydown: handled=");
    }
    if handled {
        line.append("true");
    } else {
        line.append("false");
    }
    line
}

/// Why a character was not typed, by the character in quotes.
pub open spec fn skipped_char_text(quoted: Seq<char>) -> Seq<char> {
    "Skipping unsupported non-ASCII char "@ + quoted + "; PoC only maps basic X11 keysyms"@
}

/// Why a character was not typed, by its size.
pub open spec fn skipped_size_text(byte_len: nat) -> Seq<char> {
    "Skipping unsupported non-ASCII char: byte_len="@ + text::decimal(byte_len as int)
        + " char_count=1; PoC only maps basic X11 keysyms"@
}

/// Why a character was not typed.
pub open spec fn unsupported_char_text(ch: char, log_text: bool) -> Seq<char> {
    if log_text {
        skipped_char_text(text::quoted_char(ch))
    } else {
        skipped_size_text(text::char_byte_len(ch))
    }
}

/// Why a character was not typed, by the character in quotes.
pub fn format_skipped_char(quoted: &str) -> (line: String)
    ensures
        line@ == skipped_char_text(quoted@),
{
    let mut line = "Skipping unsupported non-ASCII char ".to_owned();
    line.append(quoted);
    line.append("; PoC only maps basic X11 keysyms");
    line
}

/// Why a character was not typed; the character itself only where `log_text`
/// says so.
pub fn log_unsupported_char(ch: char, log_text: bool) -> (line: String)
    ensures
        line@ == unsupported_char_text(ch, log_text),
{
    if log_text {
        let quoted = quote_char(ch);
        format_skipped_char(quoted.as_str())
    } else {
        let mut line = "Skipping unsupported non-ASCII char: byte_len=".to_owned();
        push_count(&mut line, char_len(ch));
        line.append(" char_count=1; PoC only maps basic X11 keysyms");
        line
    }
}

/// A key that the input method passed on.
pub open spec fn forward_key_text(keyval: u32, state: u32, log_text: bool) -> Seq<char> {
    if log_text {
        "ForwardKey keyval=0x"@ + text::hex(keyval as nat) + " state=0x"@ + text::hex(state as nat)
    } else {
        "ForwardKey state=0x"@ + text::hex(state as nat)
    }
}

/// A key that the input method passed on; which one only where `log_text`
/// says so.
pub fn format_forward_key_event(keyval: u32, state: u32, log_text: bool) -> (line: String)
    ensures
        line@ == forward_key_text(keyval, state, log_text),
{
    if log_text {
        let mut line = "ForwardKey keyval=0x".to_owned();
        push_hex(&mut line, keyval);
        line.append(" state=0x");
        push_hex(&mut line, state);
        line
    } else {
        let mut line = "ForwardKey state=0x".to_owned();
        push_hex(&mut line, state);
        line
    }
}

// ---------------------------------------------------------------------------
// Events
// ---------------------------------------------------------------------------

/// An event in one line.
pub open spec fn event_text(event: EventView, log_text: bool) -> Seq<char> {
    match event {
        EventView::Preedit { text, cursor_begin, cursor_end } => with_text(
            event_text_summary("preedit"@, text, Some((cursor_begin, cursor_end))),
            quoted_if(text, log_text),
        ),
        EventView::PreeditEnd => "PreeditEnd"@,
        EventView::Commit { text } => with_text(
            event_text_summary("commit"@, text, None),
            quoted_if(text, log_text),
        ),
        EventView::DeleteSurroundingText { before, after } => "DeleteSurroundingText before="@
            + text::decimal(before as int) + " after="@ + text::decimal(after as int),
        EventView::ForwardKey { keyval, state } => forward_key_text(keyval, state, log_text),
    }
}

/// An event in one line; texts and keys only where `log_text` says so.
pub fn format_event(event: &ImeEvent, log_text: bool) -> (line: String)
    ensures
        line@ == event_text(event@, log_text),
{
    match event {
        ImeEvent::Preedit { text, cursor_begin, cursor_end } => format_event_text(
            "preedit",
            text.as_str(),
            Some((*cursor_begin, *cursor_end)),
            log_text,
        ),
        ImeEvent::PreeditEnd => "PreeditEnd".to_owned(),
        ImeEvent::Commit { text } => format_event_text("commit", text.as_str(), None, log_text),
        ImeEvent::DeleteSurroundingText { before, after } => {
            let mut line = "DeleteSurroundingText before=".to_owned();
            push_count(&mut line, *before as usize);
            line.append(" after=");
            push_count(&mut line, *after as usize);
            line
        },
        ImeEvent::ForwardKey { keyval, state } => format_forward_key_event(
            *keyval,
            state.0,
            log_text,
        ),
    }
}

// ---------------------------------------------------------------------------
// What the log gives away
// ---------------------------------------------------------------------------

/// Whether two texts have the same size.
pub open spec fn same_size(a: Seq<char>, b: Seq<char>) -> bool {
    text::byte_len(a) == text::byte_len(b) && a.len() == b.len()
}

/// Whether two events differ at most in their texts, of the same size, or in
/// the key that was passed on.
pub open spec fn same_outline(a: EventView, b: EventView) -> bool {
    match (a, b) {
        (
            EventView::Preedit { text: t, cursor_begin: p, cursor_end: q },
            EventView::Preedit { text: u, cursor_begin: r, cursor_end: s },
        ) => same_size(t, u) && p == r && q == s,
        (EventView::Commit { text: t }, EventView::Commit { text: u }) => same_size(t, u),
        (
            EventView::ForwardKey { state: p, .. },
            EventView::ForwardKey { state: q, .. },
        ) => p == q,
        _ => a == b,
    }
}

/// Unless texts are asked for, the log tells two events apart by nothing but
/// their kind, sizes, cursors, counts and modifiers.
pub proof fn events_hide_texts(a: EventView, b: EventView)
    requires
        same_outline(a, b),
    ensures
        event_text(a, false) == event_text(b, false),
{
}

/// Unless texts are asked for, the log tells two requests to announce a text
/// apart by nothing but the sizes and the offsets.
pub proof fn requests_hide_texts(a: Seq<char>, b: Seq<char>, cursor: i32, anchor: i32)
    requires
        same_size(a, b),
    ensures
        with_text(request_summary(a, cursor, anchor), quoted_if(a, false)) == with_text(
            request_summary(b, cursor, anchor),
            quoted_if(b, false),
        ),
{
}

/// Unless texts are asked for, the log does not tell which character a key
/// types, but for Return and Space.
pub proof fn keys_hide_characters(
    a: char,
    b: char,
    keysym_a: u32,
    keysym_b: u32,
    is_release: bool,
    handled: bool,
)
    requires
        a != '\n' && a != '\r' && a != ' ',
        b != '\n' && b != '\r' && b != ' ',
    ensures
        key_report(char_label(a, false), keysym_a, is_release, handled, false) == key_report(
            char_label(b, false),
            keysym_b,
            is_release,
            handled,
            false,
        ),
{
}

/// Unless texts are asked for, the log tells a character that cannot be typed
/// by its size alone.
pub proof fn skipped_characters_are_hidden(a: char, b: char)
    requires
        text::char_byte_len(a) == text::char_byte_len(b),
    ensures
        unsupported_char_text(a, false) == unsupported_char_text(b, false),
{
}

/// With texts asked for, the log says of an event what it says without, and
/// then the text, in quotes.
pub proof fn asking_adds_the_text(event: EventView)
    ensures
        event matches EventView::Preedit { text, .. } ==> event_text(event, true) == event_text(
            event,
            false,
        ) + " text="@ + text::quoted(text),
        event matches EventView::Commit { text } ==> event_text(event, true) == event_text(
            event,
            false,
        ) + " text="@ + text::quoted(text),
        event is PreeditEnd || event is DeleteSurroundingText ==> event_text(event, true)
            == event_text(event, false),
{
}

/// With texts asked for, a request to announce a text is told as without, and
/// then the text, in quotes.
pub proof fn asking_adds_the_requested_text(text: Seq<char>, cursor: i32, anchor: i32)
    ensures
        with_text(request_summary(text, cursor, anchor), quoted_if(text, true)) == with_text(
            request_summary(text, cursor, anchor),
            quoted_if(text, false),
        ) + " text="@ + text::quoted(text),
        with_text(request_summary(text, cursor, anchor), quoted_if(text, false)) == request_summary(
            text,
            cursor,
            anchor,
        ),
{
}

proof fn lemma_stops()
    ensures
        forall|s: Seq<char>|
            #![trigger text::is_numeral(s)]
            s == seq![' '] || s == seq!['.'] || s == seq![']'] || s == seq![')'] ==> !text::is_numeral(
                s,
            ),
{
    assert(seq![' '][0] == ' ' && seq!['.'][0] == '.' && seq![']'][0] == ']' && seq![')'][0] == ')');
}

/// The log tells the sizes of a text, and both ends of the cursor where there
/// is one: two events of a sort are told alike only where all of these are the
/// same.
pub proof fn text_events_tell_size_and_cursor(
    event_type: Seq<char>,
    a: Seq<char>,
    b: Seq<char>,
    cursor_a: (i32, i32),
    cursor_b: (i32, i32),
)
    ensures
        event_text_summary(event_type, a, None) == event_text_summary(event_type, b, None)
            <==> same_size(a, b),
        event_text_summary(event_type, a, Some(cursor_a)) == event_text_summary(
            event_type,
            b,
            Some(cursor_b),
        ) <==> same_size(a, b) && cursor_a == cursor_b,
{
    let title = title_of(event_type);
    text::summaries_tell_sizes(title, a, b);
    let x = event_text_summary(event_type, a, Some(cursor_a));
    let y = event_text_summary(event_type, b, Some(cursor_b));
    if x == y {
        lemma_stops();
        reveal_strlit(" char_count=");
        reveal_strlit(" cursor=[");
        reveal_strlit("..");
        reveal_strlit("]");
        let (p, q) = cursor_a;
        let (r, s) = cursor_b;
        let count_a = text::decimal(text::byte_len(a) as int);
        let count_b = text::decimal(text::byte_len(b) as int);
        text::numbers_are_numerals(text::byte_len(a) as int);
        text::numbers_are_numerals(text::byte_len(b) as int);
        text::numbers_are_numerals(a.len() as int);
        text::numbers_are_numerals(b.len() as int);
        text::numbers_are_numerals(p as int);
        text::numbers_are_numerals(q as int);
        text::numbers_are_numerals(r as int);
        text::numbers_are_numerals(s as int);
        let tail_a = text::decimal(p as int) + ".."@ + text::decimal(q as int) + "]"@;
        let tail_b = text::decimal(r as int) + ".."@ + text::decimal(s as int) + "]"@;
        let rest_a = text::decimal(a.len() as int) + " cursor=["@ + tail_a;
        let rest_b = text::decimal(b.len() as int) + " cursor=["@ + tail_b;
        assert(x =~= title + " byte_len="@ + count_a + " char_count="@ + rest_a);
        assert(y =~= title + " byte_len="@ + count_b + " char_count="@ + rest_b);
        text::number_ends_are_plain(
            title + " byte_len="@,
            count_a,
            count_b,
            " char_count="@,
            rest_a,
            rest_b,
        );
        let empty = Seq::<char>::empty();
        assert(rest_a =~= empty + text::decimal(a.len() as int) + " cursor=["@ + tail_a);
        assert(rest_b =~= empty + text::decimal(b.len() as int) + " cursor=["@ + tail_b);
        text::number_ends_are_plain(
            empty,
            text::decimal(a.len() as int),
            text::decimal(b.len() as int),
            " cursor=["@,
            tail_a,
            tail_b,
        );
        assert(tail_a =~= empty + text::decimal(p as int) + ".."@ + (text::decimal(q as int)
            + "]"@));
        assert(tail_b =~= empty + text::decimal(r as int) + ".."@ + (text::decimal(s as int)
            + "]"@));
        text::number_ends_are_plain(
            empty,
            text::decimal(p as int),
            text::decimal(r as int),
            ".."@,
            text::decimal(q as int) + "]"@,
            text::decimal(s as int) + "]"@,
        );
        assert(text::decimal(q as int) + "]"@ =~= empty + text::decimal(q as int) + "]"@ + empty);
        assert(text::decimal(s as int) + "]"@ =~= empty + text::decimal(s as int) + "]"@ + empty);
        text::number_ends_are_plain(
            empty,
            text::decimal(q as int),
            text::decimal(s as int),
            "]"@,
            empty,
            empty,
        );
        text::numbers_are_written_apart(text::byte_len(a) as int, text::byte_len(b) as int);
        text::numbers_are_written_apart(a.len() as int, b.len() as int);
        text::numbers_are_written_apart(p as int, r as int);
        text::numbers_are_written_apart(q as int, s as int);
    }
}

/// The log tells the sizes of the text to be announced, and each offset: two
/// requests are told alike only where all of these are the same.
pub proof fn requests_tell_size_and_offsets(
    a: Seq<char>,
    b: Seq<char>,
    cursor_a: i32,
    anchor_a: i32,
    cursor_b: i32,
    anchor_b: i32,
)
    ensures
        request_summary(a, cursor_a, anchor_a) == request_summary(b, cursor_b, anchor_b)
            <==> same_size(a, b) && cursor_a == cursor_b && anchor_a == anchor_b,
{
    let x = request_summary(a, cursor_a, anchor_a);
    let y = request_summary(b, cursor_b, anchor_b);
    if x == y {
        lemma_stops();
        reveal_strlit(" char_count=");
        reveal_strlit(" cursor=");
        reveal_strlit(" anchor=");
        let head = "Requested surrounding text"@ + " byte_len="@;
        let count_a = text::decimal(text::byte_len(a) as int);
        let count_b = text::decimal(text::byte_len(b) as int);
        let len_a = text::decimal(a.len() as int);
        let len_b = text::decimal(b.len() as int);
        let c_a = text::decimal(cursor_a as int);
        let c_b = text::decimal(cursor_b as int);
        let n_a = text::decimal(anchor_a as int);
        let n_b = text::decimal(anchor_b as int);
        text::numbers_are_numerals(text::byte_len(a) as int);
        text::numbers_are_numerals(text::byte_len(b) as int);
        text::numbers_are_numerals(a.len() as int);
        text::numbers_are_numerals(b.len() as int);
        text::numbers_are_numerals(cursor_a as int);
        text::numbers_are_numerals(cursor_b as int);
        let empty = Seq::<char>::empty();
        let tail_a = c_a + " anchor="@ + n_a;
        let tail_b = c_b + " anchor="@ + n_b;
        let rest_a = len_a + " cursor="@ + tail_a;
        let rest_b = len_b + " cursor="@ + tail_b;
        assert(x =~= head + count_a + " char_count="@ + rest_a);
        assert(y =~= head + count_b + " char_count="@ + rest_b);
        text::number_ends_are_plain(head, count_a, count_b, " char_count="@, rest_a, rest_b);
        assert(rest_a =~= empty + len_a + " cursor="@ + tail_a);
        assert(rest_b =~= empty + len_b + " cursor="@ + tail_b);
        text::number_ends_are_plain(empty, len_a, len_b, " cursor="@, tail_a, tail_b);
        assert(tail_a =~= empty + c_a + " anchor="@ + n_a);
        assert(tail_b =~= empty + c_b + " anchor="@ + n_b);
        text::number_ends_are_plain(empty, c_a, c_b, " anchor="@, n_a, n_b);
        text::numbers_are_written_apart(text::byte_len(a) as int, text::byte_len(b) as int);
        text::numbers_are_written_apart(a.len() as int, b.len() as int);
        text::numbers_are_written_apart(cursor_a as int, cursor_b as int);
        text::numbers_are_written_apart(anchor_a as int, anchor_b as int);
    }
}

/// Two deletions are told alike only where both their counts are the same.
pub proof fn deletions_tell_both_counts(before_a: u32, after_a: u32, before_b: u32, after_b: u32)
    ensures
        event_text(
            EventView::DeleteSurroundingText { before: before_a, after: after_a },
            false,
        ) == event_text(
            EventView::DeleteSurroundingText { before: before_b, after: after_b },
            false,
        ) <==> before_a == before_b && after_a == after_b,
{
    let x = event_text(
        EventView::DeleteSurroundingText { before: before_a, after: after_a },
        false,
    );
    let y = event_text(
        EventView::DeleteSurroundingText { before: before_b, after: after_b },
        false,
    );
    if x == y {
        lemma_stops();
        reveal_strlit(" after=");
        text::numbers_are_numerals(before_a as int);
        text::numbers_are_numerals(before_b as int);
        text::number_ends_are_plain(
            "DeleteSurroundingText before="@,
            text::decimal(before_a as int),
            text::decimal(before_b as int),
            " after="@,
            text::decimal(after_a as int),
            text::decimal(after_b as int),
        );
        text::numbers_are_written_apart(before_a as int, before_b as int);
        text::numbers_are_written_apart(after_a as int, after_b as int);
    }
}

/// A key that was passed on is told by its state, and with texts asked for by
/// the key as well: two are told alike only where these are the same.
pub proof fn forwarded_keys_are_told(keyval_a: u32, state_a: u32, keyval_b: u32, state_b: u32)
    ensures
        forward_key_text(keyval_a, state_a, false) == forward_key_text(keyval_b, state_b, false)
            <==> state_a == state_b,
        forward_key_text(keyval_a, state_a, true) == forward_key_text(keyval_b, state_b, true)
            <==> keyval_a == keyval_b && state_a == state_b,
{
    let head = "ForwardKey state=0x"@;
    let p = forward_key_text(keyval_a, state_a, false);
    let q = forward_key_text(keyval_b, state_b, false);
    text::numbers_are_written_apart(state_a as int, state_b as int);
    text::numbers_are_written_apart(keyval_a as int, keyval_b as int);
    if p == q {
        assert(p.skip(head.len() as int) =~= text::hex(state_a as nat));
        assert(q.skip(head.len() as int) =~= text::hex(state_b as nat));
    }
    if forward_key_text(keyval_a, state_a, true) == forward_key_text(keyval_b, state_b, true) {
        lemma_stops();
        reveal_strlit(" state=0x");
        text::numbers_are_numerals(keyval_a as int);
        text::numbers_are_numerals(keyval_b as int);
        text::number_ends_are_plain(
            "ForwardKey keyval=0x"@,
            text::hex(keyval_a as nat),
            text::hex(keyval_b as nat),
            " state=0x"@,
            text::hex(state_a as nat),
            text::hex(state_b as nat),
        );
    }
}

/// The key that types a character is labelled by the character only with texts
/// asked for; line breaks are Return and a blank is Space in any case.
pub proof fn labels_follow_the_character(ch: char, log_text: bool)
    ensures
        ch == '\n' || ch == '\r' ==> char_label(ch, log_text) == "Return"@,
        ch == ' ' ==> char_label(ch, log_text) == "Space"@,
        ch != '\n' && ch != '\r' && ch != ' ' && log_text ==> char_label(ch, log_text).len() == 1
            && char_label(ch, log_text)[0] == ch,
        ch != '\n' && ch != '\r' && ch != ' ' && !log_text ==> char_label(ch, log_text)
            == "Character"@,
{
}

/// With texts asked for, a key is told by its label, in quotes, and by its
/// keysym in at least four digits, from which it can be read back. Without, it
/// is told by a word that is the label only for Return and Space.
pub proof fn keys_are_told(label: Seq<char>, keysym: u32)
    ensures
        key_text(label, keysym, true).len() >= label.len() + 10,
        key_text(label, keysym, true).take(1) == "'"@,
        key_text(label, keysym, true).subrange(1, 1 + label.len() as int) == label,
        key_text(label, keysym, true).subrange(1 + label.len() as int, 6 + label.len() as int) == "' (0x"@,
        text::row_value(
            key_text(label, keysym, true).subrange(
                6 + label.len() as int,
                key_text(label, keysym, true).len() - 1,
            ),
            16,
        ) == keysym,
        key_text(label, keysym, true).last() == ')',
        label == "Return"@ || label == "Space"@ ==> key_text(label, keysym, false) == label,
        label != "Return"@ && label != "Space"@ ==> key_text(label, keysym, false) == "Character"@,
{
    reveal_strlit("'");
    reveal_strlit("' (0x");
    reveal_strlit(")");
    text::padding_keeps_the_number(keysym as nat, 4);
    let shown = key_text(label, keysym, true);
    let digits = text::hex_padded(keysym as nat, 4);
    assert(shown.len() == 1 + label.len() + 5 + digits.len() + 1);
    assert(shown.take(1) =~= "'"@);
    assert(shown.subrange(1, 1 + label.len() as int) =~= label);
    assert(shown.subrange(1 + label.len() as int, 6 + label.len() as int) =~= "' (0x"@);
    assert(shown.subrange(6 + label.len() as int, shown.len() - 1) =~= digits);
}

/// What is said of a stroke tells which way the key went and whether it was
/// taken.
pub proof fn key_reports_tell_what_happened(
    label: Seq<char>,
    keysym: u32,
    log_text: bool,
    up_a: bool,
    taken_a: bool,
    up_b: bool,
    taken_b: bool,
)
    ensures
        key_report(label, keysym, up_a, taken_a, log_text) == key_report(
            label,
            keysym,
            up_b,
            taken_b,
            log_text,
        ) <==> up_a == up_b && taken_a == taken_b,
        key_report(label, keysym, up_a, taken_a, log_text).subrange(
            18,
            18 + key_text(label, keysym, log_text).len() as int,
        ) == key_text(label, keysym, log_text),
{
    reveal_strlit("process_key_event ");
    reveal_strlit(" keyup: handled=");
    reveal_strlit(" keydown: handled=");
    reveal_strlit("true");
    reveal_strlit("false");
    let key = key_text(label, keysym, log_text);
    let report = key_report(label, keysym, up_a, taken_a, log_text);
    assert(report.len() == 18 + key.len() + (if up_a { 16int } else { 18 }) + (if taken_a {
        4int
    } else {
        5
    }));
    assert(report.subrange(18, 18 + key.len() as int) =~= key);
    let other = key_report(label, keysym, up_b, taken_b, log_text);
    assert(other.len() == 18 + key.len() + (if up_b { 16int } else { 18 }) + (if taken_b {
        4int
    } else {
        5
    }));
}

/// A character that is not typed is told by its size, and with texts asked for
/// by itself, in quotes: two are told alike only where these are the same.
pub proof fn skipped_characters_are_told(a: char, b: char)
    ensures
        unsupported_char_text(a, false) == unsupported_char_text(b, false) <==> text::char_byte_len(
            a,
        ) == text::char_byte_len(b),
        unsupported_char_text(a, true) == unsupported_char_text(b, true) <==> text::quoted_char(a)
            == text::quoted_char(b),
{
    if unsupported_char_text(a, false) == unsupported_char_text(b, false) {
        lemma_stops();
        reveal_strlit(" char_count=1; PoC only maps basic X11 keysyms");
        let empty = Seq::<char>::empty();
        let head = "Skipping unsupported non-ASCII char: byte_len="@;
        let stop = " char_count=1; PoC only maps basic X11 keysyms"@;
        text::numbers_are_numerals(text::char_byte_len(a) as int);
        text::numbers_are_numerals(text::char_byte_len(b) as int);
        assert(unsupported_char_text(a, false) =~= head + text::decimal(
            text::char_byte_len(a) as int,
        ) + stop + empty);
        assert(unsupported_char_text(b, false) =~= head + text::decimal(
            text::char_byte_len(b) as int,
        ) + stop + empty);
        text::number_ends_are_plain(
            head,
            text::decimal(text::char_byte_len(a) as int),
            text::decimal(text::char_byte_len(b) as int),
            stop,
            empty,
            empty,
        );
        text::numbers_are_written_apart(
            text::char_byte_len(a) as int,
            text::char_byte_len(b) as int,
        );
    }
    let x = unsupported_char_text(a, true);
    let y = unsupported_char_text(b, true);
    if x == y {
        let head = "Skipping unsupported non-ASCII char "@;
        let tail = "; PoC only maps basic X11 keysyms"@;
        assert(x.subrange(head.len() as int, x.len() - tail.len()) =~= text::quoted_char(a));
        assert(y.subrange(head.len() as int, y.len() - tail.len()) =~= text::quoted_char(b));
    }
}

/// The two kinds of event that have a text have titles of their own, and no
/// other kind has either.
pub proof fn titles_tell_commit_and_preedit(event_type: Seq<char>)
    ensures
        title_of(event_type) == "Commit"@ <==> event_type == "commit"@,
        title_of(event_type) == "Preedit"@ <==> event_type == "preedit"@,
{
    reveal_strlit("Commit");
    reveal_strlit("Preedit");
    reveal_strlit("TextEvent");
    reveal_strlit("commit");
    reveal_strlit("preedit");
    assert("Commit"@.len() == 6 && "Preedit"@.len() == 7 && "TextEvent"@.len() == 9
        && "commit"@.len() == 6 && "preedit"@.len() == 7);
}

/// The line for an event is that of its own kind: texts by their titles, the
/// end of a preedit, deletions and keys by theirs.
pub proof fn events_are_told_by_their_kind(event: EventView, log_text: bool)
    ensures
        event matches EventView::Preedit { text, .. } ==> event_text(event, log_text).take(7)
            == "Preedit"@,
        event matches EventView::Commit { .. } ==> event_text(event, log_text).take(6) == "Commit"@,
        event is PreeditEnd ==> event_text(event, log_text) == "PreeditEnd"@,
        event is DeleteSurroundingText ==> event_text(event, log_text).take(22)
            == "DeleteSurroundingText "@,
        event is ForwardKey ==> event_text(event, log_text).take(11) == "ForwardKey "@,
{
    reveal_strlit("Commit");
    reveal_strlit("Preedit");
    reveal_strlit("commit");
    reveal_strlit("preedit");
    reveal_strlit("DeleteSurroundingText ");
    reveal_strlit("DeleteSurroundingText before=");
    reveal_strlit("ForwardKey ");
    reveal_strlit("ForwardKey state=0x");
    reveal_strlit("ForwardKey keyval=0x");
    titles_tell_commit_and_preedit("commit"@);
    titles_tell_commit_and_preedit("preedit"@);
    let line = event_text(event, log_text);
    match event {
        EventView::Preedit { .. } => {
            assert(line.take(7) =~= "Preedit"@);
        },
        EventView::Commit { .. } => {
            assert(line.take(6) =~= "Commit"@);
        },
        EventView::DeleteSurroundingText { .. } => {
            assert(line.take(22) =~= "DeleteSurroundingText "@);
        },
        EventView::ForwardKey { .. } => {
            assert(line.take(11) =~= "ForwardKey "@);
        },
        EventView::PreeditEnd => {},
    }
}

/// The line for a preedit or a commit is told by the text's own size and the
/// cursor's own place.
pub proof fn text_events_are_their_summaries(event: EventView)
    ensures
        event matches EventView::Preedit { text, cursor_begin, cursor_end } ==> event_text(
            event,
            false,
        ) == event_text_summary("preedit"@, text, Some((cursor_begin, cursor_end))),
        event matches EventView::Commit { text } ==> event_text(event, false) == event_text_summary(
            "commit"@,
            text,
            None,
        ),
        event matches EventView::ForwardKey { keyval, state } ==> forall|log_text: bool|
            event_text(event, log_text) == #[trigger] forward_key_text(keyval, state, log_text),
{
}

} // verus!
