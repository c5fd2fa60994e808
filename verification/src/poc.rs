//! The demonstration program: which keys it types, and what it asks of the
//! engine.

use vstd::prelude::*;
#[allow(unused_imports)]
use vstd::string::*;

use crate::backend::ImeBackend;
use crate::engine::ImeEngine;
use crate::poc_args::SurroundingTextArgs;
#[allow(unused_imports)]
use crate::poc_report;
use crate::poc_report::{format_char_label, format_key_report, log_unsupported_char};
use crate::types::{CursorRect, ImeCapabilities};

verus! {

/// The keysym of the Return key.
pub const RETURN_KEYSYM: u32 = 0xff0d;

/// How long a key is held down.
pub const KEY_HOLD_MS: u64 = 50;

/// How long to wait for events after a key went up.
pub const KEY_SETTLE_MS: u64 = 30;

/// How long to wait for the last events.
pub const LAST_EVENTS_SECS: u64 = 2;

/// The text that is typed unless lines are read.
pub fn default_text() -> (text: &'static str)
    ensures
        text@ == "nihao\n"@,
{
    "nihao\n"
}

/// Where the program pretends its cursor is.
pub fn default_cursor_rect() -> (rect: CursorRect)
    ensures
        rect == (CursorRect { x: 200, y: 300, width: 1, height: 20 }),
{
    CursorRect { x: 200, y: 300, width: 1, height: 20 }
}

// ---------------------------------------------------------------------------
// Keys
// ---------------------------------------------------------------------------

/// The keysym of the key that types a character, as far as it can be told
/// without a keyboard layout: line breaks are Return, and the keysyms of ASCII
/// characters are their codes.
pub open spec fn basic_keysym(ch: char) -> Option<u32> {
    if ch == '\n' || ch == '\r' {
        Some(RETURN_KEYSYM)
    } else if ch as u32 <= 0x7f {
        Some(ch as u32)
    } else {
        None
    }
}

/// The keysym of the key that types a character; none for a character that is
/// not ASCII.
pub fn char_to_basic_x11_keysym(ch: char) -> (keysym: Option<u32>)
    ensures
        keysym == basic_keysym(ch),
{
    if ch == '\n' || ch == '\r' {
        Some(RETURN_KEYSYM)
    } else if ch as u32 <= 0x7f {
        Some(ch as u32)
    } else {
        None
    }
}

/// Two characters share a keysym only if both are line breaks.
pub proof fn keysyms_tell_characters_apart(a: char, b: char)
    requires
        basic_keysym(a) is Some,
        basic_keysym(a) == basic_keysym(b),
    ensures
        a == b || ((a == '\n' || a == '\r') && (b == '\n' || b == '\r')),
{
}

/// An ASCII character is typed by the key whose number is its code, but for
/// line breaks, which are typed by Return; no other character is typed.
pub proof fn keysyms_are_codes(ch: char, keysym: Option<u32>)
    requires
        call_ensures(char_to_basic_x11_keysym, (ch,), keysym),
    ensures
        keysym is Some <==> (ch as u32) < 128,
        ch == '\n' || ch == '\r' ==> keysym == Some(0xff0du32),
        ch != '\n' && ch != '\r' && (ch as u32) < 128 ==> keysym == Some(ch as u32),
{
}

/// One step of typing a text.
pub enum KeyStep {
    /// Press and release this key.
    Type { keysym: u32, label: String },
    /// Say why nothing is typed.
    Skip { message: String },
}

/// A [`KeyStep`] with its texts as sequences of characters.
#[verifier::ext_equal]
pub enum KeyStepView {
    Type { keysym: u32, label: Seq<char> },
    Skip { message: Seq<char> },
}

impl View for KeyStep {
    type V = KeyStepView;

    open spec fn view(&self) -> KeyStepView {
        match *self {
            KeyStep::Type { keysym, label } => KeyStepView::Type { keysym, label: label@ },
            KeyStep::Skip { message } => KeyStepView::Skip { message: message@ },
        }
    }
}

/// The step that types a character.
pub open spec fn step_for(ch: char, log_text: bool) -> KeyStepView {
    match basic_keysym(ch) {
        Some(keysym) => KeyStepView::Type {
            keysym,
            label: poc_report::char_label(ch, log_text),
        },
        None => KeyStepView::Skip { message: poc_report::unsupported_char_text(ch, log_text) },
    }
}

/// What a row of steps does.
pub open spec fn steps_view(steps: Seq<KeyStep>) -> Seq<KeyStepView> {
    steps.map_values(|step: KeyStep| step@)
}

/// The steps that type a text, character by character.
pub open spec fn steps_for(text: Seq<char>, log_text: bool) -> Seq<KeyStepView> {
    text.map_values(|ch: char| step_for(ch, log_text))
}

/// The step that types a character.
pub fn char_step(ch: char, log_text: bool) -> (step: KeyStep)
    ensures
        step@ == step_for(ch, log_text),
{
    match char_to_basic_x11_keysym(ch) {
        Some(keysym) => KeyStep::Type { keysym, label: format_char_label(ch, log_text) },
        None => KeyStep::Skip { message: log_unsupported_char(ch, log_text) },
    }
}

/// The steps that type a text, character by character.
pub fn text_steps(text: &str, log_text: bool) -> (steps: Vec<KeyStep>)
    ensures
        steps_view(steps@) == steps_for(text@, log_text),
{
    let mut steps: Vec<KeyStep> = Vec::new();
    for ch in it: text.chars()
        invariant
            it.seq() == text@,
            steps@.len() == it.index(),
            forall|i: int|
                0 <= i < it.index() ==> (#[trigger] steps@[i])@ == step_for(text@[i], log_text),
    {
        steps.push(char_step(ch, log_text));
    }
    assert(steps_view(steps@) =~= steps_for(text@, log_text));
    steps
}

/// The steps that type a line that was read: its text, and Return.
pub fn line_steps(line: &str, log_text: bool) -> (steps: Vec<KeyStep>)
    ensures
        steps_view(steps@) == steps_for(line@, log_text).push(
            KeyStepView::Type { keysym: RETURN_KEYSYM, label: "Return"@ },
        ),
{
    let mut steps = text_steps(line, log_text);
    let ghost typed = steps@;
    let last = KeyStep::Type { keysym: RETURN_KEYSYM, label: "Return".to_owned() };
    let ghost last_view = last@;
    steps.push(last);
    assert(steps_view(steps@) =~= steps_view(typed).push(last_view));
    steps
}

/// A line that was read is typed as a text with a line break at its end.
pub proof fn line_is_text_with_line_break(line: Seq<char>, log_text: bool)
    ensures
        steps_for(line, log_text).push(
            KeyStepView::Type { keysym: RETURN_KEYSYM, label: "Return"@ },
        ) == steps_for(line.push('\n'), log_text),
{
    assert(steps_for(line, log_text).push(
        KeyStepView::Type { keysym: RETURN_KEYSYM, label: "Return"@ },
    ) =~= steps_for(line.push('\n'), log_text));
}

/// A text is typed character by character, in order and none left out: each
/// character that has a key by that key, under its label, and each other by
/// saying why not.
pub proof fn every_character_has_its_step(
    text: &str,
    log_text: bool,
    steps: Vec<KeyStep>,
    i: int,
    keysym: Option<u32>,
)
    requires
        call_ensures(text_steps, (text, log_text), steps),
        0 <= i < text@.len(),
        call_ensures(char_to_basic_x11_keysym, (text@[i],), keysym),
    ensures
        steps@.len() == text@.len(),
        keysym matches Some(key) ==> (steps@[i] matches KeyStep::Type { keysym: typed, label }
            && typed == key && label@ == poc_report::char_label(text@[i], log_text)),
        keysym is None ==> (steps@[i] matches KeyStep::Skip { message } && message@
            == poc_report::unsupported_char_text(text@[i], log_text)),
{
    assert(steps_view(steps@).len() == steps@.len());
    assert(steps_for(text@, log_text).len() == text@.len());
    assert(steps_view(steps@)[i] == steps@[i]@);
    assert(steps_for(text@, log_text)[i] == step_for(text@[i], log_text));
}

/// A text in two parts is typed as the parts, one after the other.
pub proof fn texts_are_typed_piecewise(a: Seq<char>, b: Seq<char>, log_text: bool)
    ensures
        steps_for(a + b, log_text) == steps_for(a, log_text) + steps_for(b, log_text),
{
    assert(steps_for(a + b, log_text) =~= steps_for(a, log_text) + steps_for(b, log_text));
}

/// A line that was read is typed as its text is, and Return comes last.
pub proof fn lines_end_in_return(
    line: &str,
    log_text: bool,
    steps: Vec<KeyStep>,
    typed: Vec<KeyStep>,
    i: int,
)
    requires
        call_ensures(line_steps, (line, log_text), steps),
        call_ensures(text_steps, (line, log_text), typed),
    ensures
        steps@.len() == line@.len() + 1,
        0 <= i < line@.len() ==> steps@[i]@ == typed@[i]@,
        steps@.last() matches KeyStep::Type { keysym, label } && keysym == 0xff0d && label@
            == "Return"@,
{
    assert(steps_view(steps@).len() == steps@.len());
    assert(steps_view(typed@).len() == typed@.len());
    if 0 <= i < line@.len() {
        assert(steps_view(steps@)[i] == steps@[i]@);
        assert(steps_view(typed@)[i] == typed@[i]@);
    }
    assert(steps_view(steps@).last() == steps@.last()@);
}

/// Hands one stroke of a key to the engine, without a key code or modifiers,
/// and tells how it came out.
pub fn stroke_key<B: ImeBackend + ?Sized>(
    engine: &ImeEngine<B>,
    keysym: u32,
    label: &str,
    is_release: bool,
    log_text: bool,
) -> (line: String)
    ensures
        exists|handled: bool|
            #[trigger] call_ensures(
                B::process_key_event,
                (&*engine.backend(), keysym, 0u32, 0u32, is_release),
                handled,
            ) && line@ == poc_report::key_report(label@, keysym, is_release, handled, log_text),
{
    let handled = engine.process_key_event(keysym, 0, 0, is_release);
    format_key_report(label, keysym, is_release, handled, log_text)
}

// ---------------------------------------------------------------------------
// Surrounding text
// ---------------------------------------------------------------------------

/// What became of the wish to announce the surrounding text.
#[derive(Debug, Clone, Copy, PartialEq, Eq, Structural)]
pub enum Announcement {
    /// There was no such wish.
    NotAsked,
    /// The backend cannot take it.
    NotSupported,
    /// The backend was told.
    Sent,
}

impl Announcement {
    /// What to do, given whether a text was asked for and what the backend can do.
    pub open spec fn due(asked: bool, caps: ImeCapabilities) -> Announcement {
        if !asked {
            Announcement::NotAsked
        } else if caps.0 & ImeCapabilities::SURROUNDING_TEXT == 0 {
            Announcement::NotSupported
        } else {
            Announcement::Sent
        }
    }

    /// What to do, given whether a text was asked for and what the backend can do.
    pub fn decide(asked: bool, caps: ImeCapabilities) -> (announcement: Announcement)
        ensures
            announcement == Announcement::due(asked, caps),
    {
        if !asked {
            Announcement::NotAsked
        } else if caps.bits() & ImeCapabilities::SURROUNDING_TEXT == 0 {
            Announcement::NotSupported
        } else {
            Announcement::Sent
        }
    }

    /// What to say of it in the log, if anything.
    pub fn message(self) -> (message: Option<&'static str>)
        ensures
            match self {
                Announcement::NotAsked => message is None,
                Announcement::NotSupported => message matches Some(m) && m@
                    == "Backend capability missing: surrounding_text. Skipping set_surrounding_text."@,
                Announcement::Sent => message matches Some(m) && m@
                    == "set_surrounding_text called."@,
            },
    {
        match self {
            Announcement::NotAsked => None,
            Announcement::NotSupported => Some(
                "Backend capability missing: surrounding_text. Skipping set_surrounding_text.",
            ),
            Announcement::Sent => Some("set_surrounding_text called."),
        }
    }
}

/// Announces a text by `set`, provided that a backend with these capabilities
/// can take one. `set` has to be ready for that alone: where the capability is
/// missing, it is not called.
pub fn announce<F: FnOnce(&SurroundingTextArgs)>(
    asked: &SurroundingTextArgs,
    caps: ImeCapabilities,
    set: F,
) -> (announcement: Announcement)
    requires
        Announcement::due(true, caps) == Announcement::Sent ==> call_requires(set, (asked,)),
    ensures
        announcement == Announcement::due(true, caps),
        announcement == Announcement::Sent ==> call_ensures(set, (asked,), ()),
{
    let announcement = Announcement::decide(true, caps);
    if let Announcement::Sent = announcement {
        set(asked);
    }
    announcement
}

/// Whether a backend was told the text that was asked for.
pub open spec fn told<B: ImeBackend + ?Sized>(
    engine: ImeEngine<B>,
    asked: SurroundingTextArgs,
) -> bool {
    exists|text: &str|
        #![trigger text.view()]
        text@ == asked.text@ && call_ensures(
            B::set_surrounding_text,
            (&*engine.backend(), text, asked.cursor, asked.anchor),
            (),
        )
}

/// Announces the surrounding text that was asked for, provided that the
/// backend says it can take one. That nothing is announced otherwise is a
/// matter of [`announce`]; the contract here leaves it unsaid.
pub fn maybe_set_surrounding_text<B: ImeBackend + ?Sized>(
    engine: &ImeEngine<B>,
    args: Option<&SurroundingTextArgs>,
) -> (announcement: Announcement)
    ensures
        match args {
            None => announcement == Announcement::NotAsked,
            Some(asked) => {
                &&& exists|caps: ImeCapabilities| #[trigger]
                    call_ensures(B::capabilities, (&*engine.backend(),), caps) && announcement
                        == Announcement::due(true, caps)
                &&& announcement == Announcement::Sent ==> told(*engine, *asked)
            },
        },
{
    match args {
        None => Announcement::NotAsked,
        Some(asked) => {
            let caps = engine.capabilities();
            announce(
                asked,
                caps,
                |args: &SurroundingTextArgs|
                    ensures
                        told(*engine, *args)
                    {
                        let text = args.text.as_str();
                        engine.set_surrounding_text(text, args.cursor, args.anchor);
                        assert(text@ == args.text@);
                    },
            )
        },
    }
}

/// A text is announced just where one was asked for and the backend says that
/// it can take one.
pub proof fn announcements_go_by_the_capability(
    asked: bool,
    caps: ImeCapabilities,
    announcement: Announcement,
)
    requires
        call_ensures(Announcement::decide, (asked, caps), announcement),
    ensures
        announcement == Announcement::Sent <==> asked && caps.0 & 0x10 != 0,
        announcement == Announcement::NotSupported <==> asked && caps.0 & 0x10 == 0,
        announcement == Announcement::NotAsked <==> !asked,
{
}

/// What a backend is told is the text that was asked for, with the cursor and
/// the anchor that were asked for, each in its place.
pub proof fn told_is_what_was_asked_for<B: ImeBackend + ?Sized>(
    engine: ImeEngine<B>,
    asked: SurroundingTextArgs,
)
    requires
        told(engine, asked),
    ensures
        exists|text: &str|
            #![trigger text.view()]
            text@ == asked.text@ && call_ensures(
                B::set_surrounding_text,
                (&*engine.backend(), text, asked.cursor, asked.anchor),
                (),
            ),
{
}

} // verus!
