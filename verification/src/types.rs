//! The values that pass between the host, the engine and the backends.

use vstd::prelude::*;

verus! {

/// Modifier state of a key event.
///
/// The low bits follow the X11 modifier mask; the release flag says that the
/// key went up rather than down.
#[derive(Debug, Clone, Copy)]
pub struct KeyState(pub u32);

impl KeyState {
    pub const SHIFT: u32 = 0x0000_0001;

    pub const LOCK: u32 = 0x0000_0002;

    pub const CTRL: u32 = 0x0000_0004;

    pub const ALT: u32 = 0x0000_0008;

    pub const RELEASE: u32 = 0x4000_0000;
}

impl Default for KeyState {
    fn default() -> (state: Self)
        ensures
            state == KeyState(0),
    {
        KeyState(0)
    }
}

/// What an input method tells the host.
#[derive(Debug, Clone)]
pub enum ImeEvent {
    /// The text under composition changed.
    ///
    /// Both cursor positions count Unicode characters, not bytes.
    Preedit { text: String, cursor_begin: i32, cursor_end: i32 },
    /// The composition ended, cancelled or cleared by the user.
    PreeditEnd,
    /// The user settled on a text.
    Commit { text: String },
    /// The input method asks for text around the cursor to be deleted.
    DeleteSurroundingText { before: u32, after: u32 },
    /// The input method passes a key on to the host unhandled.
    ForwardKey { keyval: u32, state: KeyState },
}

/// An [`ImeEvent`] with its text as a sequence of characters.
#[verifier::ext_equal]
pub enum EventView {
    Preedit { text: Seq<char>, cursor_begin: i32, cursor_end: i32 },
    PreeditEnd,
    Commit { text: Seq<char> },
    DeleteSurroundingText { before: u32, after: u32 },
    ForwardKey { keyval: u32, state: u32 },
}

impl EventView {
    /// The capability that a backend declares if it gives such events.
    pub open spec fn capability(self) -> u32 {
        match self {
            EventView::Preedit { .. } => ImeCapabilities::PREEDIT,
            EventView::PreeditEnd => ImeCapabilities::PREEDIT,
            EventView::Commit { .. } => ImeCapabilities::COMMIT,
            EventView::DeleteSurroundingText { .. } => ImeCapabilities::DELETE_SURROUNDING_TEXT,
            EventView::ForwardKey { .. } => ImeCapabilities::FORWARD_KEY,
        }
    }
}

impl View for ImeEvent {
    type V = EventView;

    open spec fn view(&self) -> EventView {
        match *self {
            ImeEvent::Preedit { text, cursor_begin, cursor_end } => EventView::Preedit {
                text: text@,
                cursor_begin,
                cursor_end,
            },
            ImeEvent::PreeditEnd => EventView::PreeditEnd,
            ImeEvent::Commit { text } => EventView::Commit { text: text@ },
            ImeEvent::DeleteSurroundingText { before, after } => EventView::DeleteSurroundingText {
                before,
                after,
            },
            ImeEvent::ForwardKey { keyval, state } => EventView::ForwardKey {
                keyval,
                state: state.0,
            },
        }
    }
}

/// The cursor's rectangle in screen coordinates, by which an input method
/// places its candidate window.
#[derive(Debug, Clone, Copy)]
pub struct CursorRect {
    pub x: i32,
    pub y: i32,
    pub width: i32,
    pub height: i32,
}

impl Default for CursorRect {
    fn default() -> (rect: Self)
        ensures
            rect == (CursorRect { x: 0, y: 0, width: 0, height: 0 }),
    {
        CursorRect { x: 0, y: 0, width: 0, height: 0 }
    }
}

/// What kind of text an input field expects.
#[derive(Debug, Clone, Copy, PartialEq, Eq, Structural)]
pub enum ContentType {
    Normal,
    Password,
    Number,
    Phone,
    Url,
    Email,
}

impl Default for ContentType {
    fn default() -> (content_type: Self)
        ensures
            content_type == ContentType::Normal,
    {
        ContentType::Normal
    }
}

/// The input method framework behind a backend.
#[derive(Debug, Clone, Copy, PartialEq, Eq, Structural)]
pub enum BackendKind {
    Unknown,
    Fcitx5,
    Fcitx4,
    IBus,
}

impl BackendKind {
    /// The number by which the C interface names this kind.
    pub open spec fn abi(self) -> i32 {
        match self {
            BackendKind::Unknown => 0,
            BackendKind::Fcitx5 => 1,
            BackendKind::Fcitx4 => 2,
            BackendKind::IBus => 3,
        }
    }

    /// The number by which the C interface names this kind.
    pub fn as_abi(self) -> (value: i32)
        ensures
            value == self.abi(),
    {
        match self {
            BackendKind::Unknown => 0,
            BackendKind::Fcitx5 => 1,
            BackendKind::Fcitx4 => 2,
            BackendKind::IBus => 3,
        }
    }
}

/// The set of things a backend can do, one bit each.
///
/// The constants are the bits; a set is made of their union.
#[derive(Debug, Clone, Copy, PartialEq, Eq, Structural)]
pub struct ImeCapabilities(pub u32);

impl ImeCapabilities {
    pub const NONE: u32 = 0x00;

    pub const PREEDIT: u32 = 0x01;

    pub const COMMIT: u32 = 0x02;

    pub const FORWARD_KEY: u32 = 0x04;

    pub const DELETE_SURROUNDING_TEXT: u32 = 0x08;

    pub const SURROUNDING_TEXT: u32 = 0x10;

    pub const CONTENT_TYPE: u32 = 0x20;

    /// The set as a mask of bits.
    pub fn bits(self) -> (bits: u32)
        ensures
            bits == self.0,
    {
        self.0
    }

    /// Whether this set holds every capability of `other`.
    pub open spec fn holds(self, other: ImeCapabilities) -> bool {
        self.0 & other.0 == other.0
    }
}

impl core::ops::BitOr for ImeCapabilities {
    type Output = ImeCapabilities;

    fn bitor(self, rhs: ImeCapabilities) -> (both: ImeCapabilities) {
        ImeCapabilities(self.0 | rhs.0)
    }
}

impl vstd::std_specs::ops::BitOrSpecImpl for ImeCapabilities {
    open spec fn obeys_bitor_spec() -> bool {
        true
    }

    open spec fn bitor_req(self, rhs: ImeCapabilities) -> bool {
        true
    }

    open spec fn bitor_spec(self, rhs: ImeCapabilities) -> ImeCapabilities {
        ImeCapabilities(self.0 | rhs.0)
    }
}

impl Default for ImeCapabilities {
    fn default() -> (caps: Self)
        ensures
            caps == ImeCapabilities(0),
    {
        ImeCapabilities(0)
    }
}

/// The C interface tells the four kinds apart.
pub proof fn abi_is_injective(a: BackendKind, b: BackendKind)
    requires
        a.abi() == b.abi(),
    ensures
        a == b,
{
}

/// The kinds are numbered from zero on, the unknown one first.
pub proof fn kinds_are_numbered_in_order(kind: BackendKind, value: i32)
    requires
        call_ensures(BackendKind::as_abi, (kind,), value),
    ensures
        0 <= value <= 3,
        kind == BackendKind::Unknown <==> value == 0,
        kind == BackendKind::Fcitx5 <==> value == 1,
        kind == BackendKind::Fcitx4 <==> value == 2,
        kind == BackendKind::IBus <==> value == 3,
{
}

/// Joining two sets keeps the capabilities of both.
pub proof fn union_holds_both(a: ImeCapabilities, b: ImeCapabilities)
    ensures
        ImeCapabilities(a.0 | b.0).holds(a),
        ImeCapabilities(a.0 | b.0).holds(b),
{
    let x: u32 = a.0;
    let y: u32 = b.0;
    assert((x | y) & x == x) by (bit_vector);
    assert((x | y) & y == y) by (bit_vector);
}

} // verus!
