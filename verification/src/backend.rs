//! The interface between the engine and an input method framework.

use vstd::prelude::*;

use crate::types::{BackendKind, ContentType, CursorRect, ImeCapabilities};

verus! {

/// One input method framework, as the engine drives it.
///
/// Every method may be called from any thread. An implementation bridges the
/// calls to whatever runtime it talks to its framework with.
pub trait ImeBackend: Send + 'static {
    /// The framework behind this backend; unknown unless the backend says so.
    fn backend_kind(&self) -> (kind: BackendKind)
        default_ensures
            kind == BackendKind::Unknown,
    {
        BackendKind::Unknown
    }

    /// What this backend can do; nothing unless the backend says so.
    fn capabilities(&self) -> (caps: ImeCapabilities)
        default_ensures
            caps == ImeCapabilities(ImeCapabilities::NONE),
    {
        ImeCapabilities(ImeCapabilities::NONE)
    }

    /// The text field gained the focus.
    fn focus_in(&self);

    /// The text field lost the focus.
    fn focus_out(&self);

    /// The cursor moved; the candidate window goes by its rectangle.
    fn set_cursor_rect(&self, rect: CursorRect);

    /// The text around the cursor, with the cursor and the selection's other
    /// end as byte offsets into it.
    fn set_surrounding_text(&self, text: &str, cursor: i32, anchor: i32);

    /// The kind of text the field expects. Ignored unless the backend has a
    /// use for it.
    fn set_content_type(&self, _content_type: ContentType) {
    }

    /// Hands a key to the input method and waits for its answer, about 200 ms
    /// at most. True where the input method took the key, so that the host
    /// leaves it alone.
    fn process_key_event(&self, keyval: u32, keycode: u32, state: u32, is_release: bool) -> bool;

    /// Drops the composition under way.
    fn reset(&self);
}

/// A call that the engine makes on a backend, as a value.
pub enum BackendCall {
    FocusIn,
    FocusOut,
    SetCursorRect { rect: CursorRect },
    SetSurroundingText { text: String, cursor: i32, anchor: i32 },
    SetContentType { content_type: ContentType },
    ProcessKeyEvent { keyval: u32, keycode: u32, state: u32, is_release: bool },
    Reset,
}

} // verus!
