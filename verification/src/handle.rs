//! What a host holds: an engine on the framework that was found.

use vstd::prelude::*;
use crossbeam_channel::Receiver;

use crate::backend::ImeBackend;
#[allow(unused_imports)]
use crate::engine;
use crate::engine::ImeEngine;
use crate::types::{BackendKind, ContentType, CursorRect, ImeCapabilities, ImeEvent};

verus! {

/// An input method, from the moment it was found until it is given up.
#[verifier::reject_recursive_types(E)]
pub struct ImeHandle<B: ?Sized, E = ImeEvent> {
    engine: ImeEngine<B, E>,
}

impl<B: ?Sized> ImeHandle<B> {
    /// A handle on the backend that was found; none where none was.
    pub fn create(backend: Option<Box<B>>, event_rx: Receiver<ImeEvent>) -> (handle: Option<Self>)
        ensures
            match backend {
                Some(found) => handle matches Some(h) && h.backend() == found && h.event_rx()
                    == event_rx,
                None => handle is None,
            },
    {
        match backend {
            Some(found) => Some(Self { engine: ImeEngine::new(found, event_rx) }),
            None => None,
        }
    }
}

impl<B: ?Sized, E> ImeHandle<B, E> {
    /// The backend that the calls go to.
    pub closed spec fn backend(&self) -> Box<B> {
        self.engine.backend()
    }

    /// The end of the queue that events are polled from.
    pub closed spec fn event_rx(&self) -> Receiver<E> {
        self.engine.event_rx()
    }

    /// Takes the next event off the queue, if one is waiting. That it takes
    /// only that one is left unsaid by the contract.
    pub fn poll_event(&self) -> (event: Option<E>)
        ensures
            engine::polled(self.event_rx(), event),
    {
        self.engine.poll_event()
    }
}

impl<B: ImeBackend + ?Sized, E> ImeHandle<B, E> {
    pub fn focus_in(&self)
        ensures
            call_ensures(B::focus_in, (&*self.backend(),), ()),
    {
        self.engine.focus_in();
    }

    pub fn backend_kind(&self) -> (kind: BackendKind)
        ensures
            call_ensures(B::backend_kind, (&*self.backend(),), kind),
    {
        self.engine.backend_kind()
    }

    pub fn capabilities(&self) -> (caps: ImeCapabilities)
        ensures
            call_ensures(B::capabilities, (&*self.backend(),), caps),
    {
        self.engine.capabilities()
    }

    pub fn focus_out(&self)
        ensures
            call_ensures(B::focus_out, (&*self.backend(),), ()),
    {
        self.engine.focus_out();
    }

    pub fn set_cursor_rect(&self, rect: CursorRect)
        ensures
            call_ensures(B::set_cursor_rect, (&*self.backend(), rect), ()),
    {
        self.engine.set_cursor_rect(rect);
    }

    pub fn set_surrounding_text(&self, text: &str, cursor: i32, anchor: i32)
        ensures
            call_ensures(B::set_surrounding_text, (&*self.backend(), text, cursor, anchor), ()),
    {
        self.engine.set_surrounding_text(text, cursor, anchor);
    }

    pub fn set_content_type(&self, content_type: ContentType)
        ensures
            call_ensures(B::set_content_type, (&*self.backend(), content_type), ()),
    {
        self.engine.set_content_type(content_type);
    }

    pub fn reset(&self)
        ensures
            call_ensures(B::reset, (&*self.backend(),), ()),
    {
        self.engine.reset();
    }

    pub fn process_key_event(
        &self,
        keyval: u32,
        keycode: u32,
        state: u32,
        is_release: bool,
    ) -> (handled: bool)
        ensures
            call_ensures(
                B::process_key_event,
                (&*self.backend(), keyval, keycode, state, is_release),
                handled,
            ),
    {
        self.engine.process_key_event(keyval, keycode, state, is_release)
    }
}

} // verus!
