//! The engine: what the host holds, between a backend and its event queue.

use vstd::prelude::*;
use crossbeam_channel::{Receiver, TryRecvError};

use crate::backend::ImeBackend;
use crate::queue::received_item;
use crate::types::{BackendKind, ContentType, CursorRect, ImeCapabilities, ImeEvent};

verus! {

/// A backend together with the queue it leaves its events on.
///
/// Calls go to the backend; events come back by [`ImeEngine::poll_event`]. The
/// contracts say which call is made with which arguments; that no other call is
/// made besides they leave unsaid.
///
/// The engine hands on what comes off the queue without looking into it: to the
/// engine an event is any value at all.
#[verifier::reject_recursive_types(E)]
pub struct ImeEngine<B: ?Sized, E = ImeEvent> {
    backend: Box<B>,
    event_rx: Receiver<E>,
}

impl<B: ?Sized> ImeEngine<B> {
    /// Puts an engine together.
    ///
    /// `event_rx` has to belong to the channel that the backend sends on, or
    /// [`ImeEngine::poll_event`] never finds an event.
    pub fn new(backend: Box<B>, event_rx: Receiver<ImeEvent>) -> (engine: Self)
        ensures
            engine.backend() == backend,
            engine.event_rx() == event_rx,
    {
        Self { backend, event_rx }
    }
}

impl<B: ?Sized, E> ImeEngine<B, E> {
    /// The backend that the calls go to.
    pub closed spec fn backend(&self) -> Box<B> {
        self.backend
    }

    /// The end of the queue that events are polled from.
    pub closed spec fn event_rx(&self) -> Receiver<E> {
        self.event_rx
    }

    /// Takes the next event off the queue, if one is waiting. That it takes
    /// only that one is left unsaid by the contract.
    pub fn poll_event(&self) -> (event: Option<E>)
        ensures
            polled(self.event_rx(), event),
    {
        received_item(self.event_rx.try_recv())
    }
}

impl<B: ImeBackend + ?Sized, E> ImeEngine<B, E> {
    /// What the backend says it is.
    pub fn backend_kind(&self) -> (kind: BackendKind)
        ensures
            call_ensures(B::backend_kind, (&*self.backend(),), kind),
    {
        self.backend.backend_kind()
    }

    /// What the backend says it can do.
    pub fn capabilities(&self) -> (caps: ImeCapabilities)
        ensures
            call_ensures(B::capabilities, (&*self.backend(),), caps),
    {
        self.backend.capabilities()
    }

    pub fn focus_in(&self)
        ensures
            call_ensures(B::focus_in, (&*self.backend(),), ()),
    {
        self.backend.focus_in();
    }

    pub fn focus_out(&self)
        ensures
            call_ensures(B::focus_out, (&*self.backend(),), ()),
    {
        self.backend.focus_out();
    }

    pub fn set_cursor_rect(&self, rect: CursorRect)
        ensures
            call_ensures(B::set_cursor_rect, (&*self.backend(), rect), ()),
    {
        self.backend.set_cursor_rect(rect);
    }

    pub fn set_surrounding_text(&self, text: &str, cursor: i32, anchor: i32)
        ensures
            call_ensures(B::set_surrounding_text, (&*self.backend(), text, cursor, anchor), ()),
    {
        self.backend.set_surrounding_text(text, cursor, anchor);
    }

    pub fn set_content_type(&self, content_type: ContentType)
        ensures
            call_ensures(B::set_content_type, (&*self.backend(), content_type), ()),
    {
        self.backend.set_content_type(content_type);
    }

    /// Hands a key to the backend. True where the input method took it.
    pub fn process_key_event(
        &self,
        keyval: u32,
        keycode: u32,
        state: u32,
        is_release: bool,
    ) -> (handled: bool)
        ensures
            call_ensures(
                B::process_key_event,
                (&*self.backend(), keyval, keycode, state, is_release),
                handled,
            ),
    {
        self.backend.process_key_event(keyval, keycode, state, is_release)
    }

    pub fn reset(&self)
        ensures
            call_ensures(B::reset, (&*self.backend(),), ()),
    {
        self.backend.reset();
    }
}

/// Whether `event` is what one attempt to receive on `rx` came to: the event
/// received, or none where the attempt failed.
pub open spec fn polled<E>(rx: Receiver<E>, event: Option<E>) -> bool {
    exists|received: Result<E, TryRecvError>|
        {
            &&& #[trigger] call_ensures(Receiver::<E>::try_recv, (&rx,), received)
            &&& event == (match received {
                Ok(e) => Some(e),
                Err(_) => None,
            })
        }
}

/// What is polled was received just so, and nothing that was received is held
/// back.
pub proof fn polled_event_was_received<E>(rx: Receiver<E>, event: Option<E>)
    requires
        polled(rx, event),
    ensures
        match event {
            Some(e) => call_ensures(
                Receiver::<E>::try_recv,
                (&rx,),
                Ok::<E, TryRecvError>(e),
            ),
            None => exists|error: TryRecvError|
                #[trigger] call_ensures(
                    Receiver::<E>::try_recv,
                    (&rx,),
                    Err::<E, TryRecvError>(error),
                ),
        },
{
    let received = choose|received: Result<E, TryRecvError>|
        #[trigger] call_ensures(Receiver::<E>::try_recv, (&rx,), received) && event == (
        match received {
            Ok(e) => Some(e),
            Err(_) => None,
        });
    if let Err(error) = received {
        assert(call_ensures(Receiver::<E>::try_recv, (&rx,), Err::<E, TryRecvError>(error)));
    }
}

} // verus!
