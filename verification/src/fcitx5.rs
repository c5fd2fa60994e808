//! The Fcitx5 backend, as found on KDE and the like: what it asks of the
//! framework over D-Bus, and what it makes of the framework's answers.

use vstd::prelude::*;
#[allow(unused_imports)]
use vstd::string::*;

use crate::backend::BackendCall;
use crate::convert;
use crate::convert::{clamp_offset, encode_release, join_segments, preedit_event, KeyReply};
#[allow(unused_imports)]
use crate::types::CursorRect;
use crate::types::{EventView, ImeCapabilities, ImeEvent, KeyState};

verus! {

/// The framework may look at the text around the cursor.
pub const CAPABILITY_SURROUNDING_TEXT: u32 = 0x01;

/// The host shows the composed text itself.
pub const CAPABILITY_PREEDIT: u32 = 0x02;

/// What the Fcitx5 backend can do.
pub open spec fn declared() -> u32 {
    ImeCapabilities::PREEDIT | ImeCapabilities::COMMIT | ImeCapabilities::FORWARD_KEY
        | ImeCapabilities::SURROUNDING_TEXT
}

/// What the Fcitx5 backend can do.
pub fn fcitx5_capabilities() -> (caps: ImeCapabilities)
    ensures
        caps.0 == declared(),
{
    ImeCapabilities(
        ImeCapabilities::PREEDIT | ImeCapabilities::COMMIT | ImeCapabilities::FORWARD_KEY
            | ImeCapabilities::SURROUNDING_TEXT,
    )
}

// ---------------------------------------------------------------------------
// Connecting
// ---------------------------------------------------------------------------

/// What to do next to connect.
pub enum Fcitx5Step {
    OpenSession,
    BindInputMethod,
    /// Ask for the version, to see that the service answers.
    QueryVersion,
    CreateContext { key: String, value: String },
    BindContext { path: String },
    SetCapability { flags: u32 },
    /// Subscribe to the signals, as [`subscribe_next`] says.
    StartListening,
    Connected,
    /// What failed, and the error behind it where `message` is not that error
    /// itself.
    Failed { message: String, cause: Option<String> },
}

/// A [`Fcitx5Step`] with its texts as sequences of characters.
#[verifier::ext_equal]
pub enum Fcitx5StepView {
    OpenSession,
    BindInputMethod,
    QueryVersion,
    CreateContext { key: Seq<char>, value: Seq<char> },
    BindContext { path: Seq<char> },
    SetCapability { flags: u32 },
    StartListening,
    Connected,
    Failed { message: Seq<char>, cause: Option<Seq<char>> },
}

impl View for Fcitx5Step {
    type V = Fcitx5StepView;

    open spec fn view(&self) -> Fcitx5StepView {
        match *self {
            Fcitx5Step::OpenSession => Fcitx5StepView::OpenSession,
            Fcitx5Step::BindInputMethod => Fcitx5StepView::BindInputMethod,
            Fcitx5Step::QueryVersion => Fcitx5StepView::QueryVersion,
            Fcitx5Step::CreateContext { key, value } => Fcitx5StepView::CreateContext {
                key: key@,
                value: value@,
            },
            Fcitx5Step::BindContext { path } => Fcitx5StepView::BindContext { path: path@ },
            Fcitx5Step::SetCapability { flags } => Fcitx5StepView::SetCapability { flags },
            Fcitx5Step::StartListening => Fcitx5StepView::StartListening,
            Fcitx5Step::Connected => Fcitx5StepView::Connected,
            Fcitx5Step::Failed { message, cause } => Fcitx5StepView::Failed {
                message: message@,
                cause: match cause {
                    Some(c) => Some(c@),
                    None => None,
                },
            },
        }
    }
}

/// What came of a step: the text it returned, empty where it returns none, or
/// the error it failed with.
pub type Fcitx5Outcome = Result<String, String>;

/// The text that an outcome carries, a result's or an error's.
pub open spec fn outcome_text(outcome: Fcitx5Outcome) -> Seq<char> {
    match outcome {
        Ok(value) => value@,
        Err(message) => message@,
    }
}

/// A failure that is an error itself.
pub open spec fn failure(error: Seq<char>) -> Fcitx5StepView {
    Fcitx5StepView::Failed { message: error, cause: None }
}

/// A failure told by what was attempted, with the error behind it.
pub open spec fn failure_in(attempt: Seq<char>, error: Seq<char>) -> Fcitx5StepView {
    Fcitx5StepView::Failed { message: attempt, cause: Some(error) }
}

fn fail(error: String) -> (step: Fcitx5Step)
    ensures
        step@ == failure(error@),
{
    Fcitx5Step::Failed { message: error, cause: None }
}

fn fail_in(attempt: &str, error: String) -> (step: Fcitx5Step)
    ensures
        step@ == failure_in(attempt@, error@),
{
    Fcitx5Step::Failed { message: attempt.to_owned(), cause: Some(error) }
}

/// The step after `step`, once that has come to `outcome`.
///
/// Each step has to succeed for the next to be taken, but for the last: a
/// backend that could not subscribe to a signal is connected all the same.
pub open spec fn step_after(step: Fcitx5StepView, outcome: Fcitx5Outcome) -> Fcitx5StepView {
    match step {
        Fcitx5StepView::OpenSession => if outcome is Ok {
            Fcitx5StepView::BindInputMethod
        } else {
            failure(outcome_text(outcome))
        },
        Fcitx5StepView::BindInputMethod => if outcome is Ok {
            Fcitx5StepView::QueryVersion
        } else {
            failure_in("Fcitx5 not available on D-Bus"@, outcome_text(outcome))
        },
        Fcitx5StepView::QueryVersion => if outcome is Ok {
            Fcitx5StepView::CreateContext { key: "program"@, value: "native-ime"@ }
        } else {
            failure_in("Fcitx5 InputMethod not responding"@, outcome_text(outcome))
        },
        Fcitx5StepView::CreateContext { .. } => if outcome is Ok {
            Fcitx5StepView::BindContext { path: outcome_text(outcome) }
        } else {
            failure(outcome_text(outcome))
        },
        Fcitx5StepView::BindContext { .. } => if outcome is Ok {
            Fcitx5StepView::SetCapability {
                flags: CAPABILITY_SURROUNDING_TEXT | CAPABILITY_PREEDIT,
            }
        } else {
            failure(outcome_text(outcome))
        },
        Fcitx5StepView::SetCapability { .. } => if outcome is Ok {
            Fcitx5StepView::StartListening
        } else {
            failure(outcome_text(outcome))
        },
        Fcitx5StepView::StartListening => Fcitx5StepView::Connected,
        Fcitx5StepView::Connected => step,
        Fcitx5StepView::Failed { .. } => step,
    }
}

/// The step after `step`, once that has come to `outcome`. The end of the
/// road stays where it is.
pub fn connect_next(step: Fcitx5Step, outcome: Fcitx5Outcome) -> (next: Fcitx5Step)
    ensures
        next@ == step_after(step@, outcome),
{
    match step {
        Fcitx5Step::OpenSession => match outcome {
            Ok(_) => Fcitx5Step::BindInputMethod,
            Err(error) => fail(error),
        },
        Fcitx5Step::BindInputMethod => match outcome {
            Ok(_) => Fcitx5Step::QueryVersion,
            Err(error) => fail_in("Fcitx5 not available on D-Bus", error),
        },
        Fcitx5Step::QueryVersion => match outcome {
            Ok(_) => Fcitx5Step::CreateContext {
                key: "program".to_owned(),
                value: "native-ime".to_owned(),
            },
            Err(error) => fail_in("Fcitx5 InputMethod not responding", error),
        },
        Fcitx5Step::CreateContext { .. } => match outcome {
            Ok(path) => Fcitx5Step::BindContext { path },
            Err(error) => fail(error),
        },
        Fcitx5Step::BindContext { .. } => match outcome {
            Ok(_) => Fcitx5Step::SetCapability {
                flags: CAPABILITY_SURROUNDING_TEXT | CAPABILITY_PREEDIT,
            },
            Err(error) => fail(error),
        },
        Fcitx5Step::SetCapability { .. } => match outcome {
            Ok(_) => Fcitx5Step::StartListening,
            Err(error) => fail(error),
        },
        Fcitx5Step::StartListening => Fcitx5Step::Connected,
        Fcitx5Step::Connected => Fcitx5Step::Connected,
        Fcitx5Step::Failed { message, cause } => Fcitx5Step::Failed { message, cause },
    }
}

/// Where a connection stands after a run of outcomes.
pub open spec fn connect_run(outcomes: Seq<Fcitx5Outcome>) -> Fcitx5StepView
    decreases outcomes.len(),
{
    if outcomes.len() == 0 {
        Fcitx5StepView::OpenSession
    } else {
        step_after(connect_run(outcomes.drop_last()), outcomes.last())
    }
}

/// A connection stands after seven outcomes just where the framework granted
/// every one of the first six, and otherwise it has failed.
pub proof fn connects_iff_all_granted(outcomes: Seq<Fcitx5Outcome>)
    requires
        outcomes.len() == 7,
    ensures
        (forall|i: int| 0 <= i < 6 ==> #[trigger] outcomes[i] is Ok) ==> connect_run(outcomes)
            == Fcitx5StepView::Connected,
        (exists|i: int| 0 <= i < 6 && #[trigger] outcomes[i] is Err) ==> connect_run(
            outcomes,
        ) is Failed,
{
    reveal_with_fuel(connect_run, 8);
}

/// A step that fails with an error leads to a failure that holds the error, as
/// its message or as its cause.
pub proof fn failures_keep_the_error(step: Fcitx5StepView, error: String)
    requires
        !(step is StartListening || step is Connected || step is Failed),
    ensures
        step_after(step, Err(error)) matches Fcitx5StepView::Failed { message, cause } && (message
            == error@ || cause == Some(error@)),
{
}

/// The context that Fcitx5 created is the one that is used.
pub proof fn created_context_is_bound(step: Fcitx5Step, path: String, next: Fcitx5Step)
    requires
        step is CreateContext,
        call_ensures(connect_next, (step, Ok::<String, String>(path)), next),
    ensures
        next matches Fcitx5Step::BindContext { path: bound } && bound@ == path@,
{
}

/// A step that fails tells the error itself, or what was attempted with the
/// error behind it; what was attempted is told alike for every error.
pub proof fn failures_are_told(step: Fcitx5Step, error: String, other: String)
    requires
        !(step is StartListening || step is Connected || step is Failed),
    ensures
        step_after(step@, Err(error)) matches Fcitx5StepView::Failed { message, cause } && {
            let behind = step is BindInputMethod || step is QueryVersion;
            &&& behind ==> cause == Some(error@)
            &&& !behind ==> message == error@ && cause is None
            &&& step_after(step@, Err(other)) matches Fcitx5StepView::Failed { message: m, .. } && (
            behind ==> m == message)
        },
{
}

// ---------------------------------------------------------------------------
// Listening
// ---------------------------------------------------------------------------

/// The signals of an input context.
#[derive(Debug, Clone, Copy, PartialEq, Eq, Structural)]
pub enum Fcitx5SignalKind {
    CommitString,
    UpdatePreedit,
    ForwardKey,
}

/// How far the subscriptions have come.
#[derive(Debug, Clone, Copy, PartialEq, Eq, Structural)]
pub enum Fcitx5Listening {
    Subscribe(Fcitx5SignalKind),
    Listening,
    /// A subscription failed, and with it the signal loop.
    Abandoned,
}

/// The subscription that comes after `kind` has been tried.
pub open spec fn listening_after(kind: Fcitx5SignalKind, subscribed: bool) -> Fcitx5Listening {
    if !subscribed {
        Fcitx5Listening::Abandoned
    } else {
        match kind {
            Fcitx5SignalKind::CommitString => Fcitx5Listening::Subscribe(
                Fcitx5SignalKind::UpdatePreedit,
            ),
            Fcitx5SignalKind::UpdatePreedit => Fcitx5Listening::Subscribe(
                Fcitx5SignalKind::ForwardKey,
            ),
            Fcitx5SignalKind::ForwardKey => Fcitx5Listening::Listening,
        }
    }
}

/// The first subscription.
pub fn subscribe_first() -> (first: Fcitx5Listening)
    ensures
        first == Fcitx5Listening::Subscribe(Fcitx5SignalKind::CommitString),
{
    Fcitx5Listening::Subscribe(Fcitx5SignalKind::CommitString)
}

/// The subscription that comes after `kind` has been tried.
pub fn subscribe_next(kind: Fcitx5SignalKind, subscribed: bool) -> (next: Fcitx5Listening)
    ensures
        next == listening_after(kind, subscribed),
{
    if !subscribed {
        return Fcitx5Listening::Abandoned;
    }
    match kind {
        Fcitx5SignalKind::CommitString => Fcitx5Listening::Subscribe(
            Fcitx5SignalKind::UpdatePreedit,
        ),
        Fcitx5SignalKind::UpdatePreedit => Fcitx5Listening::Subscribe(
            Fcitx5SignalKind::ForwardKey,
        ),
        Fcitx5SignalKind::ForwardKey => Fcitx5Listening::Listening,
    }
}

/// How far the subscriptions have come after a run of attempts, each true
/// where it succeeded.
pub open spec fn listen_run(attempts: Seq<bool>) -> Fcitx5Listening
    decreases attempts.len(),
{
    if attempts.len() == 0 {
        Fcitx5Listening::Subscribe(Fcitx5SignalKind::CommitString)
    } else {
        match listen_run(attempts.drop_last()) {
            Fcitx5Listening::Subscribe(kind) => listening_after(kind, attempts.last()),
            over => over,
        }
    }
}

/// The backend listens after as many attempts as there are signals just where
/// every one of them succeeded; otherwise the signal loop is abandoned.
pub proof fn listens_iff_all_subscribed(attempts: Seq<bool>)
    requires
        attempts.len() == 3,
    ensures
        listen_run(attempts) == (if attempts.contains(false) {
            Fcitx5Listening::Abandoned
        } else {
            Fcitx5Listening::Listening
        }),
{
    reveal_with_fuel(listen_run, 4);
    if attempts.contains(false) {
        let i = attempts.index_of(false);
        assert(!attempts[i]);
    } else {
        assert forall|i: int| 0 <= i < 3 implies #[trigger] attempts[i] by {
            assert(attempts.contains(attempts[i]));
        }
    }
}

/// A signal, with its arguments.
pub enum Fcitx5Signal {
    CommitString { text: String },
    UpdatePreedit { texts: Vec<(String, i32)>, cursor_pos: i32 },
    ForwardKey { keyval: u32, state: u32, is_release: bool },
}

impl Fcitx5Signal {
    /// The event that the signal stands for.
    pub open spec fn event(self) -> EventView {
        match self {
            Fcitx5Signal::CommitString { text } => EventView::Commit { text: text@ },
            Fcitx5Signal::UpdatePreedit { texts, cursor_pos } => convert::preedit_view(
                convert::segments_text(texts@),
                cursor_pos,
            ),
            Fcitx5Signal::ForwardKey { keyval, state, is_release } => EventView::ForwardKey {
                keyval,
                state: convert::key_state(state, is_release),
            },
        }
    }
}

/// The event that a signal stands for. Fcitx5 tells a release by an argument
/// of its own; in the event it is a flag in the key's state.
pub fn signal_event(signal: Fcitx5Signal) -> (event: ImeEvent)
    ensures
        event@ == signal.event(),
{
    match signal {
        Fcitx5Signal::CommitString { text } => ImeEvent::Commit { text },
        Fcitx5Signal::UpdatePreedit { texts, cursor_pos } => {
            let text = join_segments(texts.as_slice());
            preedit_event(text, cursor_pos)
        },
        Fcitx5Signal::ForwardKey { keyval, state, is_release } => {
            let state: u32 = encode_release(state, is_release);
            ImeEvent::ForwardKey { keyval, state: KeyState(state) }
        },
    }
}

/// A text that the user settled on reaches the host as a commit of just that
/// text, and nothing else does.
pub proof fn committed_text_is_committed(signal: Fcitx5Signal, event: ImeEvent)
    requires
        call_ensures(signal_event, (signal,), event),
    ensures
        signal is CommitString <==> event is Commit,
        signal matches Fcitx5Signal::CommitString { text } ==> (event matches ImeEvent::Commit {
            text: committed,
        } && committed@ == text@),
{
}

/// A change of the composed text, and nothing else, shows or ends a composition.
/// It ends where no segment holds a character. Otherwise every segment is shown,
/// right after those before it, whatever the formats, with the cursor where
/// Fcitx5 puts it.
pub proof fn composed_text_is_shown(
    signal: Fcitx5Signal,
    texts: Vec<(String, i32)>,
    cursor_pos: i32,
    event: ImeEvent,
    i: int,
)
    requires
        call_ensures(signal_event, (signal,), event),
    ensures
        signal is UpdatePreedit <==> event is Preedit || event is PreeditEnd,
        signal == (Fcitx5Signal::UpdatePreedit { texts, cursor_pos }) ==> {
            let total = convert::start_of_segment(texts@, texts@.len() as int);
            &&& event is PreeditEnd <==> total == 0
            &&& event matches ImeEvent::Preedit { text, cursor_begin, cursor_end } ==> {
                &&& text@.len() == total
                &&& cursor_begin == cursor_pos
                &&& cursor_end == cursor_pos
                &&& 0 <= i < texts@.len() ==> text@.subrange(
                    convert::start_of_segment(texts@, i) as int,
                    (convert::start_of_segment(texts@, i) + texts@[i].0@.len()) as int,
                ) == texts@[i].0@
            }
        },
{
    if signal == (Fcitx5Signal::UpdatePreedit { texts, cursor_pos }) {
        convert::preedit_shows_the_text(convert::segments_text(texts@), cursor_pos);
        if texts@.len() > 0 {
            convert::segments_stand_in_order(texts@, 0);
        }
        if 0 <= i < texts@.len() {
            convert::segments_stand_in_order(texts@, i);
        }
    }
}

/// A key that is passed on reaches the host as the same key, with the modifiers
/// it had; its state says that it went up just where it did, provided that the
/// flag was free. Nothing else is a key.
pub proof fn forwarded_key_is_the_same_key(signal: Fcitx5Signal, event: ImeEvent)
    requires
        call_ensures(signal_event, (signal,), event),
    ensures
        signal is ForwardKey <==> event is ForwardKey,
        signal matches Fcitx5Signal::ForwardKey { keyval, state, is_release } ==> (
        event matches ImeEvent::ForwardKey { keyval: key, state: mask } && {
            &&& key == keyval
            &&& mask.0 & 0xbfff_ffff == state & 0xbfff_ffff
            &&& !is_release ==> mask.0 == state
            &&& is_release ==> mask.0 & 0x4000_0000 == 0x4000_0000
        }),
{
    if let Fcitx5Signal::ForwardKey { keyval, state, is_release } = signal {
        convert::release_leaves_modifiers_alone(state, is_release);
    }
}

/// Every signal of Fcitx5 gives an event of a sort that the backend declares.
pub proof fn signals_are_declared(signal: Fcitx5Signal)
    ensures
        declared() & signal.event().capability() != 0,
{
    assert((0x01u32 | 0x02u32 | 0x04u32 | 0x10u32) & 0x01u32 != 0) by (bit_vector);
    assert((0x01u32 | 0x02u32 | 0x04u32 | 0x10u32) & 0x02u32 != 0) by (bit_vector);
    assert((0x01u32 | 0x02u32 | 0x04u32 | 0x10u32) & 0x04u32 != 0) by (bit_vector);
}

// ---------------------------------------------------------------------------
// Calling
// ---------------------------------------------------------------------------

/// A method call on the input context.
pub enum Fcitx5Request {
    FocusIn,
    FocusOut,
    SetCursorRect { x: i32, y: i32, w: i32, h: i32 },
    SetSurroundingText { text: String, cursor: u32, anchor: u32 },
    ProcessKeyEvent { keyval: u32, keycode: u32, state: u32, is_release: bool, time: u32 },
    Reset,
}

/// The method call that carries out a call of the engine; none for the content
/// type, which Fcitx5 is not told.
pub fn request(call: BackendCall) -> (request: Option<Fcitx5Request>)
    ensures
        request == (match call {
            BackendCall::FocusIn => Some(Fcitx5Request::FocusIn),
            BackendCall::FocusOut => Some(Fcitx5Request::FocusOut),
            BackendCall::SetCursorRect { rect } => Some(
                Fcitx5Request::SetCursorRect { x: rect.x, y: rect.y, w: rect.width, h: rect.height },
            ),
            BackendCall::SetSurroundingText { text, cursor, anchor } => Some(
                Fcitx5Request::SetSurroundingText {
                    text,
                    cursor: convert::offset_arg(cursor),
                    anchor: convert::offset_arg(anchor),
                },
            ),
            BackendCall::SetContentType { .. } => None,
            BackendCall::ProcessKeyEvent { keyval, keycode, state, is_release } => Some(
                Fcitx5Request::ProcessKeyEvent { keyval, keycode, state, is_release, time: 0 },
            ),
            BackendCall::Reset => Some(Fcitx5Request::Reset),
        }),
{
    match call {
        BackendCall::FocusIn => Some(Fcitx5Request::FocusIn),
        BackendCall::FocusOut => Some(Fcitx5Request::FocusOut),
        BackendCall::SetCursorRect { rect } => Some(
            Fcitx5Request::SetCursorRect { x: rect.x, y: rect.y, w: rect.width, h: rect.height },
        ),
        BackendCall::SetSurroundingText { text, cursor, anchor } => Some(
            Fcitx5Request::SetSurroundingText {
                text,
                cursor: clamp_offset(cursor),
                anchor: clamp_offset(anchor),
            },
        ),
        BackendCall::SetContentType { .. } => None,
        BackendCall::ProcessKeyEvent { keyval, keycode, state, is_release } => Some(
            Fcitx5Request::ProcessKeyEvent { keyval, keycode, state, is_release, time: 0 },
        ),
        BackendCall::Reset => Some(Fcitx5Request::Reset),
    }
}

/// Fcitx5 is told the host's text, and each offset by itself: as it is where it
/// is not negative, and as the start of the text otherwise.
pub proof fn announced_text_is_the_hosts(
    text: String,
    cursor: i32,
    anchor: i32,
    request_made: Option<Fcitx5Request>,
)
    requires
        call_ensures(
            request,
            (BackendCall::SetSurroundingText { text, cursor, anchor },),
            request_made,
        ),
    ensures
        request_made matches Some(Fcitx5Request::SetSurroundingText {
            text: told,
            cursor: c,
            anchor: a,
        }) && {
            &&& told@ == text@
            &&& cursor >= 0 ==> c == cursor
            &&& cursor < 0 ==> c == 0
            &&& anchor >= 0 ==> a == anchor
            &&& anchor < 0 ==> a == 0
        },
{
}

/// Fcitx5 is handed the host's key as it is.
pub proof fn handed_key_is_the_hosts(
    keyval: u32,
    keycode: u32,
    state: u32,
    is_release: bool,
    request_made: Option<Fcitx5Request>,
)
    requires
        call_ensures(
            request,
            (BackendCall::ProcessKeyEvent { keyval, keycode, state, is_release },),
            request_made,
        ),
    ensures
        request_made matches Some(Fcitx5Request::ProcessKeyEvent {
            keyval: v,
            keycode: c,
            state: s,
            is_release: r,
            time,
        }) && v == keyval && c == keycode && s == state && r == is_release && time == 0,
{
}

/// Fcitx5 is told the host's cursor, side by side.
pub proof fn cursor_rect_is_the_hosts(rect: CursorRect, request_made: Option<Fcitx5Request>)
    requires
        call_ensures(request, (BackendCall::SetCursorRect { rect },), request_made),
    ensures
        request_made matches Some(Fcitx5Request::SetCursorRect { x, y, w, h }) && x == rect.x && y
            == rect.y && w == rect.width && h == rect.height,
{
}

/// Each call of the host is carried out by the method of its own sort, and by
/// none other; only the content type is not handed on.
pub proof fn each_call_has_its_method(call: BackendCall, request_made: Option<Fcitx5Request>)
    requires
        call_ensures(request, (call,), request_made),
    ensures
        call is SetContentType <==> request_made is None,
        request_made matches Some(r) ==> {
            &&& call is FocusIn <==> r is FocusIn
            &&& call is FocusOut <==> r is FocusOut
            &&& call is SetCursorRect <==> r is SetCursorRect
            &&& call is SetSurroundingText <==> r is SetSurroundingText
            &&& call is ProcessKeyEvent <==> r is ProcessKeyEvent
            &&& call is Reset <==> r is Reset
        },
{
}

/// Whether Fcitx5 took a key: it answered, and said so.
pub fn key_handled(reply: KeyReply<bool>) -> (handled: bool)
    ensures
        handled == (reply matches KeyReply::Answered(value) && value),
{
    match reply {
        KeyReply::Answered(value) => value,
        KeyReply::Failed => false,
        KeyReply::TimedOut => false,
    }
}

/// A key counts as taken just where Fcitx5 answered that it took it.
pub proof fn key_is_taken_only_on_its_word(reply: KeyReply<bool>, handled: bool)
    requires
        call_ensures(key_handled, (reply,), handled),
    ensures
        reply == KeyReply::Answered(true) <==> handled,
{
}

} // verus!
