//! The Fcitx 4 backend, as found on legacy desktops: what it asks of the
//! framework over D-Bus, and what it makes of the framework's answers.
//!
//! Fcitx 4 ties an input context to the connection that created it, so all of
//! this happens on one connection.

use vstd::prelude::*;
#[allow(unused_imports)]
use vstd::string::*;

use crate::backend::BackendCall;
use crate::convert;
use crate::convert::{
    clamp_offset, encode_release, join_segments, preedit_event, KeyReply,
};
use crate::object_path;
use crate::object_path::check_object_path;
use crate::text;
use crate::text::push_decimal;
#[allow(unused_imports)]
use crate::types::CursorRect;
use crate::types::{EventView, ImeCapabilities, ImeEvent, KeyState};

verus! {

pub const FCITX_KEY_PRESS: i32 = 0;

pub const FCITX_KEY_RELEASE: i32 = 1;

pub const CAPACITY_PREEDIT: u32 = 0x02;

pub const CAPACITY_FORMATTED_PREEDIT: u32 = 0x10;

/// What the Fcitx 4 backend can do.
pub open spec fn declared() -> u32 {
    ImeCapabilities::PREEDIT | ImeCapabilities::COMMIT | ImeCapabilities::FORWARD_KEY
        | ImeCapabilities::DELETE_SURROUNDING_TEXT | ImeCapabilities::SURROUNDING_TEXT
}

/// What the Fcitx 4 backend can do.
pub fn fcitx4_capabilities() -> (caps: ImeCapabilities)
    ensures
        caps.0 == declared(),
{
    ImeCapabilities(
        ImeCapabilities::PREEDIT | ImeCapabilities::COMMIT | ImeCapabilities::FORWARD_KEY
            | ImeCapabilities::DELETE_SURROUNDING_TEXT | ImeCapabilities::SURROUNDING_TEXT,
    )
}

// ---------------------------------------------------------------------------
// Connecting
// ---------------------------------------------------------------------------

/// The path of the input context with the number `icid`.
pub open spec fn context_path(icid: i32) -> Seq<char> {
    "/inputcontext_"@ + text::decimal(icid as int)
}

/// The path of the input context with the number `icid`.
pub fn input_context_path(icid: i32) -> (path: String)
    ensures
        path@ == context_path(icid),
{
    let mut path = "/inputcontext_".to_owned();
    push_decimal(&mut path, icid);
    path
}

proof fn lemma_digits_are_path_chars(n: nat)
    ensures
        text::digits(n, 10).len() > 0,
        forall|i: int|
            0 <= i < text::digits(n, 10).len() ==> object_path::is_path_char(
                #[trigger] text::digits(n, 10)[i],
            ),
    decreases n,
{
    if n >= 10 {
        lemma_digits_are_path_chars(n / 10);
    }
}

/// Every input context that Fcitx 4 can hand out has a path that D-Bus takes.
pub proof fn context_paths_are_object_paths(icid: i32)
    requires
        icid >= 0,
    ensures
        object_path::is_object_path(context_path(icid)),
{
    reveal_strlit("/inputcontext_");
    lemma_digits_are_path_chars(icid as nat);
    let path = context_path(icid);
    let number = text::decimal(icid as int);
    let prefix = "/inputcontext_"@;
    assert(path[0] == prefix[0]);
    assert forall|i: int| 0 <= i < path.len() implies (#[trigger] path[i] == '/'
        || object_path::is_path_char(path[i])) by {
        if i < prefix.len() {
            assert(path[i] == prefix[i]);
        } else {
            assert(path[i] == number[i - prefix.len()]);
        }
    }
    assert forall|i: int| 1 <= i < path.len() implies #[trigger] path[i] != '/' by {
        if i < prefix.len() {
            assert(path[i] == prefix[i]);
        } else {
            assert(path[i] == number[i - prefix.len()]);
        }
    }
}

/// The number of an input context can be read off its path, so that no two
/// contexts share one.
pub proof fn context_path_tells_the_number(icid: i32)
    ensures
        context_path(icid).len() > 14,
        context_path(icid).take(14) == "/inputcontext_"@,
        text::parsed_i32(context_path(icid).skip(14)) == Some(icid),
{
    reveal_strlit("/inputcontext_");
    text::decimal_reads_back(icid);
    assert(context_path(icid).skip(14) =~= text::decimal(icid as int));
    assert(context_path(icid).take(14) =~= "/inputcontext_"@);
    assert(text::decimal(icid as int).len() > 0);
}

/// The process id by which Fcitx 4 knows the client, no larger than it takes.
pub fn client_pid(pid: u32) -> (arg: i32)
    ensures
        arg == (if pid <= 0x7fff_ffff {
            pid as i32
        } else {
            i32::MAX
        }),
{
    if pid <= 0x7fff_ffff {
        pid as i32
    } else {
        i32::MAX
    }
}

/// What to do next to connect.
pub enum Fcitx4Step {
    OpenSession,
    BindInputMethod,
    CreateContext { program: String, pid: i32 },
    BindContext { path: String },
    SetCapacity { flags: u32 },
    /// Subscribe to the signals, as [`subscribe_next`] says.
    StartListening,
    Connected,
    /// What failed, and the error behind it where `message` is not that error
    /// itself.
    Failed { message: String, cause: Option<String> },
}

/// A [`Fcitx4Step`] with its texts as sequences of characters.
#[verifier::ext_equal]
pub enum Fcitx4StepView {
    OpenSession,
    BindInputMethod,
    CreateContext { program: Seq<char>, pid: i32 },
    BindContext { path: Seq<char> },
    SetCapacity { flags: u32 },
    StartListening,
    Connected,
    Failed { message: Seq<char>, cause: Option<Seq<char>> },
}

impl View for Fcitx4Step {
    type V = Fcitx4StepView;

    open spec fn view(&self) -> Fcitx4StepView {
        match *self {
            Fcitx4Step::OpenSession => Fcitx4StepView::OpenSession,
            Fcitx4Step::BindInputMethod => Fcitx4StepView::BindInputMethod,
            Fcitx4Step::CreateContext { program, pid } => Fcitx4StepView::CreateContext {
                program: program@,
                pid,
            },
            Fcitx4Step::BindContext { path } => Fcitx4StepView::BindContext { path: path@ },
            Fcitx4Step::SetCapacity { flags } => Fcitx4StepView::SetCapacity { flags },
            Fcitx4Step::StartListening => Fcitx4StepView::StartListening,
            Fcitx4Step::Connected => Fcitx4StepView::Connected,
            Fcitx4Step::Failed { message, cause } => Fcitx4StepView::Failed {
                message: message@,
                cause: match cause {
                    Some(c) => Some(c@),
                    None => None,
                },
            },
        }
    }
}

/// What came of a step: the number it returned, zero where it returns none,
/// or the error it failed with.
pub type Fcitx4Outcome = Result<i32, String>;

/// The text of an error.
pub open spec fn error_text(outcome: Fcitx4Outcome) -> Seq<char> {
    match outcome {
        Ok(_) => Seq::empty(),
        Err(message) => message@,
    }
}

/// A failure that is an error itself.
pub open spec fn failure(error: Seq<char>) -> Fcitx4StepView {
    Fcitx4StepView::Failed { message: error, cause: None }
}

/// A failure told by what was attempted, with the error behind it.
pub open spec fn failure_in(attempt: Seq<char>, error: Seq<char>) -> Fcitx4StepView {
    Fcitx4StepView::Failed { message: attempt, cause: Some(error) }
}

fn fail(error: String) -> (step: Fcitx4Step)
    ensures
        step@ == failure(error@),
{
    Fcitx4Step::Failed { message: error, cause: None }
}

fn fail_in(attempt: &str, error: String) -> (step: Fcitx4Step)
    ensures
        step@ == failure_in(attempt@, error@),
{
    Fcitx4Step::Failed { message: attempt.to_owned(), cause: Some(error) }
}

/// The step after `step`, once that has come to `outcome`.
///
/// Each step has to succeed for the next to be taken, but for the last: a
/// backend that could not subscribe to a signal is connected all the same.
pub open spec fn step_after(
    step: Fcitx4StepView,
    pid: u32,
    outcome: Fcitx4Outcome,
) -> Fcitx4StepView {
    match step {
        Fcitx4StepView::OpenSession => if outcome is Ok {
            Fcitx4StepView::BindInputMethod
        } else {
            failure(error_text(outcome))
        },
        Fcitx4StepView::BindInputMethod => if outcome is Ok {
            Fcitx4StepView::CreateContext {
                program: "native-ime"@,
                pid: if pid <= 0x7fff_ffff {
                    pid as i32
                } else {
                    i32::MAX
                },
            }
        } else {
            failure_in("Fcitx 4 not available on D-Bus"@, error_text(outcome))
        },
        Fcitx4StepView::CreateContext { .. } => match outcome {
            Ok(icid) => if icid < 0 {
                failure(
                    "Fcitx 4 returned invalid input context id: "@ + text::decimal(icid as int),
                )
            } else {
                Fcitx4StepView::BindContext { path: context_path(icid) }
            },
            Err(_) => failure_in("Fcitx 4 CreateICv3 failed"@, error_text(outcome)),
        },
        Fcitx4StepView::BindContext { .. } => if outcome is Ok {
            Fcitx4StepView::SetCapacity { flags: CAPACITY_PREEDIT | CAPACITY_FORMATTED_PREEDIT }
        } else {
            failure(error_text(outcome))
        },
        Fcitx4StepView::SetCapacity { .. } => if outcome is Ok {
            Fcitx4StepView::StartListening
        } else {
            failure_in("Fcitx 4 SetCapacity failed"@, error_text(outcome))
        },
        Fcitx4StepView::StartListening => Fcitx4StepView::Connected,
        Fcitx4StepView::Connected => step,
        Fcitx4StepView::Failed { .. } => step,
    }
}

/// The step after `step`, once that has come to `outcome`; `pid` is the
/// host's process id. The end of the road stays where it is.
pub fn connect_next(step: Fcitx4Step, pid: u32, outcome: Fcitx4Outcome) -> (next: Fcitx4Step)
    ensures
        next@ == step_after(step@, pid, outcome),
{
    match step {
        Fcitx4Step::OpenSession => match outcome {
            Ok(_) => Fcitx4Step::BindInputMethod,
            Err(error) => fail(error),
        },
        Fcitx4Step::BindInputMethod => match outcome {
            Ok(_) => Fcitx4Step::CreateContext {
                program: "native-ime".to_owned(),
                pid: client_pid(pid),
            },
            Err(error) => fail_in("Fcitx 4 not available on D-Bus", error),
        },
        Fcitx4Step::CreateContext { .. } => match outcome {
            Ok(icid) => {
                if icid < 0 {
                    let mut message = "Fcitx 4 returned invalid input context id: ".to_owned();
                    push_decimal(&mut message, icid);
                    return fail(message);
                }
                proof {
                    context_paths_are_object_paths(icid);
                }
                match check_object_path(input_context_path(icid)) {
                    Ok(path) => Fcitx4Step::BindContext { path },
                    // Not reached: the path is one that D-Bus takes.
                    Err(_) => fail("Fcitx 4 returned invalid input context path".to_owned()),
                }
            },
            Err(error) => fail_in("Fcitx 4 CreateICv3 failed", error),
        },
        Fcitx4Step::BindContext { .. } => match outcome {
            Ok(_) => Fcitx4Step::SetCapacity {
                flags: CAPACITY_PREEDIT | CAPACITY_FORMATTED_PREEDIT,
            },
            Err(error) => fail(error),
        },
        Fcitx4Step::SetCapacity { .. } => match outcome {
            Ok(_) => Fcitx4Step::StartListening,
            Err(error) => fail_in("Fcitx 4 SetCapacity failed", error),
        },
        Fcitx4Step::StartListening => Fcitx4Step::Connected,
        Fcitx4Step::Connected => Fcitx4Step::Connected,
        Fcitx4Step::Failed { message, cause } => Fcitx4Step::Failed { message, cause },
    }
}

/// Where a connection stands after a run of outcomes.
pub open spec fn connect_run(pid: u32, outcomes: Seq<Fcitx4Outcome>) -> Fcitx4StepView
    decreases outcomes.len(),
{
    if outcomes.len() == 0 {
        Fcitx4StepView::OpenSession
    } else {
        step_after(connect_run(pid, outcomes.drop_last()), pid, outcomes.last())
    }
}

/// Whether the steps up to listening all succeed, with a context that Fcitx 4
/// really made.
pub open spec fn all_granted(outcomes: Seq<Fcitx4Outcome>) -> bool {
    &&& outcomes.len() >= 5
    &&& outcomes[0] is Ok
    &&& outcomes[1] is Ok
    &&& outcomes[2] matches Ok(icid) && icid >= 0
    &&& outcomes[3] is Ok
    &&& outcomes[4] is Ok
}

/// A connection stands after six outcomes just where the framework granted
/// every one of the first five, and otherwise it has failed.
pub proof fn connects_iff_all_granted(pid: u32, outcomes: Seq<Fcitx4Outcome>)
    requires
        outcomes.len() == 6,
    ensures
        all_granted(outcomes) ==> connect_run(pid, outcomes) == Fcitx4StepView::Connected,
        !all_granted(outcomes) ==> connect_run(pid, outcomes) is Failed,
{
    reveal_with_fuel(connect_run, 7);
}

/// A step that fails with an error leads to a failure that holds the error, as
/// its message or as its cause.
pub proof fn failures_keep_the_error(step: Fcitx4StepView, pid: u32, error: String)
    requires
        !(step is StartListening || step is Connected || step is Failed),
    ensures
        step_after(step, pid, Err(error)) matches Fcitx4StepView::Failed { message, cause } && (
        message == error@ || cause == Some(error@)),
{
}

/// Fcitx 4 is told the host's process id where it can take it, and otherwise
/// the largest that it can.
pub proof fn process_id_is_told(pid: u32, done: i32, next: Fcitx4Step)
    requires
        call_ensures(
            connect_next,
            (Fcitx4Step::BindInputMethod, pid, Ok::<i32, String>(done)),
            next,
        ),
    ensures
        next matches Fcitx4Step::CreateContext { program, pid: told } && {
            &&& program@ == "native-ime"@
            &&& 0 <= told <= pid
            &&& pid < 0x8000_0000 ==> told == pid
            &&& pid >= 0x8000_0000 ==> told == 0x7fff_ffff
        },
{
}

/// The context that Fcitx 4 created is the one that is used; a negative number
/// stands for none.
pub proof fn created_context_is_bound(step: Fcitx4Step, pid: u32, icid: i32, next: Fcitx4Step)
    requires
        step is CreateContext,
        call_ensures(connect_next, (step, pid, Ok::<i32, String>(icid)), next),
    ensures
        icid < 0 <==> next is Failed,
        icid >= 0 ==> (next matches Fcitx4Step::BindContext { path } && text::parsed_i32(
            path@.skip(14),
        ) == Some(icid)),
{
    context_path_tells_the_number(icid);
}

/// A step that fails tells the error itself, or what was attempted with the
/// error behind it; what was attempted is told alike for every error.
pub proof fn failures_are_told(step: Fcitx4Step, pid: u32, error: String, other: String)
    requires
        !(step is StartListening || step is Connected || step is Failed),
    ensures
        step_after(step@, pid, Err(error)) matches Fcitx4StepView::Failed { message, cause } && {
            let behind = step is BindInputMethod || step is CreateContext || step is SetCapacity;
            &&& behind ==> cause == Some(error@)
            &&& !behind ==> message == error@ && cause is None
            &&& step_after(step@, pid, Err(other)) matches Fcitx4StepView::Failed { message: m, .. }
                && (behind ==> m == message)
        },
{
}

// ---------------------------------------------------------------------------
// Listening
// ---------------------------------------------------------------------------

/// The signals of an input context.
#[derive(Debug, Clone, Copy, PartialEq, Eq, Structural)]
pub enum Fcitx4SignalKind {
    CommitString,
    UpdateFormattedPreedit,
    ForwardKey,
    DeleteSurroundingText,
}

/// How far the subscriptions have come.
#[derive(Debug, Clone, Copy, PartialEq, Eq, Structural)]
pub enum Fcitx4Listening {
    Subscribe(Fcitx4SignalKind),
    Listening,
    /// A subscription failed, and with it the signal loop.
    Abandoned,
}

/// The subscription that comes after `kind` has been tried.
pub open spec fn listening_after(kind: Fcitx4SignalKind, subscribed: bool) -> Fcitx4Listening {
    if !subscribed {
        Fcitx4Listening::Abandoned
    } else {
        match kind {
            Fcitx4SignalKind::CommitString => Fcitx4Listening::Subscribe(
                Fcitx4SignalKind::UpdateFormattedPreedit,
            ),
            Fcitx4SignalKind::UpdateFormattedPreedit => Fcitx4Listening::Subscribe(
                Fcitx4SignalKind::ForwardKey,
            ),
            Fcitx4SignalKind::ForwardKey => Fcitx4Listening::Subscribe(
                Fcitx4SignalKind::DeleteSurroundingText,
            ),
            Fcitx4SignalKind::DeleteSurroundingText => Fcitx4Listening::Listening,
        }
    }
}

/// The first subscription.
pub fn subscribe_first() -> (first: Fcitx4Listening)
    ensures
        first == Fcitx4Listening::Subscribe(Fcitx4SignalKind::CommitString),
{
    Fcitx4Listening::Subscribe(Fcitx4SignalKind::CommitString)
}

/// The subscription that comes after `kind` has been tried.
pub fn subscribe_next(kind: Fcitx4SignalKind, subscribed: bool) -> (next: Fcitx4Listening)
    ensures
        next == listening_after(kind, subscribed),
{
    if !subscribed {
        return Fcitx4Listening::Abandoned;
    }
    match kind {
        Fcitx4SignalKind::CommitString => Fcitx4Listening::Subscribe(
            Fcitx4SignalKind::UpdateFormattedPreedit,
        ),
        Fcitx4SignalKind::UpdateFormattedPreedit => Fcitx4Listening::Subscribe(
            Fcitx4SignalKind::ForwardKey,
        ),
        Fcitx4SignalKind::ForwardKey => Fcitx4Listening::Subscribe(
            Fcitx4SignalKind::DeleteSurroundingText,
        ),
        Fcitx4SignalKind::DeleteSurroundingText => Fcitx4Listening::Listening,
    }
}

/// How far the subscriptions have come after a run of attempts, each true
/// where it succeeded.
pub open spec fn listen_run(attempts: Seq<bool>) -> Fcitx4Listening
    decreases attempts.len(),
{
    if attempts.len() == 0 {
        Fcitx4Listening::Subscribe(Fcitx4SignalKind::CommitString)
    } else {
        match listen_run(attempts.drop_last()) {
            Fcitx4Listening::Subscribe(kind) => listening_after(kind, attempts.last()),
            over => over,
        }
    }
}

/// The backend listens after as many attempts as there are signals just where
/// every one of them succeeded; otherwise the signal loop is abandoned.
pub proof fn listens_iff_all_subscribed(attempts: Seq<bool>)
    requires
        attempts.len() == 4,
    ensures
        listen_run(attempts) == (if attempts.contains(false) {
            Fcitx4Listening::Abandoned
        } else {
            Fcitx4Listening::Listening
        }),
{
    reveal_with_fuel(listen_run, 5);
    if attempts.contains(false) {
        let i = attempts.index_of(false);
        assert(!attempts[i]);
    } else {
        assert forall|i: int| 0 <= i < 4 implies #[trigger] attempts[i] by {
            assert(attempts.contains(attempts[i]));
        }
    }
}

/// A signal, with its arguments.
pub enum Fcitx4Signal {
    CommitString { text: String },
    UpdateFormattedPreedit { segments: Vec<(String, i32)>, cursor_pos: i32 },
    ForwardKey { keyval: u32, state: u32, event_type: i32 },
    DeleteSurroundingText { offset: i32, nchar: u32 },
}

impl Fcitx4Signal {
    /// Whether the signal's numbers can be computed with in 32 bits.
    pub open spec fn in_range(self) -> bool {
        self matches Fcitx4Signal::DeleteSurroundingText { offset, nchar }
            ==> deletion_in_range(offset, nchar)
    }

    /// The event that the signal stands for.
    pub open spec fn event(self) -> EventView {
        match self {
            Fcitx4Signal::CommitString { text } => EventView::Commit { text: text@ },
            Fcitx4Signal::UpdateFormattedPreedit { segments, cursor_pos } => convert::preedit_view(
                convert::segments_text(segments@),
                cursor_pos,
            ),
            Fcitx4Signal::ForwardKey { keyval, state, event_type } => EventView::ForwardKey {
                keyval,
                state: convert::key_state(state, event_type == FCITX_KEY_RELEASE),
            },
            Fcitx4Signal::DeleteSurroundingText { offset, nchar } => deletion_view(
                offset,
                nchar,
            ),
        }
    }
}

/// The event that a signal stands for.
pub fn signal_event(signal: Fcitx4Signal) -> (event: ImeEvent)
    requires
        signal.in_range(),
    ensures
        event@ == signal.event(),
{
    match signal {
        Fcitx4Signal::CommitString { text } => ImeEvent::Commit { text },
        Fcitx4Signal::UpdateFormattedPreedit { segments, cursor_pos } => {
            let text = formatted_preedit_text(segments.as_slice());
            preedit_event(text, cursor_pos)
        },
        Fcitx4Signal::ForwardKey { keyval, state, event_type } => forward_key_event(
            keyval,
            state,
            event_type,
        ),
        Fcitx4Signal::DeleteSurroundingText { offset, nchar } => delete_surrounding_event(
            offset,
            nchar,
        ),
    }
}

/// The event that a signal stands for; none where the signal's numbers cannot
/// be computed with in 32 bits.
pub fn checked_signal_event(signal: Fcitx4Signal) -> (event: Option<ImeEvent>)
    ensures
        match event {
            Some(e) => signal.in_range() && e@ == signal.event(),
            None => !signal.in_range(),
        },
{
    if let Fcitx4Signal::DeleteSurroundingText { offset, nchar } = &signal {
        if !deletion_fits(*offset, *nchar) {
            return None;
        }
    }
    Some(signal_event(signal))
}

/// The composed text: the segments' texts, one after the other.
pub fn formatted_preedit_text(segments: &[(String, i32)]) -> (text: String)
    ensures
        text@ == convert::segments_text(segments@),
{
    join_segments(segments)
}

/// The event for a key that Fcitx 4 passes on; a release is put into the key's
/// state.
pub fn forward_key_event(keyval: u32, state: u32, event_type: i32) -> (event: ImeEvent)
    ensures
        event@ == (EventView::ForwardKey {
            keyval,
            state: convert::key_state(state, event_type == FCITX_KEY_RELEASE),
        }),
{
    let state: u32 = encode_release(state, event_type == FCITX_KEY_RELEASE);
    ImeEvent::ForwardKey { keyval, state: KeyState(state) }
}

/// A character count read as a signed number.
pub open spec fn signed_count(nchar: u32) -> int {
    if nchar <= 0x7fff_ffff {
        nchar as int
    } else {
        nchar - 0x1_0000_0000
    }
}

/// Whether the bounds of a deletion can be computed in 32 bits.
pub open spec fn deletion_in_range(offset: i32, nchar: u32) -> bool {
    offset > i32::MIN && i32::MIN <= offset + signed_count(nchar) <= i32::MAX
}

/// A request to delete `nchar` characters from `offset` on, seen from the
/// cursor: as many before it as the offset is negative, and what reaches past
/// it after it.
pub open spec fn deletion_view(offset: i32, nchar: u32) -> EventView {
    let after = offset + signed_count(nchar);
    EventView::DeleteSurroundingText {
        before: if offset < 0 {
            (-offset) as u32
        } else {
            0
        },
        after: if after > 0 {
            after as u32
        } else {
            0
        },
    }
}

fn read_signed(nchar: u32) -> (signed: i32)
    ensures
        signed == signed_count(nchar),
{
    assert(nchar > 0x7fff_ffff ==> (nchar as i32) == nchar - 0x1_0000_0000) by (bit_vector);
    assert(nchar <= 0x7fff_ffff ==> (nchar as i32) == nchar) by (bit_vector);
    nchar as i32
}

/// Whether the bounds of a deletion can be computed in 32 bits.
pub fn deletion_fits(offset: i32, nchar: u32) -> (fits: bool)
    ensures
        fits == deletion_in_range(offset, nchar),
{
    let end: i64 = offset as i64 + read_signed(nchar) as i64;
    offset > i32::MIN && i32::MIN as i64 <= end && end <= i32::MAX as i64
}

/// The event for a request to delete `nchar` characters from `offset` on,
/// counted from the cursor.
pub fn delete_surrounding_event(offset: i32, nchar: u32) -> (event: ImeEvent)
    requires
        deletion_in_range(offset, nchar),
    ensures
        event@ == deletion_view(offset, nchar),
{
    let start: i32 = -offset;
    let end: i32 = offset + read_signed(nchar);
    let before: u32 = if start > 0 { start as u32 } else { 0 };
    let after: u32 = if end > 0 { end as u32 } else { 0 };
    ImeEvent::DeleteSurroundingText { before, after }
}

/// Counts that are not negative when read as signed mean the same to Fcitx 4
/// as to the other frameworks.
pub proof fn small_deletions_agree(offset: i32, nchar: u32)
    requires
        nchar <= 0x7fff_ffff,
    ensures
        deletion_view(offset, nchar) == convert::deletion_view(offset, nchar),
{
}

/// The characters that the host deletes, from `before` characters before the
/// cursor up to `after` characters after it, are just those that Fcitx 4 named,
/// provided that these start at or before the cursor and reach it.
pub proof fn deletion_covers_the_range_asked_for(
    offset: i32,
    nchar: u32,
    event: ImeEvent,
    position: int,
)
    requires
        nchar < 0x8000_0000,
        offset <= 0 <= offset + nchar,
        call_ensures(delete_surrounding_event, (offset, nchar), event),
    ensures
        event matches ImeEvent::DeleteSurroundingText { before, after } && {
            &&& before == -offset
            &&& after == offset + nchar
            &&& (-before <= position < after <==> offset <= position < offset + nchar)
        },
{
}

/// Each end of a deletion is counted by itself. The start is as far before the
/// cursor as the offset says, and never after it; the end is as far after the
/// cursor as the deletion reaches, and never before it. Counts from half the
/// range of 32 bits on are negative.
pub proof fn deletion_ends_are_counted_apart(offset: i32, nchar: u32, count: int, event: ImeEvent)
    requires
        call_ensures(delete_surrounding_event, (offset, nchar), event),
        -0x8000_0000 <= count < 0x8000_0000,
        count == nchar || count == nchar - 0x1_0000_0000,
        deletion_in_range(offset, nchar),
    ensures
        event matches ImeEvent::DeleteSurroundingText { before, after } && {
            &&& offset <= 0 ==> before == -offset
            &&& offset >= 0 ==> before == 0
            &&& offset + count >= 0 ==> after == offset + count
            &&& offset + count <= 0 ==> after == 0
        },
{
}

/// A deletion is turned down just where 32 bits cannot hold its start, counted
/// the other way, or its end.
pub proof fn deletions_are_turned_down_only_for_their_size(
    offset: i32,
    nchar: u32,
    count: int,
    fits: bool,
)
    requires
        call_ensures(deletion_fits, (offset, nchar), fits),
        -0x8000_0000 <= count < 0x8000_0000,
        count == nchar || count == nchar - 0x1_0000_0000,
    ensures
        fits <==> -offset < 0x8000_0000 && -0x8000_0000 <= offset + count < 0x8000_0000,
{
}

/// A text that the user settled on reaches the host as a commit of just that
/// text, and nothing else does.
pub proof fn committed_text_is_committed(signal: Fcitx4Signal, event: ImeEvent)
    requires
        call_ensures(signal_event, (signal,), event),
    ensures
        signal is CommitString <==> event is Commit,
        signal matches Fcitx4Signal::CommitString { text } ==> (event matches ImeEvent::Commit {
            text: committed,
        } && committed@ == text@),
{
}

/// A change of the composed text, and nothing else, shows or ends a composition.
/// It ends where no segment holds a character. Otherwise every segment is shown,
/// right after those before it, whatever the formats, with the cursor where
/// Fcitx 4 puts it.
pub proof fn composed_text_is_shown(
    signal: Fcitx4Signal,
    segments: Vec<(String, i32)>,
    cursor_pos: i32,
    event: ImeEvent,
    i: int,
)
    requires
        call_ensures(signal_event, (signal,), event),
    ensures
        signal is UpdateFormattedPreedit <==> event is Preedit || event is PreeditEnd,
        signal == (Fcitx4Signal::UpdateFormattedPreedit { segments, cursor_pos }) ==> {
            let total = convert::start_of_segment(segments@, segments@.len() as int);
            &&& event is PreeditEnd <==> total == 0
            &&& event matches ImeEvent::Preedit { text, cursor_begin, cursor_end } ==> {
                &&& text@.len() == total
                &&& cursor_begin == cursor_pos
                &&& cursor_end == cursor_pos
                &&& 0 <= i < segments@.len() ==> text@.subrange(
                    convert::start_of_segment(segments@, i) as int,
                    (convert::start_of_segment(segments@, i) + segments@[i].0@.len()) as int,
                ) == segments@[i].0@
            }
        },
{
    if signal == (Fcitx4Signal::UpdateFormattedPreedit { segments, cursor_pos }) {
        convert::preedit_shows_the_text(convert::segments_text(segments@), cursor_pos);
        if segments@.len() > 0 {
            convert::segments_stand_in_order(segments@, 0);
        }
        if 0 <= i < segments@.len() {
            convert::segments_stand_in_order(segments@, i);
        }
    }
}

/// A key that is passed on reaches the host as the same key, with the modifiers
/// it had; its state says that it went up just where Fcitx 4 says so, provided
/// that the flag was free. Nothing else is a key.
pub proof fn forwarded_key_is_the_same_key(signal: Fcitx4Signal, event: ImeEvent)
    requires
        call_ensures(signal_event, (signal,), event),
    ensures
        signal is ForwardKey <==> event is ForwardKey,
        signal matches Fcitx4Signal::ForwardKey { keyval, state, event_type } ==> (
        event matches ImeEvent::ForwardKey { keyval: key, state: mask } && {
            &&& key == keyval
            &&& mask.0 & 0xbfff_ffff == state & 0xbfff_ffff
            &&& event_type != 1 ==> mask.0 == state
            &&& event_type == 1 ==> mask.0 & 0x4000_0000 == 0x4000_0000
        }),
{
    if let Fcitx4Signal::ForwardKey { keyval, state, event_type } = signal {
        convert::release_leaves_modifiers_alone(state, event_type == 1);
    }
}

/// A request to delete text reaches the host as the counts that stand for it,
/// and nothing else does.
pub proof fn requested_deletion_is_handed_on(
    signal: Fcitx4Signal,
    event: ImeEvent,
    offset: i32,
    nchar: u32,
    same: ImeEvent,
)
    requires
        call_ensures(signal_event, (signal,), event),
        call_ensures(delete_surrounding_event, (offset, nchar), same),
    ensures
        signal is DeleteSurroundingText <==> event is DeleteSurroundingText,
        signal == (Fcitx4Signal::DeleteSurroundingText { offset, nchar }) ==> event@ == same@,
{
}

/// Whether a signal can be turned into an event or not, what comes of it is the
/// same.
pub proof fn checked_events_are_the_events(
    signal: Fcitx4Signal,
    checked: Option<ImeEvent>,
    event: ImeEvent,
)
    requires
        call_ensures(checked_signal_event, (signal,), checked),
        call_ensures(signal_event, (signal,), event),
    ensures
        checked matches Some(e) ==> e@ == event@,
        !(signal is DeleteSurroundingText) ==> checked is Some,
        signal matches Fcitx4Signal::DeleteSurroundingText { offset, nchar } ==> (checked is Some
            <==> deletion_in_range(offset, nchar)),
{
}

/// Every signal of Fcitx 4 gives an event of a sort that the backend declares.
pub proof fn signals_are_declared(signal: Fcitx4Signal)
    ensures
        declared() & signal.event().capability() != 0,
{
    assert((0x01u32 | 0x02u32 | 0x04u32 | 0x08u32 | 0x10u32) & 0x01u32 != 0) by (bit_vector);
    assert((0x01u32 | 0x02u32 | 0x04u32 | 0x08u32 | 0x10u32) & 0x02u32 != 0) by (bit_vector);
    assert((0x01u32 | 0x02u32 | 0x04u32 | 0x08u32 | 0x10u32) & 0x04u32 != 0) by (bit_vector);
    assert((0x01u32 | 0x02u32 | 0x04u32 | 0x08u32 | 0x10u32) & 0x08u32 != 0) by (bit_vector);
}

// ---------------------------------------------------------------------------
// Calling
// ---------------------------------------------------------------------------

/// A method call on the input context.
pub enum Fcitx4Request {
    FocusIn,
    FocusOut,
    SetCursorRect { x: i32, y: i32, w: i32, h: i32 },
    SetSurroundingText { text: String, cursor: u32, anchor: u32 },
    ProcessKeyEvent { keyval: u32, keycode: u32, state: u32, event_type: i32, time: u32 },
    Reset,
}

/// Which way a key went, as Fcitx 4 numbers it.
pub fn key_event_type(is_release: bool) -> (event_type: i32)
    ensures
        event_type == (if is_release {
            FCITX_KEY_RELEASE
        } else {
            FCITX_KEY_PRESS
        }),
{
    if is_release {
        FCITX_KEY_RELEASE
    } else {
        FCITX_KEY_PRESS
    }
}

/// The method call that carries out a call of the engine; none for the content
/// type, which Fcitx 4 is not told.
pub fn request(call: BackendCall) -> (request: Option<Fcitx4Request>)
    ensures
        request == (match call {
            BackendCall::FocusIn => Some(Fcitx4Request::FocusIn),
            BackendCall::FocusOut => Some(Fcitx4Request::FocusOut),
            BackendCall::SetCursorRect { rect } => Some(
                Fcitx4Request::SetCursorRect { x: rect.x, y: rect.y, w: rect.width, h: rect.height },
            ),
            BackendCall::SetSurroundingText { text, cursor, anchor } => Some(
                Fcitx4Request::SetSurroundingText {
                    text,
                    cursor: convert::offset_arg(cursor),
                    anchor: convert::offset_arg(anchor),
                },
            ),
            BackendCall::SetContentType { .. } => None,
            BackendCall::ProcessKeyEvent { keyval, keycode, state, is_release } => Some(
                Fcitx4Request::ProcessKeyEvent {
                    keyval,
                    keycode,
                    state,
                    event_type: if is_release {
                        FCITX_KEY_RELEASE
                    } else {
                        FCITX_KEY_PRESS
                    },
                    time: 0,
                },
            ),
            BackendCall::Reset => Some(Fcitx4Request::Reset),
        }),
{
    match call {
        BackendCall::FocusIn => Some(Fcitx4Request::FocusIn),
        BackendCall::FocusOut => Some(Fcitx4Request::FocusOut),
        BackendCall::SetCursorRect { rect } => Some(
            Fcitx4Request::SetCursorRect { x: rect.x, y: rect.y, w: rect.width, h: rect.height },
        ),
        BackendCall::SetSurroundingText { text, cursor, anchor } => Some(
            Fcitx4Request::SetSurroundingText {
                text,
                cursor: clamp_offset(cursor),
                anchor: clamp_offset(anchor),
            },
        ),
        BackendCall::SetContentType { .. } => None,
        BackendCall::ProcessKeyEvent { keyval, keycode, state, is_release } => Some(
            Fcitx4Request::ProcessKeyEvent {
                keyval,
                keycode,
                state,
                event_type: key_event_type(is_release),
                time: 0,
            },
        ),
        BackendCall::Reset => Some(Fcitx4Request::Reset),
    }
}

/// Fcitx 4 is told the host's text, and each offset by itself: as it is where
/// it is not negative, and as the start of the text otherwise.
pub proof fn announced_text_is_the_hosts(
    text: String,
    cursor: i32,
    anchor: i32,
    request_made: Option<Fcitx4Request>,
)
    requires
        call_ensures(
            request,
            (BackendCall::SetSurroundingText { text, cursor, anchor },),
            request_made,
        ),
    ensures
        request_made matches Some(Fcitx4Request::SetSurroundingText {
            text: told,
            cursor: c,
            anchor: a,
        }) && {
            &&& told@ == text@
            &&& cursor >= 0 ==> c == cursor
            &&& cursor < 0 ==> c == 0
            &&& anchor >= 0 ==> a == anchor
            &&& anchor < 0 ==> a == 0
        },
{
}

/// Fcitx 4 is handed the host's key as it is, with the way it went.
pub proof fn handed_key_is_the_hosts(
    keyval: u32,
    keycode: u32,
    state: u32,
    is_release: bool,
    request_made: Option<Fcitx4Request>,
)
    requires
        call_ensures(
            request,
            (BackendCall::ProcessKeyEvent { keyval, keycode, state, is_release },),
            request_made,
        ),
    ensures
        request_made matches Some(Fcitx4Request::ProcessKeyEvent {
            keyval: v,
            keycode: c,
            state: s,
            event_type,
            time,
        }) && {
            &&& v == keyval
            &&& c == keycode
            &&& s == state
            &&& event_type == 1 <==> is_release
            &&& event_type == 0 <==> !is_release
            &&& time == 0
        },
{
}

/// Fcitx 4 is told the host's cursor, side by side.
pub proof fn cursor_rect_is_the_hosts(rect: CursorRect, request_made: Option<Fcitx4Request>)
    requires
        call_ensures(request, (BackendCall::SetCursorRect { rect },), request_made),
    ensures
        request_made matches Some(Fcitx4Request::SetCursorRect { x, y, w, h }) && x == rect.x && y
            == rect.y && w == rect.width && h == rect.height,
{
}

/// Each call of the host is carried out by the method of its own sort, and by
/// none other; only the content type is not handed on.
pub proof fn each_call_has_its_method(call: BackendCall, request_made: Option<Fcitx4Request>)
    requires
        call_ensures(request, (call,), request_made),
    ensures
        call is SetContentType <==> request_made is None,
        request_made matches Some(r) ==> {
            &&& call is FocusIn <==> r is FocusIn
            &&& call is FocusOut <==> r is FocusOut
            &&& call is SetCursorRect <==> r is SetCursorRect
            &&& call is SetSurroundingText <==> r is SetSurroundingText
            &&& call is ProcessKeyEvent <==> r is ProcessKeyEvent
            &&& call is Reset <==> r is Reset
        },
{
}

/// Whether Fcitx 4 took a key: it answered, and not with zero.
pub fn key_handled(reply: KeyReply<i32>) -> (handled: bool)
    ensures
        handled == (reply matches KeyReply::Answered(value) && value != 0),
{
    match reply {
        KeyReply::Answered(value) => value != 0,
        KeyReply::Failed => false,
        KeyReply::TimedOut => false,
    }
}

/// A key counts as taken just where Fcitx 4 answered, with anything but zero.
pub proof fn key_is_taken_only_on_its_word(reply: KeyReply<i32>, answer: i32, handled: bool)
    requires
        call_ensures(key_handled, (reply,), handled),
    ensures
        handled ==> reply is Answered,
        reply == KeyReply::Answered(answer) ==> (handled <==> answer < 0 || answer > 0),
{
}

} // verus!
