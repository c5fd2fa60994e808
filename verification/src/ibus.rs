//! The IBus backend, as found on GNOME and the like: what it asks of the
//! framework over D-Bus, and what it makes of the framework's answers.

use vstd::prelude::*;
#[allow(unused_imports)]
use vstd::string::*;
use std::collections::HashMap;
use zbus::zvariant::Value;

use crate::backend::BackendCall;
use crate::convert;
use crate::convert::{
    clamp_offset, deletion_event, deletion_fits, encode_release, preedit_event, KeyReply,
};
use crate::text;
use crate::text::{push_decimal, push_hex, summarize_size};
#[allow(unused_imports)]
use crate::types::CursorRect;
use crate::types::{ContentType, EventView, ImeCapabilities, ImeEvent, KeyState};
use crate::variant;
use crate::variant::{
    empty_array, field_signature, quadruple_value, structure_signature, triple_value, value_node,
    FieldType, SignatureModel, ValueModel, ValueNode,
};

verus! {

pub const IBUS_CAP_PREEDIT_TEXT: u32 = 0x01;

pub const IBUS_CAP_FOCUS: u32 = 0x08;

pub const IBUS_CAP_SURROUNDING_TEXT: u32 = 0x20;

pub const IBUS_INPUT_PURPOSE_FREE_FORM: u32 = 0;

pub const IBUS_INPUT_PURPOSE_NUMBER: u32 = 3;

pub const IBUS_INPUT_PURPOSE_PHONE: u32 = 4;

pub const IBUS_INPUT_PURPOSE_URL: u32 = 5;

pub const IBUS_INPUT_PURPOSE_EMAIL: u32 = 6;

pub const IBUS_INPUT_PURPOSE_PASSWORD: u32 = 8;

pub const IBUS_INPUT_HINT_NONE: u32 = 0;

pub const IBUS_INPUT_HINT_NO_SPELLCHECK: u32 = 0x02;

/// What the IBus backend can do: everything.
pub open spec fn declared() -> u32 {
    ImeCapabilities::PREEDIT | ImeCapabilities::COMMIT | ImeCapabilities::FORWARD_KEY
        | ImeCapabilities::DELETE_SURROUNDING_TEXT | ImeCapabilities::SURROUNDING_TEXT
        | ImeCapabilities::CONTENT_TYPE
}

/// What the IBus backend can do: everything.
pub fn ibus_capabilities() -> (caps: ImeCapabilities)
    ensures
        caps.0 == declared(),
{
    ImeCapabilities(
        ImeCapabilities::PREEDIT | ImeCapabilities::COMMIT | ImeCapabilities::FORWARD_KEY
            | ImeCapabilities::DELETE_SURROUNDING_TEXT | ImeCapabilities::SURROUNDING_TEXT
            | ImeCapabilities::CONTENT_TYPE,
    )
}

// ---------------------------------------------------------------------------
// IBusText
// ---------------------------------------------------------------------------

/// The list of text attributes, with no attribute in it.
pub open spec fn attr_list_model() -> ValueModel {
    ValueModel::Structure(
        seq![
            ValueModel::Str("IBusAttrList"@),
            variant::empty_vardict(),
            ValueModel::Variant(
                Box::new(
                    ValueModel::Array {
                        element: SignatureModel::Structure(
                            seq![
                                SignatureModel::U32,
                                SignatureModel::U32,
                                SignatureModel::I32,
                                SignatureModel::U32,
                            ],
                        ),
                        elements: Seq::empty(),
                    },
                ),
            ),
        ],
    )
}

/// A text as IBus puts it on the bus: the name of the type, no attachments,
/// the text itself, and a list of attributes inside a variant.
pub open spec fn ibus_text_model(text: Seq<char>) -> ValueModel {
    ValueModel::Structure(
        seq![
            ValueModel::Str("IBusText"@),
            variant::empty_vardict(),
            ValueModel::Str(text),
            ValueModel::Variant(Box::new(attr_list_model())),
        ],
    )
}

/// The text in the third field of a structure; empty where there is none.
pub open spec fn third_field_text(value: ValueModel) -> Seq<char> {
    match value {
        ValueModel::Structure(fields) => if fields.len() >= 3 {
            match fields[2] {
                ValueModel::Str(text) => text,
                _ => Seq::empty(),
            }
        } else {
            Seq::empty()
        },
        _ => Seq::empty(),
    }
}

/// The text of an IBus text, bare or inside one variant; empty where the value
/// is something else.
pub open spec fn ibus_text_of(value: ValueModel) -> Seq<char> {
    match value {
        ValueModel::Variant(inner) => third_field_text(*inner),
        _ => third_field_text(value),
    }
}

/// A list of text attributes with no attribute in it.
pub fn build_empty_ibus_attr_list() -> (value: Value<'static>)
    ensures
        variant::value_view(value) == attr_list_model(),
{
    let attachments: HashMap<String, Value<'static>> = HashMap::new();
    let element = structure_signature(
        field_signature(FieldType::U32),
        field_signature(FieldType::U32),
        field_signature(FieldType::I32),
        field_signature(FieldType::U32),
    );
    triple_value("IBusAttrList", attachments, empty_array(&element))
}

/// A text as IBus takes it.
pub fn build_ibus_text(text: &str) -> (value: Value<'static>)
    ensures
        variant::value_view(value) == ibus_text_model(text@),
{
    let attachments: HashMap<String, Value<'static>> = HashMap::new();
    let attrs = build_empty_ibus_attr_list();
    quadruple_value("IBusText", attachments, text, attrs)
}

/// The text in the third field of a structure; empty where there is none.
fn third_field_string<'v>(value: &'v Value<'v>) -> (text: String)
    ensures
        text@ == third_field_text(variant::value_view(*value)),
{
    if let ValueNode::Structure(fields) = value_node(value) {
        if fields.len() >= 3 {
            if let ValueNode::Text(text) = value_node(&fields[2]) {
                return text;
            }
        }
    }
    String::new()
}

/// The text of an IBus text. Signals carry it inside a variant, which is taken
/// off first; a value that is no IBus text gives an empty string.
pub fn extract_ibus_text_string(value: &Value<'_>) -> (text: String)
    ensures
        text@ == ibus_text_of(variant::value_view(*value)),
{
    match value_node(value) {
        ValueNode::Variant(inner) => third_field_string(inner),
        _ => third_field_string(value),
    }
}

/// What is built as an IBus text reads back as the same text, whether or not
/// it travels inside a variant.
pub proof fn ibus_text_reads_back(text: Seq<char>)
    ensures
        ibus_text_of(ibus_text_model(text)) == text,
        ibus_text_of(ValueModel::Variant(Box::new(ibus_text_model(text)))) == text,
{
}

/// A text that is built is extracted as it was, from the value itself.
pub proof fn built_text_is_extracted(
    text: &str,
    value: Value<'static>,
    extracted: String,
)
    requires
        call_ensures(build_ibus_text, (text,), value),
        call_ensures(extract_ibus_text_string, (&value,), extracted),
    ensures
        extracted@ == text@,
{
}

/// A built text has four fields, of which the third is the text; the others are
/// the same for every text.
pub proof fn only_the_third_field_holds_the_text(a: Seq<char>, b: Seq<char>)
    ensures
        ibus_text_model(a) matches ValueModel::Structure(fields) && {
            &&& fields.len() == 4
            &&& fields[2] == ValueModel::Str(a)
            &&& ibus_text_model(b) == ValueModel::Structure(fields.update(2, ValueModel::Str(b)))
        },
{
    if let ValueModel::Structure(fields) = ibus_text_model(a) {
        if let ValueModel::Structure(others) = ibus_text_model(b) {
            assert(others =~= fields.update(2, ValueModel::Str(b)));
        }
    }
}

/// Whether a value is a structure whose third field is `text`, as it is or
/// inside one variant.
pub open spec fn holds_text(value: ValueModel, text: Seq<char>) -> bool {
    exists|fields: Seq<ValueModel>|
        {
            &&& fields.len() >= 3
            &&& #[trigger] fields[2] == ValueModel::Str(text)
            &&& value == ValueModel::Structure(fields) || value == ValueModel::Variant(
                Box::new(ValueModel::Structure(fields)),
            )
        }
}

/// The text of a value is what its third field holds, and empty where there is
/// no such field.
pub proof fn text_is_the_third_field(value: ValueModel, text: Seq<char>)
    ensures
        holds_text(value, text) ==> ibus_text_of(value) == text,
        ibus_text_of(value).len() > 0 ==> holds_text(value, ibus_text_of(value)),
{
    if ibus_text_of(value).len() > 0 {
        let fields = match value {
            ValueModel::Variant(inner) => inner->Structure_0,
            _ => value->Structure_0,
        };
        assert(fields[2] == ValueModel::Str(ibus_text_of(value)));
    }
}

// ---------------------------------------------------------------------------
// Content types
// ---------------------------------------------------------------------------

/// The purpose and the hints by which IBus knows a content type.
pub open spec fn purpose_and_hints(content_type: ContentType) -> (u32, u32) {
    match content_type {
        ContentType::Normal => (IBUS_INPUT_PURPOSE_FREE_FORM, IBUS_INPUT_HINT_NONE),
        ContentType::Password => (IBUS_INPUT_PURPOSE_PASSWORD, IBUS_INPUT_HINT_NO_SPELLCHECK),
        ContentType::Number => (IBUS_INPUT_PURPOSE_NUMBER, IBUS_INPUT_HINT_NONE),
        ContentType::Phone => (IBUS_INPUT_PURPOSE_PHONE, IBUS_INPUT_HINT_NONE),
        ContentType::Url => (IBUS_INPUT_PURPOSE_URL, IBUS_INPUT_HINT_NO_SPELLCHECK),
        ContentType::Email => (IBUS_INPUT_PURPOSE_EMAIL, IBUS_INPUT_HINT_NO_SPELLCHECK),
    }
}

/// The purpose and the hints by which IBus knows a content type.
pub fn ibus_content_type(content_type: ContentType) -> (known_as: (u32, u32))
    ensures
        known_as == purpose_and_hints(content_type),
{
    match content_type {
        ContentType::Normal => (IBUS_INPUT_PURPOSE_FREE_FORM, IBUS_INPUT_HINT_NONE),
        ContentType::Password => (IBUS_INPUT_PURPOSE_PASSWORD, IBUS_INPUT_HINT_NO_SPELLCHECK),
        ContentType::Number => (IBUS_INPUT_PURPOSE_NUMBER, IBUS_INPUT_HINT_NONE),
        ContentType::Phone => (IBUS_INPUT_PURPOSE_PHONE, IBUS_INPUT_HINT_NONE),
        ContentType::Url => (IBUS_INPUT_PURPOSE_URL, IBUS_INPUT_HINT_NO_SPELLCHECK),
        ContentType::Email => (IBUS_INPUT_PURPOSE_EMAIL, IBUS_INPUT_HINT_NO_SPELLCHECK),
    }
}

/// IBus tells all content types apart by their purpose.
pub proof fn purposes_are_distinct(a: ContentType, b: ContentType)
    requires
        purpose_and_hints(a).0 == purpose_and_hints(b).0,
    ensures
        a == b,
{
}

// ---------------------------------------------------------------------------
// Connecting
// ---------------------------------------------------------------------------

/// What to do next to connect.
pub enum IBusStep {
    OpenSession,
    BindBus,
    CreateContext { client: String },
    BindContext { path: String },
    SetCapabilities { flags: u32 },
    /// Subscribe to the signals, as [`subscribe_next`] says.
    StartListening,
    Connected,
    Failed { message: String },
}

/// An [`IBusStep`] with its texts as sequences of characters.
#[verifier::ext_equal]
pub enum IBusStepView {
    OpenSession,
    BindBus,
    CreateContext { client: Seq<char> },
    BindContext { path: Seq<char> },
    SetCapabilities { flags: u32 },
    StartListening,
    Connected,
    Failed { message: Seq<char> },
}

impl View for IBusStep {
    type V = IBusStepView;

    open spec fn view(&self) -> IBusStepView {
        match *self {
            IBusStep::OpenSession => IBusStepView::OpenSession,
            IBusStep::BindBus => IBusStepView::BindBus,
            IBusStep::CreateContext { client } => IBusStepView::CreateContext { client: client@ },
            IBusStep::BindContext { path } => IBusStepView::BindContext { path: path@ },
            IBusStep::SetCapabilities { flags } => IBusStepView::SetCapabilities { flags },
            IBusStep::StartListening => IBusStepView::StartListening,
            IBusStep::Connected => IBusStepView::Connected,
            IBusStep::Failed { message } => IBusStepView::Failed { message: message@ },
        }
    }
}

/// What came of a step: the text it returned, empty where it returns none, or
/// the error it failed with.
pub type IBusOutcome = Result<String, String>;

/// The text that an outcome carries, a result's or an error's.
pub open spec fn outcome_text(outcome: IBusOutcome) -> Seq<char> {
    match outcome {
        Ok(value) => value@,
        Err(message) => message@,
    }
}

/// The step after one that succeeded with `value`.
pub open spec fn step_granted(step: IBusStepView, value: Seq<char>) -> IBusStepView {
    match step {
        IBusStepView::OpenSession => IBusStepView::BindBus,
        IBusStepView::BindBus => IBusStepView::CreateContext { client: "native-ime"@ },
        IBusStepView::CreateContext { .. } => IBusStepView::BindContext { path: value },
        IBusStepView::BindContext { .. } => IBusStepView::SetCapabilities {
            flags: IBUS_CAP_PREEDIT_TEXT | IBUS_CAP_FOCUS | IBUS_CAP_SURROUNDING_TEXT,
        },
        IBusStepView::SetCapabilities { .. } => IBusStepView::StartListening,
        IBusStepView::StartListening => IBusStepView::Connected,
        IBusStepView::Connected => step,
        IBusStepView::Failed { .. } => step,
    }
}

/// The step after `step`, once that has come to `outcome`: every step has to
/// succeed for the next to be taken, the subscriptions as well.
pub open spec fn step_after(step: IBusStepView, outcome: IBusOutcome) -> IBusStepView {
    if step is Connected || step is Failed {
        step
    } else if outcome is Ok {
        step_granted(step, outcome_text(outcome))
    } else {
        IBusStepView::Failed { message: outcome_text(outcome) }
    }
}

/// The step after `step`, once that has come to `outcome`. The end of the
/// road stays where it is.
pub fn connect_next(step: IBusStep, outcome: IBusOutcome) -> (next: IBusStep)
    ensures
        next@ == step_after(step@, outcome),
{
    match step {
        IBusStep::Connected => IBusStep::Connected,
        IBusStep::Failed { message } => IBusStep::Failed { message },
        IBusStep::OpenSession => match outcome {
            Ok(_) => IBusStep::BindBus,
            Err(message) => IBusStep::Failed { message },
        },
        IBusStep::BindBus => match outcome {
            Ok(_) => IBusStep::CreateContext { client: "native-ime".to_owned() },
            Err(message) => IBusStep::Failed { message },
        },
        IBusStep::CreateContext { .. } => match outcome {
            Ok(path) => IBusStep::BindContext { path },
            Err(message) => IBusStep::Failed { message },
        },
        IBusStep::BindContext { .. } => match outcome {
            Ok(_) => IBusStep::SetCapabilities {
                flags: IBUS_CAP_PREEDIT_TEXT | IBUS_CAP_FOCUS | IBUS_CAP_SURROUNDING_TEXT,
            },
            Err(message) => IBusStep::Failed { message },
        },
        IBusStep::SetCapabilities { .. } => match outcome {
            Ok(_) => IBusStep::StartListening,
            Err(message) => IBusStep::Failed { message },
        },
        IBusStep::StartListening => match outcome {
            Ok(_) => IBusStep::Connected,
            Err(message) => IBusStep::Failed { message },
        },
    }
}

/// Where a connection stands after a run of outcomes.
pub open spec fn connect_run(outcomes: Seq<IBusOutcome>) -> IBusStepView
    decreases outcomes.len(),
{
    if outcomes.len() == 0 {
        IBusStepView::OpenSession
    } else {
        step_after(connect_run(outcomes.drop_last()), outcomes.last())
    }
}

/// A connection stands after six outcomes just where the framework granted
/// every one of them, and otherwise it has failed.
pub proof fn connects_iff_all_granted(outcomes: Seq<IBusOutcome>)
    requires
        outcomes.len() == 6,
    ensures
        (forall|i: int| 0 <= i < 6 ==> #[trigger] outcomes[i] is Ok) ==> connect_run(outcomes)
            == IBusStepView::Connected,
        (exists|i: int| 0 <= i < 6 && #[trigger] outcomes[i] is Err) ==> connect_run(
            outcomes,
        ) is Failed,
{
    reveal_with_fuel(connect_run, 7);
}

/// A step that fails with an error leads to a failure that is that error.
pub proof fn failures_keep_the_error(step: IBusStepView, error: String)
    requires
        !(step is Connected || step is Failed),
    ensures
        step_after(step, Err(error)) == (IBusStepView::Failed { message: error@ }),
{
}

/// The context that IBus created is the one that is used.
pub proof fn created_context_is_bound(step: IBusStep, path: String, next: IBusStep)
    requires
        step is CreateContext,
        call_ensures(connect_next, (step, Ok::<String, String>(path)), next),
    ensures
        next matches IBusStep::BindContext { path: bound } && bound@ == path@,
{
}

// ---------------------------------------------------------------------------
// Listening
// ---------------------------------------------------------------------------

/// The signals of an input context.
#[derive(Debug, Clone, Copy, PartialEq, Eq, Structural)]
pub enum IBusSignalKind {
    CommitText,
    UpdatePreeditText,
    HidePreeditText,
    DeleteSurroundingText,
    ForwardKeyEvent,
}

impl IBusSignalKind {
    /// The name of the signal in messages.
    pub open spec fn label(self) -> Seq<char> {
        match self {
            IBusSignalKind::CommitText => "commit-text"@,
            IBusSignalKind::UpdatePreeditText => "update-preedit-text"@,
            IBusSignalKind::HidePreeditText => "hide-preedit-text"@,
            IBusSignalKind::DeleteSurroundingText => "delete-surrounding-text"@,
            IBusSignalKind::ForwardKeyEvent => "forward-key-event"@,
        }
    }

    /// The name of the signal in messages.
    pub fn name(self) -> (name: &'static str)
        ensures
            name@ == self.label(),
    {
        match self {
            IBusSignalKind::CommitText => "commit-text",
            IBusSignalKind::UpdatePreeditText => "update-preedit-text",
            IBusSignalKind::HidePreeditText => "hide-preedit-text",
            IBusSignalKind::DeleteSurroundingText => "delete-surrounding-text",
            IBusSignalKind::ForwardKeyEvent => "forward-key-event",
        }
    }
}

/// How far the subscriptions have come.
pub enum IBusListening {
    Subscribe(IBusSignalKind),
    Listening,
    /// A subscription failed, and with it the connection.
    Abandoned { message: String },
}

/// An [`IBusListening`] with its text as a sequence of characters.
#[verifier::ext_equal]
pub enum IBusListeningView {
    Subscribe(IBusSignalKind),
    Listening,
    Abandoned { message: Seq<char> },
}

impl View for IBusListening {
    type V = IBusListeningView;

    open spec fn view(&self) -> IBusListeningView {
        match *self {
            IBusListening::Subscribe(kind) => IBusListeningView::Subscribe(kind),
            IBusListening::Listening => IBusListeningView::Listening,
            IBusListening::Abandoned { message } => IBusListeningView::Abandoned {
                message: message@,
            },
        }
    }
}

/// What to say where the subscription to a signal failed.
pub open spec fn subscribe_error(kind: IBusSignalKind, error: Seq<char>) -> Seq<char> {
    "IBus subscribe "@ + kind.label() + " failed: "@ + error
}

/// What comes after `kind` has been tried.
pub open spec fn listening_after(
    kind: IBusSignalKind,
    outcome: Result<(), String>,
) -> IBusListeningView {
    match outcome {
        Ok(_) => match kind {
            IBusSignalKind::CommitText => IBusListeningView::Subscribe(
                IBusSignalKind::UpdatePreeditText,
            ),
            IBusSignalKind::UpdatePreeditText => IBusListeningView::Subscribe(
                IBusSignalKind::HidePreeditText,
            ),
            IBusSignalKind::HidePreeditText => IBusListeningView::Subscribe(
                IBusSignalKind::DeleteSurroundingText,
            ),
            IBusSignalKind::DeleteSurroundingText => IBusListeningView::Subscribe(
                IBusSignalKind::ForwardKeyEvent,
            ),
            IBusSignalKind::ForwardKeyEvent => IBusListeningView::Listening,
        },
        Err(error) => IBusListeningView::Abandoned { message: subscribe_error(kind, error@) },
    }
}

/// The first subscription.
pub fn subscribe_first() -> (first: IBusListening)
    ensures
        first@ == IBusListeningView::Subscribe(IBusSignalKind::CommitText),
{
    IBusListening::Subscribe(IBusSignalKind::CommitText)
}

/// The subscription that comes after `kind` has been tried.
pub fn subscribe_next(kind: IBusSignalKind, outcome: Result<(), String>) -> (next: IBusListening)
    ensures
        next@ == listening_after(kind, outcome),
{
    match outcome {
        Ok(_) => match kind {
            IBusSignalKind::CommitText => IBusListening::Subscribe(
                IBusSignalKind::UpdatePreeditText,
            ),
            IBusSignalKind::UpdatePreeditText => IBusListening::Subscribe(
                IBusSignalKind::HidePreeditText,
            ),
            IBusSignalKind::HidePreeditText => IBusListening::Subscribe(
                IBusSignalKind::DeleteSurroundingText,
            ),
            IBusSignalKind::DeleteSurroundingText => IBusListening::Subscribe(
                IBusSignalKind::ForwardKeyEvent,
            ),
            IBusSignalKind::ForwardKeyEvent => IBusListening::Listening,
        },
        Err(error) => {
            let mut message = "IBus subscribe ".to_owned();
            message.append(kind.name());
            message.append(" failed: ");
            message.append(error.as_str());
            IBusListening::Abandoned { message }
        },
    }
}

/// How far the subscriptions have come after a run of attempts.
pub open spec fn listen_run(attempts: Seq<Result<(), String>>) -> IBusListeningView
    decreases attempts.len(),
{
    if attempts.len() == 0 {
        IBusListeningView::Subscribe(IBusSignalKind::CommitText)
    } else {
        match listen_run(attempts.drop_last()) {
            IBusListeningView::Subscribe(kind) => listening_after(kind, attempts.last()),
            over => over,
        }
    }
}

/// The backend listens after as many attempts as there are signals just where
/// every one of them succeeded; otherwise the signal loop is abandoned.
pub proof fn listens_iff_all_subscribed(attempts: Seq<Result<(), String>>)
    requires
        attempts.len() == 5,
    ensures
        (forall|i: int| 0 <= i < 5 ==> #[trigger] attempts[i] is Ok) ==> listen_run(attempts)
            == IBusListeningView::Listening,
        (exists|i: int| 0 <= i < 5 && #[trigger] attempts[i] is Err) ==> listen_run(
            attempts,
        ) is Abandoned,
{
    reveal_with_fuel(listen_run, 6);
}

/// A subscription that fails ends the subscribing, whatever the signal,
/// and the message tells the signal and the error; one that succeeds ends
/// nothing.
pub proof fn failed_subscriptions_are_told(
    kind: IBusSignalKind,
    outcome: Result<(), String>,
    next: IBusListening,
)
    requires
        call_ensures(subscribe_next, (kind, outcome), next),
    ensures
        outcome is Err <==> next is Abandoned,
        outcome matches Err(error) ==> (next matches IBusListening::Abandoned { message }
            && message@ == "IBus subscribe "@ + kind.label() + " failed: "@ + error@),
        outcome is Ok ==> (next is Listening <==> kind == IBusSignalKind::ForwardKeyEvent),
{
}

/// What the signal loop's report means for the connection. The loop reports
/// once, when it is ready or has failed; no report at all means that it is
/// gone.
pub fn signal_loop_ready(report: Option<Result<(), String>>) -> (ready: Result<(), String>)
    ensures
        match report {
            Some(result) => ready == result,
            None => ready matches Err(message) && message@
                == "IBus signal loop ended before initialization completed"@,
        },
{
    match report {
        Some(result) => result,
        None => Err("IBus signal loop ended before initialization completed".to_owned()),
    }
}

/// A signal, with its arguments.
pub enum IBusSignal<'a> {
    CommitText { text: Value<'a> },
    UpdatePreeditText { text: Value<'a>, cursor_pos: u32 },
    HidePreeditText,
    DeleteSurroundingText { offset: i32, nchars: u32 },
    ForwardKeyEvent { keyval: u32, state: u32 },
}

impl<'a> IBusSignal<'a> {
    /// Whether the signal's numbers give numbers that an event can hold.
    pub open spec fn in_range(self) -> bool {
        self matches IBusSignal::DeleteSurroundingText { offset, nchars }
            ==> convert::deletion_in_range(offset, nchars)
    }

    /// The event that the signal stands for.
    pub open spec fn event(self) -> EventView {
        match self {
            IBusSignal::CommitText { text } => EventView::Commit {
                text: ibus_text_of(variant::value_view(text)),
            },
            IBusSignal::UpdatePreeditText { text, cursor_pos } => convert::preedit_view(
                ibus_text_of(variant::value_view(text)),
                cursor_pos as i32,
            ),
            IBusSignal::HidePreeditText => EventView::PreeditEnd,
            IBusSignal::DeleteSurroundingText { offset, nchars } => convert::deletion_view(
                offset,
                nchars,
            ),
            IBusSignal::ForwardKeyEvent { keyval, state } => EventView::ForwardKey {
                keyval,
                state,
            },
        }
    }
}

/// The event that a signal stands for. IBus puts the release of a key into its
/// state itself.
pub fn signal_event(signal: IBusSignal<'_>) -> (event: ImeEvent)
    requires
        signal.in_range(),
    ensures
        event@ == signal.event(),
{
    match signal {
        IBusSignal::CommitText { text } => ImeEvent::Commit {
            text: extract_ibus_text_string(&text),
        },
        IBusSignal::UpdatePreeditText { text, cursor_pos } => {
            let shown = extract_ibus_text_string(&text);
            preedit_event(shown, cursor_pos as i32)
        },
        IBusSignal::HidePreeditText => ImeEvent::PreeditEnd,
        IBusSignal::DeleteSurroundingText { offset, nchars } => deletion_event(offset, nchars),
        IBusSignal::ForwardKeyEvent { keyval, state } => ImeEvent::ForwardKey {
            keyval,
            state: KeyState(state),
        },
    }
}

/// The event that a signal stands for; none where the signal's numbers give
/// more than an event can hold.
pub fn checked_signal_event(signal: IBusSignal<'_>) -> (event: Option<ImeEvent>)
    ensures
        match event {
            Some(e) => signal.in_range() && e@ == signal.event(),
            None => !signal.in_range(),
        },
{
    if let IBusSignal::DeleteSurroundingText { offset, nchars } = &signal {
        if !deletion_fits(*offset, *nchars) {
            return None;
        }
    }
    Some(signal_event(signal))
}

/// A text that the user settled on reaches the host as a commit of just that
/// text, and nothing else does.
pub proof fn committed_text_is_committed(
    signal: IBusSignal<'_>,
    event: ImeEvent,
    settled: Seq<char>,
)
    requires
        call_ensures(signal_event, (signal,), event),
    ensures
        signal is CommitText <==> event is Commit,
        signal matches IBusSignal::CommitText { text } ==> (event matches ImeEvent::Commit {
            text: committed,
        } && {
            &&& holds_text(variant::value_view(text), settled) ==> committed@ == settled
            &&& committed@.len() > 0 ==> holds_text(variant::value_view(text), committed@)
        }),
{
    if let IBusSignal::CommitText { text } = signal {
        text_is_the_third_field(variant::value_view(text), settled);
    }
}

/// A change of the composed text shows that text, with the cursor where IBus
/// puts it, or ends the composition where the text is empty. Hiding the text
/// ends it too, and nothing else does either.
pub proof fn composed_text_is_shown(signal: IBusSignal<'_>, event: ImeEvent, composed: Seq<char>)
    requires
        call_ensures(signal_event, (signal,), event),
    ensures
        signal is UpdatePreeditText || signal is HidePreeditText <==> event is Preedit
            || event is PreeditEnd,
        signal is HidePreeditText ==> event is PreeditEnd,
        signal matches IBusSignal::UpdatePreeditText { text, cursor_pos } ==> (holds_text(
            variant::value_view(text),
            composed,
        ) ==> {
            &&& event is PreeditEnd <==> composed.len() == 0
            &&& event matches ImeEvent::Preedit { text: shown, cursor_begin, cursor_end } ==> {
                &&& shown@ == composed
                &&& cursor_begin == cursor_end
                &&& cursor_begin as u32 == cursor_pos
            }
        }),
        signal is UpdatePreeditText && event is Preedit ==> (signal matches
            IBusSignal::UpdatePreeditText { text, .. } && event matches ImeEvent::Preedit {
            text: shown,
            ..
        } && holds_text(variant::value_view(text), shown@)),
{
    if let IBusSignal::UpdatePreeditText { text, cursor_pos } = signal {
        text_is_the_third_field(variant::value_view(text), composed);
        assert((cursor_pos as i32) as u32 == cursor_pos) by (bit_vector);
    }
}

/// A request to delete text reaches the host as the counts that stand for it,
/// and nothing else does. Each end is counted by itself.
pub proof fn requested_deletion_is_handed_on(signal: IBusSignal<'_>, event: ImeEvent)
    requires
        call_ensures(signal_event, (signal,), event),
        signal.in_range(),
    ensures
        signal is DeleteSurroundingText <==> event is DeleteSurroundingText,
        signal matches IBusSignal::DeleteSurroundingText { offset, nchars } ==> (
        event matches ImeEvent::DeleteSurroundingText { before, after } && {
            &&& offset <= 0 ==> before == -offset
            &&& offset >= 0 ==> before == 0
            &&& offset + nchars >= 0 ==> after == offset + nchars
            &&& offset + nchars <= 0 ==> after == 0
        }),
{
    if let IBusSignal::DeleteSurroundingText { offset, nchars } = signal {
        convert::deletion_ends_are_counted_apart(offset, nchars);
    }
}

/// A key that is passed on reaches the host as the same key in the same state,
/// and nothing else is a key.
pub proof fn forwarded_key_is_the_same_key(signal: IBusSignal<'_>, event: ImeEvent)
    requires
        call_ensures(signal_event, (signal,), event),
    ensures
        signal is ForwardKeyEvent <==> event is ForwardKey,
        signal matches IBusSignal::ForwardKeyEvent { keyval, state } ==> (
        event matches ImeEvent::ForwardKey { keyval: key, state: mask } && key == keyval && mask.0
            == state),
{
}

/// Whether a signal can be turned into an event or not, what comes of it is the
/// same; only a deletion that reaches too far is turned down.
pub proof fn checked_events_are_the_events(
    signal: IBusSignal<'_>,
    checked: Option<ImeEvent>,
    event: ImeEvent,
)
    requires
        call_ensures(checked_signal_event, (signal,), checked),
        call_ensures(signal_event, (signal,), event),
    ensures
        checked matches Some(e) ==> e@ == event@,
        !(signal is DeleteSurroundingText) ==> checked is Some,
        signal matches IBusSignal::DeleteSurroundingText { offset, nchars } ==> (checked is Some
            <==> offset + nchars < 0x1_0000_0000),
{
}

/// Every signal of IBus gives an event of a sort that the backend declares.
pub proof fn signals_are_declared(signal: IBusSignal<'_>)
    ensures
        declared() & signal.event().capability() != 0,
{
    assert((0x01u32 | 0x02u32 | 0x04u32 | 0x08u32 | 0x10u32 | 0x20u32) & 0x01u32 != 0)
        by (bit_vector);
    assert((0x01u32 | 0x02u32 | 0x04u32 | 0x08u32 | 0x10u32 | 0x20u32) & 0x02u32 != 0)
        by (bit_vector);
    assert((0x01u32 | 0x02u32 | 0x04u32 | 0x08u32 | 0x10u32 | 0x20u32) & 0x04u32 != 0)
        by (bit_vector);
    assert((0x01u32 | 0x02u32 | 0x04u32 | 0x08u32 | 0x10u32 | 0x20u32) & 0x08u32 != 0)
        by (bit_vector);
}

// ---------------------------------------------------------------------------
// Calling
// ---------------------------------------------------------------------------

/// A method call on the input context.
pub enum IBusRequest {
    FocusIn,
    FocusOut,
    SetCursorLocation { x: i32, y: i32, w: i32, h: i32 },
    SetSurroundingText { text: Value<'static>, cursor: u32, anchor: u32 },
    SetContentType { purpose: u32, hints: u32 },
    ProcessKeyEvent { keyval: u32, keycode: u32, state: u32 },
    Reset,
}

/// Whether `request` is the method call that carries out a call of the engine.
pub open spec fn carries_out(request: IBusRequest, call: BackendCall) -> bool {
    match call {
        BackendCall::FocusIn => request == IBusRequest::FocusIn,
        BackendCall::FocusOut => request == IBusRequest::FocusOut,
        BackendCall::SetCursorRect { rect } => request == (IBusRequest::SetCursorLocation {
            x: rect.x,
            y: rect.y,
            w: rect.width,
            h: rect.height,
        }),
        BackendCall::SetSurroundingText { text, cursor, anchor } => {
            &&& request matches IBusRequest::SetSurroundingText { text: value, cursor: c, anchor: a }
            &&& variant::value_view(value) == ibus_text_model(text@)
            &&& c == convert::offset_arg(cursor)
            &&& a == convert::offset_arg(anchor)
        },
        BackendCall::SetContentType { content_type } => request == (IBusRequest::SetContentType {
            purpose: purpose_and_hints(content_type).0,
            hints: purpose_and_hints(content_type).1,
        }),
        BackendCall::ProcessKeyEvent { keyval, keycode, state, is_release } => request == (
        IBusRequest::ProcessKeyEvent {
            keyval,
            keycode,
            state: convert::key_state(state, is_release),
        }),
        BackendCall::Reset => request == IBusRequest::Reset,
    }
}

/// The method call that carries out a call of the engine.
pub fn request(call: BackendCall) -> (request: IBusRequest)
    ensures
        carries_out(request, call),
{
    match call {
        BackendCall::FocusIn => IBusRequest::FocusIn,
        BackendCall::FocusOut => IBusRequest::FocusOut,
        BackendCall::SetCursorRect { rect } => IBusRequest::SetCursorLocation {
            x: rect.x,
            y: rect.y,
            w: rect.width,
            h: rect.height,
        },
        BackendCall::SetSurroundingText { text, cursor, anchor } => {
            IBusRequest::SetSurroundingText {
                text: build_ibus_text(text.as_str()),
                cursor: clamp_offset(cursor),
                anchor: clamp_offset(anchor),
            }
        },
        BackendCall::SetContentType { content_type } => {
            let (purpose, hints) = ibus_content_type(content_type);
            IBusRequest::SetContentType { purpose, hints }
        },
        BackendCall::ProcessKeyEvent { keyval, keycode, state, is_release } => {
            IBusRequest::ProcessKeyEvent {
                keyval,
                keycode,
                state: encode_release(state, is_release),
            }
        },
        BackendCall::Reset => IBusRequest::Reset,
    }
}

/// IBus is told the host's text, and each offset by itself: as it is where it
/// is not negative, and as the start of the text otherwise.
pub proof fn announced_text_is_the_hosts(
    text: String,
    cursor: i32,
    anchor: i32,
    request_made: IBusRequest,
)
    requires
        call_ensures(
            request,
            (BackendCall::SetSurroundingText { text, cursor, anchor },),
            request_made,
        ),
    ensures
        request_made matches IBusRequest::SetSurroundingText { text: told, cursor: c, anchor: a }
            && {
            &&& ibus_text_of(variant::value_view(told)) == text@
            &&& holds_text(variant::value_view(told), text@)
            &&& cursor >= 0 ==> c == cursor
            &&& cursor < 0 ==> c == 0
            &&& anchor >= 0 ==> a == anchor
            &&& anchor < 0 ==> a == 0
        },
{
    let fields = ibus_text_model(text@)->Structure_0;
    assert(fields[2] == ValueModel::Str(text@));
}

/// IBus is handed the host's key as it is; its state keeps the host's modifiers
/// and says that the key went up just where it did, provided that the flag was
/// free.
pub proof fn handed_key_is_the_hosts(
    keyval: u32,
    keycode: u32,
    state: u32,
    is_release: bool,
    request_made: IBusRequest,
)
    requires
        call_ensures(
            request,
            (BackendCall::ProcessKeyEvent { keyval, keycode, state, is_release },),
            request_made,
        ),
    ensures
        request_made matches IBusRequest::ProcessKeyEvent { keyval: v, keycode: c, state: s } && {
            &&& v == keyval
            &&& c == keycode
            &&& s & 0xbfff_ffff == state & 0xbfff_ffff
            &&& !is_release ==> s == state
            &&& is_release ==> s & 0x4000_0000 == 0x4000_0000
        },
{
    convert::release_leaves_modifiers_alone(state, is_release);
}

/// IBus is told the host's cursor, side by side.
pub proof fn cursor_rect_is_the_hosts(rect: CursorRect, request_made: IBusRequest)
    requires
        call_ensures(request, (BackendCall::SetCursorRect { rect },), request_made),
    ensures
        request_made matches IBusRequest::SetCursorLocation { x, y, w, h } && x == rect.x && y
            == rect.y && w == rect.width && h == rect.height,
{
}

/// IBus is told the content type under the purpose and the hints by which it is
/// known.
pub proof fn content_type_is_the_hosts(
    content_type: ContentType,
    known_as: (u32, u32),
    request_made: IBusRequest,
)
    requires
        call_ensures(request, (BackendCall::SetContentType { content_type },), request_made),
        call_ensures(ibus_content_type, (content_type,), known_as),
    ensures
        request_made matches IBusRequest::SetContentType { purpose, hints } && purpose == known_as.0
            && hints == known_as.1,
        content_type == ContentType::Normal <==> known_as == (0u32, 0u32),
        content_type == ContentType::Number <==> known_as == (3u32, 0u32),
        content_type == ContentType::Phone <==> known_as == (4u32, 0u32),
        content_type == ContentType::Url <==> known_as == (5u32, 2u32),
        content_type == ContentType::Email <==> known_as == (6u32, 2u32),
        content_type == ContentType::Password <==> known_as == (8u32, 2u32),
{
}

/// Each call of the host is carried out by the method of its own sort, and by
/// none other.
pub proof fn each_call_has_its_method(call: BackendCall, request_made: IBusRequest)
    requires
        call_ensures(request, (call,), request_made),
    ensures
        call is FocusIn <==> request_made is FocusIn,
        call is FocusOut <==> request_made is FocusOut,
        call is SetCursorRect <==> request_made is SetCursorLocation,
        call is SetSurroundingText <==> request_made is SetSurroundingText,
        call is SetContentType <==> request_made is SetContentType,
        call is ProcessKeyEvent <==> request_made is ProcessKeyEvent,
        call is Reset <==> request_made is Reset,
{
}

/// Whether IBus took a key: it answered, and said so.
pub fn key_handled(reply: KeyReply<bool>) -> (handled: bool)
    ensures
        handled == (reply matches KeyReply::Answered(value) && value),
{
    match reply {
        KeyReply::Answered(value) => value,
        KeyReply::Failed => false,
        KeyReply::TimedOut => false,
    }
}

/// A key counts as taken just where IBus answered that it took it.
pub proof fn key_is_taken_only_on_its_word(reply: KeyReply<bool>, handled: bool)
    requires
        call_ensures(key_handled, (reply,), handled),
    ensures
        reply == KeyReply::Answered(true) <==> handled,
{
}

// ---------------------------------------------------------------------------
// Summaries for the log
// ---------------------------------------------------------------------------

/// A text event told by the text's size and the cursor, without the text.
pub open spec fn text_event_line(
    event_type: Seq<char>,
    text: Seq<char>,
    cursor: Option<i32>,
) -> Seq<char> {
    let size = text::size_summary(event_type, text);
    match cursor {
        Some(c) => size + " cursor="@ + text::decimal(c as int),
        None => size,
    }
}

/// A text event told by the text's size and the cursor, without the text.
pub fn text_event_summary(event_type: &str, text: &str, cursor: Option<i32>) -> (summary: String)
    ensures
        summary@ == text_event_line(event_type@, text@, cursor),
{
    let mut summary = summarize_size(event_type, text);
    if let Some(cursor) = cursor {
        summary.append(" cursor=");
        push_decimal(&mut summary, cursor);
    }
    summary
}

/// A forwarded key told by its modifiers, without the key.
pub fn forward_key_summary(state: u32) -> (summary: String)
    ensures
        summary@ == "forward-key state=0x"@ + text::hex(state as nat),
{
    let mut summary = "forward-key state=0x".to_owned();
    push_hex(&mut summary, state);
    summary
}

/// What the log says of a signal, if anything.
pub open spec fn log_line(signal: IBusSignal<'_>) -> Option<Seq<char>> {
    match signal {
        IBusSignal::CommitText { text } => Some(
            text_event_line("commit"@, ibus_text_of(variant::value_view(text)), None),
        ),
        IBusSignal::UpdatePreeditText { text, cursor_pos } => Some(
            text_event_line(
                "preedit"@,
                ibus_text_of(variant::value_view(text)),
                Some(cursor_pos as i32),
            ),
        ),
        IBusSignal::HidePreeditText => Some("hide-preedit"@),
        IBusSignal::DeleteSurroundingText { .. } => None,
        IBusSignal::ForwardKeyEvent { state, .. } => Some(
            "forward-key state=0x"@ + text::hex(state as nat),
        ),
    }
}

/// What the log says of a signal, if anything: never a text or a key.
pub fn signal_log(signal: &IBusSignal<'_>) -> (line: Option<String>)
    ensures
        match line {
            Some(l) => log_line(*signal) == Some(l@),
            None => log_line(*signal) is None,
        },
{
    match signal {
        IBusSignal::CommitText { text } => {
            let shown = extract_ibus_text_string(text);
            Some(text_event_summary("commit", shown.as_str(), None))
        },
        IBusSignal::UpdatePreeditText { text, cursor_pos } => {
            let shown = extract_ibus_text_string(text);
            Some(text_event_summary("preedit", shown.as_str(), Some(*cursor_pos as i32)))
        },
        IBusSignal::HidePreeditText => Some("hide-preedit".to_owned()),
        IBusSignal::DeleteSurroundingText { .. } => None,
        IBusSignal::ForwardKeyEvent { state, .. } => Some(forward_key_summary(*state)),
    }
}

/// The log tells two texts of the same size apart by nothing.
pub proof fn text_events_hide_text(
    event_type: Seq<char>,
    a: Seq<char>,
    b: Seq<char>,
    cursor: Option<i32>,
)
    requires
        a.len() == b.len(),
        text::byte_len(a) == text::byte_len(b),
    ensures
        text_event_line(event_type, a, cursor) == text_event_line(event_type, b, cursor),
{
}

/// The log tells the size of a text and the cursor: two events of a sort are
/// told alike only where these are the same.
pub proof fn text_events_tell_size_and_cursor(
    event_type: Seq<char>,
    a: Seq<char>,
    b: Seq<char>,
    cursor_a: i32,
    cursor_b: i32,
)
    ensures
        text_event_line(event_type, a, None) == text_event_line(event_type, b, None)
            <==> text::byte_len(a) == text::byte_len(b) && a.len() == b.len(),
        text_event_line(event_type, a, Some(cursor_a)) == text_event_line(
            event_type,
            b,
            Some(cursor_b),
        ) <==> text::byte_len(a) == text::byte_len(b) && a.len() == b.len() && cursor_a == cursor_b,
{
    text::summaries_tell_sizes(event_type, a, b);
    let x = text_event_line(event_type, a, Some(cursor_a));
    let y = text_event_line(event_type, b, Some(cursor_b));
    if x == y {
        reveal_strlit(" char_count=");
        reveal_strlit(" cursor=");
        assert(!text::is_numeral(seq![' '])) by {
            assert(seq![' '][0] == ' ');
        }
        let bytes_a = text::decimal(text::byte_len(a) as int);
        let bytes_b = text::decimal(text::byte_len(b) as int);
        let len_a = text::decimal(a.len() as int);
        let len_b = text::decimal(b.len() as int);
        let c_a = text::decimal(cursor_a as int);
        let c_b = text::decimal(cursor_b as int);
        text::numbers_are_numerals(text::byte_len(a) as int);
        text::numbers_are_numerals(text::byte_len(b) as int);
        text::numbers_are_numerals(a.len() as int);
        text::numbers_are_numerals(b.len() as int);
        let head = event_type + " byte_len="@;
        let rest_a = len_a + " cursor="@ + c_a;
        let rest_b = len_b + " cursor="@ + c_b;
        assert(x =~= head + bytes_a + " char_count="@ + rest_a);
        assert(y =~= head + bytes_b + " char_count="@ + rest_b);
        text::number_ends_are_plain(head, bytes_a, bytes_b, " char_count="@, rest_a, rest_b);
        let empty = Seq::<char>::empty();
        assert(rest_a =~= empty + len_a + " cursor="@ + c_a);
        assert(rest_b =~= empty + len_b + " cursor="@ + c_b);
        text::number_ends_are_plain(empty, len_a, len_b, " cursor="@, c_a, c_b);
        text::numbers_are_written_apart(text::byte_len(a) as int, text::byte_len(b) as int);
        text::numbers_are_written_apart(a.len() as int, b.len() as int);
        text::numbers_are_written_apart(cursor_a as int, cursor_b as int);
    }
}

/// What the log says of a signal is what it says of the event: the size of the
/// text that the host gets, the cursor where there is one, and the state of a
/// key. Of a deletion it says nothing.
pub proof fn log_tells_of_the_event(signal: IBusSignal<'_>, event: ImeEvent)
    requires
        call_ensures(signal_event, (signal,), event),
    ensures
        event matches ImeEvent::Commit { text } ==> log_line(signal) == Some(
            text_event_line("commit"@, text@, None),
        ),
        event matches ImeEvent::Preedit { text, cursor_begin, .. } ==> log_line(signal) == Some(
            text_event_line("preedit"@, text@, Some(cursor_begin)),
        ),
        event matches ImeEvent::ForwardKey { state, .. } ==> log_line(signal) == Some(
            "forward-key state=0x"@ + text::hex(state.0 as nat),
        ),
        event is DeleteSurroundingText <==> log_line(signal) is None,
        signal is HidePreeditText ==> log_line(signal) == Some("hide-preedit"@),
{
}

} // verus!
