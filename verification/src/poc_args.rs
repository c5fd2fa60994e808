//! The command line of the demonstration program.

use vstd::prelude::*;
#[allow(unused_imports)]
use vstd::string::*;

use crate::text;
use crate::text::{parse_i32, same_text};

verus! {

/// The text around the cursor that the program is to announce.
#[derive(Debug, Clone, PartialEq, Eq)]
pub struct SurroundingTextArgs {
    pub text: String,
    /// The cursor, in bytes.
    pub cursor: i32,
    /// The other end of the selection, in bytes.
    pub anchor: i32,
}

/// What the program was asked to do.
#[derive(Debug, Clone, PartialEq, Eq)]
pub struct PocArgs {
    /// Read lines of text and type them, in place of the default text.
    pub interactive: bool,
    /// Show texts and keys in the log, and not just their sizes.
    pub log_text: bool,
    pub surrounding_text: Option<SurroundingTextArgs>,
}

impl Default for PocArgs {
    fn default() -> (args: Self)
        ensures
            args == (PocArgs { interactive: false, log_text: false, surrounding_text: None }),
    {
        PocArgs { interactive: false, log_text: false, surrounding_text: None }
    }
}

/// A [`SurroundingTextArgs`] with its text as a sequence of characters.
#[verifier::ext_equal]
pub struct SurroundingTextView {
    pub text: Seq<char>,
    pub cursor: i32,
    pub anchor: i32,
}

/// A [`PocArgs`] with its text as a sequence of characters.
#[verifier::ext_equal]
pub struct PocArgsView {
    pub interactive: bool,
    pub log_text: bool,
    pub surrounding_text: Option<SurroundingTextView>,
}

impl View for SurroundingTextArgs {
    type V = SurroundingTextView;

    open spec fn view(&self) -> SurroundingTextView {
        SurroundingTextView { text: self.text@, cursor: self.cursor, anchor: self.anchor }
    }
}

impl View for PocArgs {
    type V = PocArgsView;

    open spec fn view(&self) -> PocArgsView {
        PocArgsView {
            interactive: self.interactive,
            log_text: self.log_text,
            surrounding_text: match self.surrounding_text {
                Some(s) => Some(s@),
                None => None,
            },
        }
    }
}

// ---------------------------------------------------------------------------
// Messages
// ---------------------------------------------------------------------------

pub open spec fn usage_text() -> Seq<char> {
    "Usage: ime-poc [--interactive] [--log-text] [--surrounding-text <text> [--cursor <n>] [--anchor <n>]]"@
}

pub open spec fn missing_value_text(flag: Seq<char>) -> Seq<char> {
    flag + " requires a value\n"@ + usage_text()
}

pub open spec fn bad_offset_text(flag: Seq<char>, value: Seq<char>) -> Seq<char> {
    flag + " must be a non-negative i32 byte offset: "@ + value
}

pub open spec fn unknown_argument_text(arg: Seq<char>) -> Seq<char> {
    "Unknown argument: "@ + arg + "\n"@ + usage_text()
}

pub open spec fn lone_offset_text() -> Seq<char> {
    "--cursor/--anchor require --surrounding-text"@
}

/// How the program is called.
pub fn usage() -> (message: String)
    ensures
        message@ == usage_text(),
{
    "Usage: ime-poc [--interactive] [--log-text] [--surrounding-text <text> [--cursor <n>] [--anchor <n>]]".to_owned()
}

// ---------------------------------------------------------------------------
// Values of flags
// ---------------------------------------------------------------------------

/// What the words of a command line say.
pub open spec fn words(args: Seq<String>) -> Seq<Seq<char>> {
    args.map_values(|arg: String| arg@)
}

/// The word at `index`, which becomes the one after; an error where there is
/// no word left for `flag`.
pub fn next_arg(args: &[String], index: &mut usize, flag: &str) -> (value: Result<String, String>)
    requires
        *old(index) <= args@.len(),
    ensures
        match value {
            Ok(word) => *old(index) < args@.len() && word@ == words(args@)[*old(index) as int]
                && *final(index) == *old(index) + 1,
            Err(message) => *old(index) == args@.len() && message@ == missing_value_text(flag@)
                && *final(index) == *old(index),
        },
{
    if *index < args.len() {
        let word = args[*index].as_str().to_owned();
        *index = *index + 1;
        Ok(word)
    } else {
        let mut message = flag.to_owned();
        message.append(" requires a value\n");
        message.append(usage().as_str());
        Err(message)
    }
}

/// The byte offset that a flag's value stands for.
pub open spec fn offset_value(flag: Seq<char>, value: Seq<char>) -> Result<i32, Seq<char>> {
    match text::parsed_i32(value) {
        Some(n) => if n >= 0 {
            Ok(n)
        } else {
            Err(bad_offset_text(flag, value))
        },
        None => Err(bad_offset_text(flag, value)),
    }
}

fn bad_offset(flag: &str, value: &str) -> (message: String)
    ensures
        message@ == bad_offset_text(flag@, value@),
{
    let mut message = flag.to_owned();
    message.append(" must be a non-negative i32 byte offset: ");
    message.append(value);
    message
}

/// The byte offset that a flag's value stands for: a 32-bit integer, not
/// negative.
pub fn parse_non_negative_i32(flag: &str, value: &str) -> (offset: Result<i32, String>)
    ensures
        match offset {
            Ok(n) => offset_value(flag@, value@) == Ok::<i32, Seq<char>>(n),
            Err(message) => offset_value(flag@, value@) == Err::<i32, Seq<char>>(message@),
        },
{
    match parse_i32(value) {
        Some(n) => {
            if n < 0 {
                Err(bad_offset(flag, value))
            } else {
                Ok(n)
            }
        },
        None => Err(bad_offset(flag, value)),
    }
}

// ---------------------------------------------------------------------------
// The command line
// ---------------------------------------------------------------------------

/// The flags seen so far.
#[verifier::ext_equal]
pub struct Flags {
    pub interactive: bool,
    pub log_text: bool,
    pub text: Option<Seq<char>>,
    pub cursor: Option<i32>,
    pub anchor: Option<i32>,
}

/// No flag at all.
pub open spec fn no_flags() -> Flags {
    Flags { interactive: false, log_text: false, text: None, cursor: None, anchor: None }
}

/// The flags that `args` add to those seen so far, from left to right; of a
/// flag given more than once the last counts. The first word that is no flag,
/// lacks its value or has a bad one gives the error.
pub open spec fn scan(args: Seq<Seq<char>>, flags: Flags) -> Result<Flags, Seq<char>>
    decreases args.len(),
{
    if args.len() == 0 {
        Ok(flags)
    } else if args[0] == "--interactive"@ {
        scan(args.skip(1), Flags { interactive: true, ..flags })
    } else if args[0] == "--log-text"@ {
        scan(args.skip(1), Flags { log_text: true, ..flags })
    } else if args[0] == "--surrounding-text"@ {
        if args.len() == 1 {
            Err(missing_value_text(args[0]))
        } else {
            scan(args.skip(2), Flags { text: Some(args[1]), ..flags })
        }
    } else if args[0] == "--cursor"@ {
        if args.len() == 1 {
            Err(missing_value_text(args[0]))
        } else {
            match offset_value(args[0], args[1]) {
                Ok(n) => scan(args.skip(2), Flags { cursor: Some(n), ..flags }),
                Err(message) => Err(message),
            }
        }
    } else if args[0] == "--anchor"@ {
        if args.len() == 1 {
            Err(missing_value_text(args[0]))
        } else {
            match offset_value(args[0], args[1]) {
                Ok(n) => scan(args.skip(2), Flags { anchor: Some(n), ..flags }),
                Err(message) => Err(message),
            }
        }
    } else if args[0] == "--help"@ || args[0] == "-h"@ {
        Err(usage_text())
    } else {
        Err(unknown_argument_text(args[0]))
    }
}

/// Where the cursor is if no flag says so: at the end of the text, as far as
/// 32 bits go.
pub open spec fn default_cursor(text: Seq<char>) -> i32 {
    if text::byte_len(text) <= i32::MAX {
        text::byte_len(text) as i32
    } else {
        i32::MAX
    }
}

/// What the flags ask for. Offsets make sense only with a text; the anchor is
/// at the cursor unless a flag says otherwise.
pub open spec fn settle(flags: Flags) -> Result<PocArgsView, Seq<char>> {
    match flags.text {
        Some(text) => {
            let cursor = match flags.cursor {
                Some(n) => n,
                None => default_cursor(text),
            };
            let anchor = match flags.anchor {
                Some(n) => n,
                None => cursor,
            };
            Ok(
                PocArgsView {
                    interactive: flags.interactive,
                    log_text: flags.log_text,
                    surrounding_text: Some(SurroundingTextView { text, cursor, anchor }),
                },
            )
        },
        None => if flags.cursor is Some || flags.anchor is Some {
            Err(lone_offset_text())
        } else {
            Ok(
                PocArgsView {
                    interactive: flags.interactive,
                    log_text: flags.log_text,
                    surrounding_text: None,
                },
            )
        },
    }
}

/// What a command line asks for, or the message for one that is wrong.
pub open spec fn parsed(args: Seq<Seq<char>>) -> Result<PocArgsView, Seq<char>> {
    match scan(args, no_flags()) {
        Ok(flags) => settle(flags),
        Err(message) => Err(message),
    }
}

spec fn flags_of(
    parsed: PocArgs,
    text: Option<String>,
    cursor: Option<i32>,
    anchor: Option<i32>,
) -> Flags {
    Flags {
        interactive: parsed.interactive,
        log_text: parsed.log_text,
        text: match text {
            Some(t) => Some(t@),
            None => None,
        },
        cursor,
        anchor,
    }
}

/// The end of the text in bytes, as far as 32 bits go.
fn end_of_text(text: &str) -> (offset: i32)
    ensures
        offset == default_cursor(text@),
{
    let len: usize = text.as_bytes().len();
    if len <= 0x7fff_ffff {
        len as i32
    } else {
        0x7fff_ffff
    }
}

impl PocArgs {
    /// Reads the words of a command line, without the program's name.
    pub fn parse(args: Vec<String>) -> (result: Result<Self, String>)
        ensures
            match result {
                Ok(found) => parsed(words(args@)) == Ok::<PocArgsView, Seq<char>>(found@),
                Err(message) => parsed(words(args@)) == Err::<PocArgsView, Seq<char>>(message@),
            },
    {
        let mut parsed = PocArgs::default();
        let mut surrounding_text: Option<String> = None;
        let mut cursor: Option<i32> = None;
        let mut anchor: Option<i32> = None;
        let mut index: usize = 0;
        let ghost all = words(args@);
        assert(all.skip(0) =~= all);
        while index < args.len()
            invariant
                index <= args@.len(),
                all == words(args@),
                scan(
                    all.skip(index as int),
                    flags_of(parsed, surrounding_text, cursor, anchor),
                ) == scan(all, no_flags()),
                parsed.surrounding_text is None,
            decreases args@.len() - index,
        {
            let ghost rest = all.skip(index as int);
            let arg = args[index].as_str();
            assert(rest[0] == arg@);
            assert(rest.skip(1) =~= all.skip(index + 1));
            assert(rest.len() > 1 ==> rest[1] == all[index + 1] && rest.skip(2) =~= all.skip(
                index + 2,
            ));
            index = index + 1;
            if same_text(arg, "--interactive") {
                parsed.interactive = true;
            } else if same_text(arg, "--log-text") {
                parsed.log_text = true;
            } else if same_text(arg, "--surrounding-text") {
                let value = next_arg(args.as_slice(), &mut index, "--surrounding-text")?;
                surrounding_text = Some(value);
            } else if same_text(arg, "--cursor") {
                let value = next_arg(args.as_slice(), &mut index, "--cursor")?;
                cursor = Some(parse_non_negative_i32("--cursor", value.as_str())?);
            } else if same_text(arg, "--anchor") {
                let value = next_arg(args.as_slice(), &mut index, "--anchor")?;
                anchor = Some(parse_non_negative_i32("--anchor", value.as_str())?);
            } else if same_text(arg, "--help") || same_text(arg, "-h") {
                return Err(usage());
            } else {
                let mut message = "Unknown argument: ".to_owned();
                message.append(arg);
                message.append("\n");
                message.append(usage().as_str());
                return Err(message);
            }
        }
        match surrounding_text {
            Some(text) => {
                let cursor: i32 = match cursor {
                    Some(n) => n,
                    None => end_of_text(text.as_str()),
                };
                let anchor: i32 = match anchor {
                    Some(n) => n,
                    None => cursor,
                };
                parsed.surrounding_text = Some(SurroundingTextArgs { text, cursor, anchor });
            },
            None => {
                if cursor.is_some() || anchor.is_some() {
                    return Err("--cursor/--anchor require --surrounding-text".to_owned());
                }
            },
        }
        Ok(parsed)
    }
}

// ---------------------------------------------------------------------------
// What holds of every command line
// ---------------------------------------------------------------------------

proof fn lemma_scan_offsets(args: Seq<Seq<char>>, flags: Flags)
    requires
        flags.cursor matches Some(n) ==> n >= 0,
        flags.anchor matches Some(n) ==> n >= 0,
    ensures
        scan(args, flags) matches Ok(end) ==> (end.cursor matches Some(n) ==> n >= 0) && (
        end.anchor matches Some(n) ==> n >= 0),
    decreases args.len(),
{
    if args.len() > 0 {
        lemma_scan_offsets(args.skip(1), Flags { interactive: true, ..flags });
        lemma_scan_offsets(args.skip(1), Flags { log_text: true, ..flags });
        if args.len() > 1 {
            lemma_scan_offsets(args.skip(2), Flags { text: Some(args[1]), ..flags });
            if let Ok(n) = offset_value(args[0], args[1]) {
                lemma_scan_offsets(args.skip(2), Flags { cursor: Some(n), ..flags });
                lemma_scan_offsets(args.skip(2), Flags { anchor: Some(n), ..flags });
            }
        }
    }
}

/// No command line gives a negative offset.
pub proof fn offsets_are_not_negative(args: Seq<Seq<char>>)
    ensures
        parsed(args) matches Ok(found) ==> (found.surrounding_text matches Some(s) ==> s.cursor
            >= 0 && s.anchor >= 0),
{
    lemma_scan_offsets(args, no_flags());
}

proof fn lemma_scan_log_text(args: Seq<Seq<char>>, flags: Flags)
    ensures
        scan(args, flags) matches Ok(end) ==> end.log_text ==> flags.log_text || args.contains(
            "--log-text"@,
        ),
    decreases args.len(),
{
    if args.len() > 0 {
        lemma_scan_log_text(args.skip(1), Flags { interactive: true, ..flags });
        lemma_scan_log_text(args.skip(1), Flags { log_text: true, ..flags });
        if args.len() > 1 {
            lemma_scan_log_text(args.skip(2), Flags { text: Some(args[1]), ..flags });
            if let Ok(n) = offset_value(args[0], args[1]) {
                lemma_scan_log_text(args.skip(2), Flags { cursor: Some(n), ..flags });
                lemma_scan_log_text(args.skip(2), Flags { anchor: Some(n), ..flags });
            }
            assert(args.skip(2).contains("--log-text"@) ==> args.contains("--log-text"@)) by {
                if args.skip(2).contains("--log-text"@) {
                    let i = args.skip(2).index_of("--log-text"@);
                    assert(args[i + 2] == "--log-text"@);
                }
            }
        }
        assert(args.skip(1).contains("--log-text"@) ==> args.contains("--log-text"@)) by {
            if args.skip(1).contains("--log-text"@) {
                let i = args.skip(1).index_of("--log-text"@);
                assert(args[i + 1] == "--log-text"@);
            }
        }
    }
}

/// Texts are shown in the log only where the command line says so.
pub proof fn log_text_is_asked_for(args: Seq<Seq<char>>)
    ensures
        parsed(args) matches Ok(found) ==> found.log_text ==> args.contains("--log-text"@),
{
    lemma_scan_log_text(args, no_flags());
}

/// A text given without offsets has the cursor and the anchor at its end.
pub proof fn offsets_default_to_the_end(text: Seq<char>)
    ensures
        parsed(seq!["--surrounding-text"@, text]) == Ok::<PocArgsView, Seq<char>>(
            PocArgsView {
                interactive: false,
                log_text: false,
                surrounding_text: Some(
                    SurroundingTextView {
                        text,
                        cursor: default_cursor(text),
                        anchor: default_cursor(text),
                    },
                ),
            },
        ),
{
    reveal_strlit("--surrounding-text");
    reveal_strlit("--interactive");
    reveal_strlit("--log-text");
    let args = seq!["--surrounding-text"@, text];
    assert("--surrounding-text"@.len() != "--interactive"@.len());
    assert("--surrounding-text"@.len() != "--log-text"@.len());
    assert(scan(args.skip(2), Flags { text: Some(text), ..no_flags() }) == Ok::<Flags, Seq<char>>(
        Flags { text: Some(text), ..no_flags() },
    ));
}

/// Whether a word is one of the flags.
pub open spec fn is_flag(word: Seq<char>) -> bool {
    word == "--interactive"@ || word == "--log-text"@ || word == "--surrounding-text"@ || word
        == "--cursor"@ || word == "--anchor"@ || word == "--help"@ || word == "-h"@
}

proof fn lemma_flags_differ()
    ensures
        "--interactive"@.len() == 13,
        "--log-text"@.len() == 10,
        "--surrounding-text"@.len() == 18,
        "--cursor"@.len() == 8,
        "--anchor"@.len() == 8,
        "--help"@.len() == 6,
        "-h"@.len() == 2,
        "--cursor"@ != "--anchor"@,
{
    reveal_strlit("--interactive");
    reveal_strlit("--log-text");
    reveal_strlit("--surrounding-text");
    reveal_strlit("--cursor");
    reveal_strlit("--anchor");
    reveal_strlit("--help");
    reveal_strlit("-h");
    assert("--cursor"@[2] == 'c' && "--anchor"@[2] == 'a');
}

/// A command line is read word by word: what comes after a part that is in
/// order is read with the flags of that part.
pub proof fn reading_goes_on(a: Seq<Seq<char>>, b: Seq<Seq<char>>, flags: Flags)
    ensures
        scan(a, flags) matches Ok(seen) ==> scan(a + b, flags) == scan(b, seen),
        scan(Seq::empty(), flags) == Ok::<Flags, Seq<char>>(flags),
    decreases a.len(),
{
    if a.len() == 0 {
        assert(a + b =~= b);
    } else {
        assert((a + b)[0] == a[0]);
        assert((a + b).skip(1) =~= a.skip(1) + b);
        reading_goes_on(a.skip(1), b, Flags { interactive: true, ..flags });
        reading_goes_on(a.skip(1), b, Flags { log_text: true, ..flags });
        if a.len() > 1 {
            assert((a + b)[1] == a[1]);
            assert((a + b).skip(2) =~= a.skip(2) + b);
            reading_goes_on(a.skip(2), b, Flags { text: Some(a[1]), ..flags });
            if let Ok(n) = offset_value(a[0], a[1]) {
                reading_goes_on(a.skip(2), b, Flags { cursor: Some(n), ..flags });
                reading_goes_on(a.skip(2), b, Flags { anchor: Some(n), ..flags });
            }
        }
    }
}

/// A flag without a value changes what it is for and nothing else.
pub proof fn plain_flags_are_set(flags: Flags)
    ensures
        scan(seq!["--interactive"@], flags) == Ok::<Flags, Seq<char>>(
            Flags { interactive: true, ..flags },
        ),
        scan(seq!["--log-text"@], flags) == Ok::<Flags, Seq<char>>(
            Flags { log_text: true, ..flags },
        ),
{
    lemma_flags_differ();
    reveal_with_fuel(scan, 2);
}

/// A flag with a value changes what it is for and nothing else; one with a bad
/// value is turned down, and so is one that comes last.
pub proof fn flags_take_their_values(flags: Flags, value: Seq<char>)
    ensures
        scan(seq!["--surrounding-text"@, value], flags) == Ok::<Flags, Seq<char>>(
            Flags { text: Some(value), ..flags },
        ),
        scan(seq!["--cursor"@, value], flags) == (match offset_value("--cursor"@, value) {
            Ok(n) => Ok::<Flags, Seq<char>>(Flags { cursor: Some(n), ..flags }),
            Err(message) => Err(message),
        }),
        scan(seq!["--anchor"@, value], flags) == (match offset_value("--anchor"@, value) {
            Ok(n) => Ok::<Flags, Seq<char>>(Flags { anchor: Some(n), ..flags }),
            Err(message) => Err(message),
        }),
        scan(seq!["--surrounding-text"@], flags) == Err::<Flags, Seq<char>>(
            missing_value_text("--surrounding-text"@),
        ),
        scan(seq!["--cursor"@], flags) == Err::<Flags, Seq<char>>(missing_value_text("--cursor"@)),
        scan(seq!["--anchor"@], flags) == Err::<Flags, Seq<char>>(missing_value_text("--anchor"@)),
{
    lemma_flags_differ();
    reveal_with_fuel(scan, 2);
    assert(seq!["--surrounding-text"@, value].skip(2) =~= Seq::empty());
    assert(seq!["--cursor"@, value].skip(2) =~= Seq::empty());
    assert(seq!["--anchor"@, value].skip(2) =~= Seq::empty());
}

/// A call for help is answered with the usage, whatever follows; a word that is
/// no flag is turned down by itself, whatever follows.
pub proof fn other_words_end_the_reading(flags: Flags, word: Seq<char>, rest: Seq<Seq<char>>)
    ensures
        scan(seq!["--help"@] + rest, flags) == Err::<Flags, Seq<char>>(usage_text()),
        scan(seq!["-h"@] + rest, flags) == Err::<Flags, Seq<char>>(usage_text()),
        !is_flag(word) ==> scan(seq![word] + rest, flags) == Err::<Flags, Seq<char>>(
            "Unknown argument: "@ + word + "\n"@ + usage_text(),
        ),
{
    lemma_flags_differ();
    assert((seq!["--help"@] + rest)[0] == "--help"@);
    assert((seq!["-h"@] + rest)[0] == "-h"@);
    assert((seq![word] + rest)[0] == word);
}

/// A bad value ends the reading, whatever follows.
pub proof fn bad_values_end_the_reading(flags: Flags, value: Seq<char>, rest: Seq<Seq<char>>)
    ensures
        offset_value("--cursor"@, value) matches Err(message) ==> scan(
            seq!["--cursor"@, value] + rest,
            flags,
        ) == Err::<Flags, Seq<char>>(message),
        offset_value("--anchor"@, value) matches Err(message) ==> scan(
            seq!["--anchor"@, value] + rest,
            flags,
        ) == Err::<Flags, Seq<char>>(message),
{
    lemma_flags_differ();
    assert((seq!["--cursor"@, value] + rest)[0] == "--cursor"@);
    assert((seq!["--cursor"@, value] + rest)[1] == value);
    assert((seq!["--anchor"@, value] + rest)[0] == "--anchor"@);
    assert((seq!["--anchor"@, value] + rest)[1] == value);
}

/// An offset is read off a row of figures, with at most a sign in front, where
/// it goes into 32 bits and is not negative. Any other value is turned down by
/// the flag and the value.
pub proof fn offsets_are_read_or_turned_down(
    flag: &str,
    value: &str,
    offset: Result<i32, String>,
)
    requires
        call_ensures(parse_non_negative_i32, (flag, value), offset),
    ensures
        offset is Ok <==> (text::parsed_int(value@) matches Some(v) && 0 <= v <= 0x7fff_ffff),
        offset matches Ok(n) ==> text::parsed_int(value@) == Some(n as int),
        offset matches Err(message) ==> message@ == flag@
            + " must be a non-negative i32 byte offset: "@ + value@,
{
    text::texts_are_read_as_numbers(value@);
}

/// Writing an offset in decimal gives a value that is read as that offset.
pub proof fn written_offsets_are_read(flag: Seq<char>, n: i32)
    requires
        n >= 0,
    ensures
        offset_value(flag, text::decimal(n as int)) == Ok::<i32, Seq<char>>(n),
{
    text::decimal_reads_back(n);
}

/// What the flags ask for is what was given. Offsets that were not given are
/// the end of the text, for the cursor, and the cursor, for the anchor. Offsets
/// without a text are turned down, and nothing else is.
pub proof fn flags_are_settled_as_given(flags: Flags)
    ensures
        settle(flags) is Err <==> flags.text is None && (flags.cursor is Some || flags.anchor is Some),
        settle(flags) matches Err(message) ==> message
            == "--cursor/--anchor require --surrounding-text"@,
        settle(flags) matches Ok(found) ==> {
            &&& found.interactive == flags.interactive
            &&& found.log_text == flags.log_text
            &&& found.surrounding_text is Some <==> flags.text is Some
            &&& found.surrounding_text matches Some(s) ==> {
                &&& flags.text == Some(s.text)
                &&& flags.cursor matches Some(n) ==> s.cursor == n
                &&& flags.cursor is None && text::byte_len(s.text) <= 0x7fff_ffff ==> s.cursor
                    == text::byte_len(s.text)
                &&& flags.cursor is None && text::byte_len(s.text) > 0x7fff_ffff ==> s.cursor
                    == 0x7fff_ffff
                &&& flags.anchor matches Some(n) ==> s.anchor == n
                &&& flags.anchor is None ==> s.anchor == s.cursor
            }
        },
{
}

/// A command line that gives a text and both offsets, in any of the two orders,
/// asks for just these.
pub proof fn given_offsets_are_taken(text: Seq<char>, cursor: i32, anchor: i32)
    requires
        cursor >= 0,
        anchor >= 0,
    ensures
        ({
            let asked = Ok::<PocArgsView, Seq<char>>(
                PocArgsView {
                    interactive: false,
                    log_text: false,
                    surrounding_text: Some(SurroundingTextView { text, cursor, anchor }),
                },
            );
            let c = text::decimal(cursor as int);
            let a = text::decimal(anchor as int);
            &&& parsed(
                seq!["--surrounding-text"@, text] + (seq!["--cursor"@, c] + seq!["--anchor"@, a]),
            ) == asked
            &&& parsed(
                seq!["--anchor"@, a] + (seq!["--cursor"@, c] + seq!["--surrounding-text"@, text]),
            ) == asked
        }),
{
    let c = text::decimal(cursor as int);
    let a = text::decimal(anchor as int);
    let t = seq!["--surrounding-text"@, text];
    let k = seq!["--cursor"@, c];
    let n = seq!["--anchor"@, a];
    written_offsets_are_read("--cursor"@, cursor);
    written_offsets_are_read("--anchor"@, anchor);
    let f0 = no_flags();
    let f1 = Flags { text: Some(text), ..f0 };
    let f2 = Flags { cursor: Some(cursor), ..f1 };
    flags_take_their_values(f0, text);
    flags_take_their_values(f1, c);
    flags_take_their_values(f2, a);
    reading_goes_on(t, k + n, f0);
    reading_goes_on(k, n, f1);
    let g1 = Flags { anchor: Some(anchor), ..f0 };
    let g2 = Flags { cursor: Some(cursor), ..g1 };
    flags_take_their_values(f0, a);
    flags_take_their_values(g1, c);
    flags_take_their_values(g2, text);
    reading_goes_on(n, k + t, f0);
    reading_goes_on(k, t, g1);
}

/// What the program is asked to do is what the words of the command line say:
/// each word is read as it was given, and each thing asked for is found in its
/// own place.
pub proof fn arguments_are_what_the_words_say(
    args: Vec<String>,
    flags: Flags,
    result: Result<PocArgs, String>,
    i: int,
)
    requires
        call_ensures(PocArgs::parse, (args,), result),
        scan(words(args@), no_flags()) == Ok::<Flags, Seq<char>>(flags),
    ensures
        words(args@).len() == args@.len(),
        0 <= i < args@.len() ==> words(args@)[i] == args@[i]@,
        result is Err <==> flags.text is None && (flags.cursor is Some || flags.anchor is Some),
        result matches Ok(found) ==> {
            &&& found.interactive == flags.interactive
            &&& found.log_text == flags.log_text
            &&& found.surrounding_text is Some <==> flags.text is Some
            &&& found.surrounding_text matches Some(s) ==> {
                &&& flags.text == Some(s.text@)
                &&& flags.cursor matches Some(n) ==> s.cursor == n
                &&& flags.anchor matches Some(n) ==> s.anchor == n
                &&& flags.anchor is None ==> s.anchor == s.cursor
            }
        },
{
    flags_are_settled_as_given(flags);
}

/// A command line that goes wrong is answered with what went wrong first.
pub proof fn wrong_words_are_answered(
    args: Vec<String>,
    message: Seq<char>,
    result: Result<PocArgs, String>,
)
    requires
        call_ensures(PocArgs::parse, (args,), result),
        scan(words(args@), no_flags()) == Err::<Flags, Seq<char>>(message),
    ensures
        result matches Err(answer) && answer@ == message,
{
}

} // verus!
