//! Building and reading text: numbers in words, comparison, quoting.

use vstd::prelude::*;
use vstd::utf8::*;
#[allow(unused_imports)]
use vstd::string::*;

verus! {

/// `String::push` appends one character at the end.
pub assume_specification[ String::push ](s: &mut String, c: char)
    ensures
        final(s)@ == old(s)@.push(c),
;

/// What the standard library's `Debug` writes for a text: the text in double
/// quotes, with its special characters escaped.
pub uninterp spec fn quoted(text: Seq<char>) -> Seq<char>;

/// What the standard library's `Debug` writes for a character: the character
/// in single quotes, escaped where it is special.
pub uninterp spec fn quoted_char(c: char) -> Seq<char>;

/// The standard library's `Debug` formatting of a `str`. Which characters it
/// escapes follows Unicode tables; of the result it is claimed only that the
/// same text always gives the same one.
#[verifier::external_body]
pub(crate) fn quote(text: &str) -> (out: String)
    ensures
        out@ == quoted(text@),
{
    format!("{text:?}")
}

/// The standard library's `Debug` formatting of a `char`. As for [`quote`],
/// only that the result is determined by the character is claimed.
#[verifier::external_body]
pub(crate) fn quote_char(c: char) -> (out: String)
    ensures
        out@ == quoted_char(c),
{
    format!("{c:?}")
}

// ---------------------------------------------------------------------------
// Writing numbers
// ---------------------------------------------------------------------------

/// The digit that stands for `d` in any base up to sixteen.
pub open spec fn digit_char(d: int) -> char {
    if d < 10 {
        ('0' as int + d) as char
    } else {
        ('a' as int + d - 10) as char
    }
}

/// The digits of `n` in `base`, most significant first, without leading zeros.
pub open spec fn digits(n: nat, base: nat) -> Seq<char>
    decreases n,
{
    if base < 2 || n < base {
        seq![digit_char(n as int)]
    } else {
        proof {
            assert(n / base < n) by (nonlinear_arith)
                requires
                    n >= base,
                    base >= 2,
            ;
        }
        digits(n / base, base).push(digit_char((n % base) as int))
    }
}

/// `n` in decimal, with a minus sign in front where it is negative.
pub open spec fn decimal(n: int) -> Seq<char> {
    if n < 0 {
        seq!['-'] + digits((-n) as nat, 10)
    } else {
        digits(n as nat, 10)
    }
}

/// `n` in lower-case hexadecimal.
pub open spec fn hex(n: nat) -> Seq<char> {
    digits(n, 16)
}

/// `count` zeros.
pub open spec fn zeros(count: nat) -> Seq<char> {
    Seq::new(count, |i: int| '0')
}

/// `n` in lower-case hexadecimal, filled up with zeros to at least `width` digits.
pub open spec fn hex_padded(n: nat, width: nat) -> Seq<char> {
    let h = hex(n);
    if h.len() < width {
        zeros((width - h.len()) as nat) + h
    } else {
        h
    }
}

/// The character for the digit `d`.
fn digit(d: u64) -> (c: char)
    requires
        d < 16,
    ensures
        c == digit_char(d as int),
{
    if d < 10 {
        (48u8 + d as u8) as char
    } else {
        (87u8 + d as u8) as char
    }
}

/// Appends the digits of `n` in `base`.
fn push_digits(out: &mut String, n: u64, base: u64)
    requires
        2 <= base <= 16,
    ensures
        final(out)@ == old(out)@ + digits(n as nat, base as nat),
    decreases n,
{
    assert(n >= base ==> n / base < n) by (nonlinear_arith)
        requires
            base >= 2,
    ;
    if n >= base {
        push_digits(out, n / base, base);
    }
    let last: u64 = n % base;
    assert(last < base && (n < base ==> last == n)) by (nonlinear_arith)
        requires
            base >= 2,
            last == n % base,
    ;
    out.push(digit(last));
    assert(out@ =~= old(out)@ + digits(n as nat, base as nat));
}

/// Appends `n` in decimal.
pub(crate) fn push_decimal(out: &mut String, n: i32)
    ensures
        final(out)@ == old(out)@ + decimal(n as int),
{
    let wide: i64 = n as i64;
    if wide < 0 {
        out.push('-');
        push_digits(out, (-wide) as u64, 10);
        assert(out@ =~= old(out)@ + decimal(n as int));
    } else {
        push_digits(out, wide as u64, 10);
    }
}

/// Appends `n` in decimal.
pub(crate) fn push_count(out: &mut String, n: usize)
    ensures
        final(out)@ == old(out)@ + decimal(n as int),
{
    push_digits(out, n as u64, 10);
}

/// Appends `n` in hexadecimal.
pub(crate) fn push_hex(out: &mut String, n: u32)
    ensures
        final(out)@ == old(out)@ + hex(n as nat),
{
    push_digits(out, n as u64, 16);
}

/// Appends `n` in hexadecimal with at least `width` digits.
pub(crate) fn push_hex_padded(out: &mut String, n: u32, width: usize)
    ensures
        final(out)@ == old(out)@ + hex_padded(n as nat, width as nat),
{
    let mut shown = String::new();
    push_hex(&mut shown, n);
    let len: usize = shown.as_str().unicode_len();
    assert(shown@ =~= hex(n as nat));
    let mut filled: usize = len;
    while filled < width
        invariant
            len <= filled,
            len >= width ==> filled == len,
            len < width ==> filled <= width,
            out@ =~= old(out)@ + zeros((filled - len) as nat),
        decreases width - filled,
    {
        out.push('0');
        filled = filled + 1;
    }
    out.append(shown.as_str());
    assert(out@ =~= old(out)@ + hex_padded(n as nat, width as nat));
}

// ---------------------------------------------------------------------------
// Reading numbers
// ---------------------------------------------------------------------------

/// A decimal digit.
pub open spec fn is_digit(c: char) -> bool {
    '0' <= c <= '9'
}

/// A text of decimal digits, at least one.
pub open spec fn all_digits(s: Seq<char>) -> bool {
    s.len() > 0 && forall|i: int| 0 <= i < s.len() ==> is_digit(#[trigger] s[i])
}

/// The number that a text of decimal digits stands for.
pub open spec fn digits_value(s: Seq<char>) -> nat
    decreases s.len(),
{
    if s.len() == 0 {
        0
    } else {
        (digits_value(s.drop_last()) * 10 + (s.last() as int - '0' as int)) as nat
    }
}

/// A plus or a minus in front of a number.
pub open spec fn has_sign(s: Seq<char>) -> bool {
    s.len() > 0 && (s[0] == '+' || s[0] == '-')
}

/// The integer that `s` stands for: digits, with at most one sign in front.
pub open spec fn parsed_int(s: Seq<char>) -> Option<int> {
    let body = if has_sign(s) {
        s.skip(1)
    } else {
        s
    };
    if !all_digits(body) {
        None
    } else if s[0] == '-' {
        Some(-(digits_value(body) as int))
    } else {
        Some(digits_value(body) as int)
    }
}

/// The 32-bit integer that `s` stands for; none where it would not fit.
pub open spec fn parsed_i32(s: Seq<char>) -> Option<i32> {
    match parsed_int(s) {
        Some(v) => if i32::MIN <= v <= i32::MAX {
            Some(v as i32)
        } else {
            None
        },
        None => None,
    }
}

/// `n`, but no more than `cap`.
spec fn capped(n: nat, cap: nat) -> nat {
    if n < cap {
        n
    } else {
        cap
    }
}

/// Reads a 32-bit integer in decimal.
pub(crate) fn parse_i32(text: &str) -> (value: Option<i32>)
    ensures
        value == parsed_i32(text@),
{
    // Magnitudes from here on are out of range whatever follows.
    let cap: u64 = 0x1_0000_0000;
    let mut at_start: bool = true;
    let mut negative: bool = false;
    let mut seen: bool = false;
    let mut magnitude: u64 = 0;
    let ghost s = text@;
    let ghost off: int = if has_sign(s) {
        1
    } else {
        0
    };
    for c in it: text.chars()
        invariant
            it.seq() == s,
            s == text@,
            cap == 0x1_0000_0000,
            off == (if has_sign(s) {
                1int
            } else {
                0int
            }),
            at_start == (it.index() == 0),
            it.index() > 0 ==> negative == (s[0] == '-'),
            it.index() == 0 ==> !negative && !seen && magnitude == 0,
            it.index() > 0 ==> off <= it.index() && seen == (it.index() > off),
            forall|i: int| off <= i < it.index() ==> is_digit(#[trigger] s[i]),
            it.index() > 0 ==> magnitude == capped(
                digits_value(s.subrange(off, it.index() as int)),
                cap as nat,
            ),
            magnitude <= cap,
    {
        let ghost k = it.index() as int;
        assert(c == s[k]);
        if at_start && (c == '-' || c == '+') {
            negative = c == '-';
            assert(s.subrange(1, 1) =~= Seq::empty());
        } else if '0' <= c && c <= '9' {
            let d: u64 = (c as u32 - 48) as u64;
            let next: u64 = magnitude * 10 + d;
            magnitude = if next < cap { next } else { cap };
            seen = true;
            proof {
                let read = s.subrange(off, k);
                let more = s.subrange(off, k + 1);
                assert(more.drop_last() =~= read);
                assert(more.last() == c);
                assert(k == 0 ==> read =~= Seq::empty());
                assert(digits_value(more) == digits_value(read) * 10 + d);
            }
        } else {
            assert(!all_digits(if has_sign(s) { s.skip(1) } else { s })) by {
                if has_sign(s) {
                    assert(s.skip(1)[k - 1] == s[k]);
                }
            }
            return None;
        }
        at_start = false;
    }
    let ghost body = if has_sign(s) {
        s.skip(1)
    } else {
        s
    };
    assert(s.subrange(off, s.len() as int) =~= body);
    if !seen {
        return None;
    }
    assert(all_digits(body)) by {
        assert forall|i: int| 0 <= i < body.len() implies is_digit(#[trigger] body[i]) by {
            assert(body[i] == s[i + off]);
        }
    }
    if negative {
        if magnitude <= 0x8000_0000 {
            Some((-(magnitude as i64)) as i32)
        } else {
            None
        }
    } else if magnitude <= 0x7fff_ffff {
        Some(magnitude as i32)
    } else {
        None
    }
}

proof fn lemma_digits_read_back(n: nat)
    ensures
        all_digits(digits(n, 10)),
        digits_value(digits(n, 10)) == n,
    decreases n,
{
    let s = digits(n, 10);
    if n < 10 {
        assert(s.drop_last() =~= Seq::empty());
        assert(digits_value(s.drop_last()) == 0);
    } else {
        lemma_digits_read_back(n / 10);
        assert(s.drop_last() =~= digits(n / 10, 10));
        assert forall|i: int| 0 <= i < s.len() implies is_digit(#[trigger] s[i]) by {
            if i < s.len() - 1 {
                assert(s[i] == digits(n / 10, 10)[i]);
            }
        }
    }
}

/// Writing a 32-bit integer in decimal and reading it gives it back.
pub proof fn decimal_reads_back(n: i32)
    ensures
        parsed_i32(decimal(n as int)) == Some(n),
{
    let s = decimal(n as int);
    if n < 0 {
        lemma_digits_read_back((-n) as nat);
        assert(s.skip(1) =~= digits((-n) as nat, 10));
    } else {
        lemma_digits_read_back(n as nat);
        assert(is_digit(s[0]));
    }
}

/// What a digit counts: the ten figures, then the letters from `a` on.
pub open spec fn figure(c: char) -> int {
    if '0' <= c <= '9' {
        c as int - 48
    } else {
        c as int - 87
    }
}

/// Whether `c` is a figure or a lower-case letter that counts less than `base`.
pub open spec fn is_figure(c: char, base: int) -> bool {
    ('0' <= c <= '9' || 'a' <= c <= 'f') && 0 <= figure(c) < base
}

/// The number that a row of digits stands for in `base`.
pub open spec fn row_value(s: Seq<char>, base: int) -> int
    decreases s.len(),
{
    if s.len() == 0 {
        0
    } else {
        row_value(s.drop_last(), base) * base + figure(s.last())
    }
}

/// The digits of a number stand for that number: they are digits of the base,
/// and there is no zero in front but for zero itself.
pub proof fn digits_stand_for_the_number(n: nat, base: nat)
    requires
        2 <= base <= 16,
    ensures
        digits(n, base).len() > 0,
        row_value(digits(n, base), base as int) == n,
        forall|i: int|
            0 <= i < digits(n, base).len() ==> is_figure(
                #[trigger] digits(n, base)[i],
                base as int,
            ),
        n > 0 ==> digits(n, base)[0] != '0',
        n == 0 ==> digits(n, base) == seq!['0'],
    decreases n,
{
    let s = digits(n, base);
    if n < base {
        assert(s.drop_last() =~= Seq::empty());
        assert(row_value(s.drop_last(), base as int) == 0);
        assert(0 * (base as int) == 0);
    } else {
        assert(n / base < n) by (nonlinear_arith)
            requires
                n >= base,
                base >= 2,
        ;
        assert(n / base > 0) by (nonlinear_arith)
            requires
                n >= base,
                base >= 2,
        ;
        assert(n == (n / base) * base + n % base && n % base < base) by (nonlinear_arith)
            requires
                base >= 2,
        ;
        digits_stand_for_the_number(n / base, base);
        let front = digits(n / base, base);
        assert(s.drop_last() =~= front);
        assert(s[0] == front[0]);
        assert forall|i: int| 0 <= i < s.len() implies is_figure(
            #[trigger] s[i],
            base as int,
        ) by {
            if i < s.len() - 1 {
                assert(s[i] == front[i]);
            }
        }
    }
}

/// Filling a hexadecimal number up with zeros changes neither its value nor
/// its digits, and makes it as wide as asked for, or leaves it if it is wider.
pub proof fn padding_keeps_the_number(n: nat, width: nat)
    ensures
        row_value(hex_padded(n, width), 16) == n,
        hex_padded(n, width).len() == (if hex(n).len() < width {
            width
        } else {
            hex(n).len()
        }),
        hex_padded(n, width).skip(hex_padded(n, width).len() - hex(n).len()) == hex(n),
{
    digits_stand_for_the_number(n, 16);
    if hex(n).len() < width {
        let fill = zeros((width - hex(n).len()) as nat);
        lemma_zeros_count_nothing(fill, hex(n));
        assert(hex_padded(n, width).skip(fill.len() as int) =~= hex(n));
    } else {
        assert(hex_padded(n, width).skip(0) =~= hex(n));
    }
}

proof fn lemma_zeros_count_nothing(fill: Seq<char>, s: Seq<char>)
    requires
        forall|i: int| 0 <= i < fill.len() ==> #[trigger] fill[i] == '0',
    ensures
        row_value(fill + s, 16) == row_value(s, 16),
    decreases s.len(), fill.len(),
{
    if s.len() > 0 {
        lemma_zeros_count_nothing(fill, s.drop_last());
        assert((fill + s).drop_last() =~= fill + s.drop_last());
        assert((fill + s).last() == s.last());
    } else if fill.len() > 0 {
        lemma_zeros_count_nothing(fill.drop_last(), s);
        assert((fill + s).drop_last() =~= fill.drop_last() + s);
        assert((fill + s).last() == '0');
    } else {
        assert(fill + s =~= s);
    }
}

/// Two numbers that are written alike are the same.
pub proof fn numbers_are_written_apart(a: int, b: int)
    ensures
        decimal(a) == decimal(b) ==> a == b,
        a >= 0 && b >= 0 && hex(a as nat) == hex(b as nat) ==> a == b,
{
    digits_stand_for_the_number((if a < 0 { -a } else { a }) as nat, 10);
    digits_stand_for_the_number((if b < 0 { -b } else { b }) as nat, 10);
    assert(decimal(a).len() > 0);
    if decimal(a) == decimal(b) {
        if a < 0 {
            assert(decimal(a)[0] == '-');
            assert(decimal(a).skip(1) =~= digits((-a) as nat, 10));
            if b >= 0 {
                assert(is_figure(decimal(b)[0], 10));
            } else {
                assert(decimal(b).skip(1) =~= digits((-b) as nat, 10));
            }
        } else if b < 0 {
            assert(decimal(b)[0] == '-');
            assert(is_figure(decimal(a)[0], 10));
        }
    }
    if a >= 0 && b >= 0 {
        digits_stand_for_the_number(a as nat, 16);
        digits_stand_for_the_number(b as nat, 16);
    }
}

/// Whether a text is made of figures alone, at least one.
pub open spec fn is_row(s: Seq<char>) -> bool {
    s.len() > 0 && forall|i: int| 0 <= i < s.len() ==> '0' <= #[trigger] s[i] <= '9'
}

proof fn lemma_digits_value_is_row_value(s: Seq<char>)
    requires
        forall|i: int| 0 <= i < s.len() ==> is_digit(#[trigger] s[i]),
    ensures
        digits_value(s) == row_value(s, 10),
        row_value(s, 10) >= 0,
    decreases s.len(),
{
    if s.len() > 0 {
        assert(is_digit(s[s.len() - 1]));
        assert forall|i: int| 0 <= i < s.drop_last().len() implies is_digit(
            #[trigger] s.drop_last()[i],
        ) by {
            assert(is_digit(s[i]));
        }
        lemma_digits_value_is_row_value(s.drop_last());
    }
}

/// A row of figures is read as the number it stands for, one sign in front
/// counts, and any other text is no number. What does not go into 32 bits is
/// no number either.
pub proof fn texts_are_read_as_numbers(s: Seq<char>)
    ensures
        is_row(s) ==> parsed_int(s) == Some(row_value(s, 10)),
        is_row(s) ==> parsed_int(seq!['+'] + s) == Some(row_value(s, 10)),
        is_row(s) ==> parsed_int(seq!['-'] + s) == Some(-row_value(s, 10)),
        parsed_int(s) is Some ==> is_row(s) || (s.len() > 1 && (s[0] == '+' || s[0] == '-')
            && is_row(s.skip(1))),
        parsed_i32(s) is Some <==> (parsed_int(s) matches Some(v) && -0x8000_0000 <= v
            <= 0x7fff_ffff),
        parsed_i32(s) matches Some(v) ==> parsed_int(s) == Some(v as int),
{
    if is_row(s) {
        assert(forall|i: int| 0 <= i < s.len() ==> is_digit(#[trigger] s[i]));
        lemma_digits_value_is_row_value(s);
        assert(is_digit(s[0]));
        assert((seq!['+'] + s).skip(1) =~= s);
        assert((seq!['-'] + s).skip(1) =~= s);
        assert(all_digits(s));
    }
    if parsed_int(s) is Some {
        let body = if has_sign(s) {
            s.skip(1)
        } else {
            s
        };
        assert(all_digits(body));
        assert forall|i: int| 0 <= i < body.len() implies '0' <= #[trigger] body[i] <= '9' by {
            assert(is_digit(body[i]));
        }
    }
}

// ---------------------------------------------------------------------------
// Texts and characters
// ---------------------------------------------------------------------------

/// The number of bytes that `text` takes up in UTF-8.
pub open spec fn byte_len(text: Seq<char>) -> nat {
    encode_utf8(text).len()
}

/// The number of bytes that one character takes up in UTF-8.
pub open spec fn char_byte_len(c: char) -> nat {
    if c as u32 <= 0x7f {
        1
    } else if c as u32 <= 0x7ff {
        2
    } else if c as u32 <= 0xffff {
        3
    } else {
        4
    }
}

/// A text of one character takes up as many bytes as the character.
pub proof fn single_char_byte_len(c: char)
    ensures
        byte_len(seq![c]) == char_byte_len(c),
{
    broadcast use char_is_scalar;

    assert(seq![c].drop_first() =~= Seq::<char>::empty());
    assert(encode_utf8(seq![c].drop_first()) =~= Seq::<u8>::empty());
    assert(is_scalar(c as u32));
}

/// A text takes up as many bytes as its parts together, and none where it is
/// empty.
pub proof fn byte_lengths_sum_up(a: Seq<char>, b: Seq<char>)
    ensures
        byte_len(a + b) == byte_len(a) + byte_len(b),
        byte_len(Seq::empty()) == 0,
    decreases a.len(),
{
    if a.len() == 0 {
        assert(a + b =~= b);
    } else {
        byte_lengths_sum_up(a.drop_first(), b);
        assert((a + b).drop_first() =~= a.drop_first() + b);
        assert((a + b)[0] == a[0]);
    }
}

/// A character takes up as many bytes as the range it is in says.
pub proof fn byte_length_follows_the_range(c: char)
    ensures
        (c as u32) < 0x80 <==> char_byte_len(c) == 1,
        0x80 <= (c as u32) < 0x800 <==> char_byte_len(c) == 2,
        0x800 <= (c as u32) < 0x1_0000 <==> char_byte_len(c) == 3,
        0x1_0000 <= (c as u32) <==> char_byte_len(c) == 4,
{
}

/// The number of bytes that `c` takes up in UTF-8.
pub(crate) fn char_len(c: char) -> (len: usize)
    ensures
        len == char_byte_len(c),
{
    let code: u32 = c as u32;
    if code <= 0x7f {
        1
    } else if code <= 0x7ff {
        2
    } else if code <= 0xffff {
        3
    } else {
        4
    }
}

/// Whether two texts are equal.
pub(crate) fn same_text(a: &str, b: &str) -> (same: bool)
    ensures
        same == (a@ == b@),
{
    let x: &[u8] = a.as_bytes();
    let y: &[u8] = b.as_bytes();
    proof {
        encode_utf8_decode_utf8(a@);
        encode_utf8_decode_utf8(b@);
    }
    if x.len() != y.len() {
        return false;
    }
    let mut i: usize = 0;
    while i < x.len()
        invariant
            i <= x.len(),
            x.len() == y.len(),
            x@ == encode_utf8(a@),
            y@ == encode_utf8(b@),
            forall|j: int| 0 <= j < i ==> x@[j] == y@[j],
        decreases x.len() - i,
    {
        if x[i] != y[i] {
            return false;
        }
        i = i + 1;
    }
    assert(x@ =~= y@);
    true
}

// ---------------------------------------------------------------------------
// Summaries
// ---------------------------------------------------------------------------

/// A text told by its size alone: bytes and characters.
pub open spec fn size_summary(title: Seq<char>, text: Seq<char>) -> Seq<char> {
    title + " byte_len="@ + decimal(byte_len(text) as int) + " char_count="@ + decimal(
        text.len() as int,
    )
}

/// A text told by its size alone: bytes and characters.
pub(crate) fn summarize_size(title: &str, text: &str) -> (out: String)
    ensures
        out@ == size_summary(title@, text@),
{
    let mut out = title.to_owned();
    out.append(" byte_len=");
    push_count(&mut out, text.as_bytes().len());
    out.append(" char_count=");
    push_count(&mut out, text.unicode_len());
    out
}

/// Whether a text can be part of a number: figures, letters up to `f`, a minus.
pub open spec fn is_numeral(s: Seq<char>) -> bool {
    forall|i: int|
        0 <= i < s.len() ==> ('0' <= #[trigger] s[i] <= '9' || 'a' <= s[i] <= 'f' || s[i] == '-')
}

/// Numbers are written in figures, letters up to `f` and a minus alone.
pub proof fn numbers_are_numerals(n: int)
    ensures
        is_numeral(decimal(n)),
        n >= 0 ==> is_numeral(hex(n as nat)),
{
    let size = (if n < 0 { -n } else { n }) as nat;
    digits_stand_for_the_number(size, 10);
    digits_stand_for_the_number(size, 16);
    assert forall|i: int| 0 <= i < decimal(n).len() implies ('0' <= #[trigger] decimal(n)[i] <= '9'
        || 'a' <= decimal(n)[i] <= 'f' || decimal(n)[i] == '-') by {
        if n < 0 {
            if i > 0 {
                assert(is_figure(digits(size, 10)[i - 1], 10));
            }
        } else {
            assert(is_figure(digits(size, 10)[i], 10));
        }
    }
    if n >= 0 {
        assert forall|i: int| 0 <= i < hex(n as nat).len() implies ('0' <= #[trigger] hex(
            n as nat,
        )[i] <= '9' || 'a' <= hex(n as nat)[i] <= 'f' || hex(n as nat)[i] == '-') by {
            assert(is_figure(digits(size, 16)[i], 16));
        }
    }
}

/// A number ends where something begins that no number holds: two texts that
/// start alike, go on with a number each and then alike, are alike in the
/// number and in what follows.
pub proof fn number_ends_are_plain(
    head: Seq<char>,
    a: Seq<char>,
    b: Seq<char>,
    stop: Seq<char>,
    rest_a: Seq<char>,
    rest_b: Seq<char>,
)
    requires
        is_numeral(a),
        is_numeral(b),
        stop.len() > 0,
        !is_numeral(seq![stop[0]]),
        head + a + stop + rest_a == head + b + stop + rest_b,
    ensures
        a == b,
        rest_a == rest_b,
{
    let x = head + a + stop + rest_a;
    let y = head + b + stop + rest_b;
    let n = head.len() as int;
    assert(!is_numeral(seq![stop[0]]) ==> !('0' <= stop[0] <= '9' || 'a' <= stop[0] <= 'f'
        || stop[0] == '-')) by {
        if '0' <= stop[0] <= '9' || 'a' <= stop[0] <= 'f' || stop[0] == '-' {
            assert(is_numeral(seq![stop[0]]));
        }
    }
    if a.len() < b.len() {
        assert(x[n + a.len()] == stop[0]);
        assert(y[n + a.len()] == b[a.len() as int]);
    } else if b.len() < a.len() {
        assert(y[n + b.len()] == stop[0]);
        assert(x[n + b.len()] == a[b.len() as int]);
    }
    assert forall|i: int| 0 <= i < a.len() implies #[trigger] a[i] == b[i] by {
        assert(x[n + i] == a[i]);
        assert(y[n + i] == b[i]);
    }
    assert(a =~= b);
    assert(rest_a =~= x.skip(n + a.len() + stop.len()));
    assert(rest_b =~= y.skip(n + a.len() + stop.len()));
}

/// Two texts have the same summary under one title just where they have the
/// same size, in bytes and in characters.
pub proof fn summaries_tell_sizes(title: Seq<char>, a: Seq<char>, b: Seq<char>)
    ensures
        size_summary(title, a) == size_summary(title, b) <==> byte_len(a) == byte_len(b) && a.len()
            == b.len(),
        size_summary(title, a).take(title.len() as int) == title,
{
    assert(size_summary(title, a).take(title.len() as int) =~= title);
    if size_summary(title, a) == size_summary(title, b) {
        reveal_strlit(" char_count=");
        assert(!is_numeral(seq![' '])) by {
            assert(seq![' '][0] == ' ');
        }
        numbers_are_numerals(byte_len(a) as int);
        numbers_are_numerals(byte_len(b) as int);
        number_ends_are_plain(
            title + " byte_len="@,
            decimal(byte_len(a) as int),
            decimal(byte_len(b) as int),
            " char_count="@,
            decimal(a.len() as int),
            decimal(b.len() as int),
        );
        numbers_are_written_apart(byte_len(a) as int, byte_len(b) as int);
        numbers_are_written_apart(a.len() as int, b.len() as int);
    }
}

/// A number below sixteen to the eighth has at most eight hexadecimal digits.
pub proof fn hex_of_32_bits_is_short(n: u32)
    ensures
        hex(n as nat).len() <= 8,
        hex_padded(n as nat, 8).len() == 8,
        row_value(hex_padded(n as nat, 8), 16) == n,
{
    reveal_with_fuel(digits, 9);
    padding_keeps_the_number(n as nat, 8);
}

} // verus!
