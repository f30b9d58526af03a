//! The source text of the synthesized method.

use crate::emit::{DispatchMethod, DispatchView, Fallback, FallbackView};
use crate::table::{Entry, EntryView};
use vstd::prelude::*;
use vstd::string::{StrSliceExecFns, StringExecFns};

verus! {

/// How the method begins where the fallback is a callback.
pub const HEAD_CALLBACK: &'static str =
    "fn handle_command<F>(&self, command: &str, command_args: &[String], f: F) where F: FnOnce(&str, &[String]) { match command { ";

/// How the method begins where the fallback is a method of the dispatcher.
pub const HEAD_RESERVED: &'static str =
    "fn handle_command(&self, command: &str, command_args: &[String]) { match command { ";

/// Between the pattern of an arm and the name of its handler.
pub const ARM_CALL: &'static str = " => self.";

/// After the name of an arm's handler.
pub const ARM_END: &'static str = "(command_args), ";

/// The default branch that calls the callback, and the end of the method.
pub const DEFAULT_CALLBACK: &'static str = "_ => f(command, command_args) } }";

/// Before the name of the reserved method in the default branch.
pub const DEFAULT_CALL: &'static str = "_ => self.";

/// After the name of the reserved method, and the end of the method.
pub const DEFAULT_END: &'static str = "(command, command_args) } }";

/// What opens and closes a string literal.
pub const QUOTE: &'static str = "\"";

/// What opens an escape.
pub const ESCAPE_OPEN: &'static str = "\\u{";

/// What closes an escape.
pub const ESCAPE_CLOSE: &'static str = "}";

/// A character that stands for itself inside a string literal: printable
/// ASCII but for the quote and the backslash.
pub open spec fn is_plain(c: char) -> bool {
    0x20 <= c as u32 <= 0x7e && c as u32 != 0x22 && c as u32 != 0x5c
}

/// The hexadecimal digit for `d`.
pub open spec fn hex_digit(d: int) -> char {
    if d == 0 {
        '0'
    } else if d == 1 {
        '1'
    } else if d == 2 {
        '2'
    } else if d == 3 {
        '3'
    } else if d == 4 {
        '4'
    } else if d == 5 {
        '5'
    } else if d == 6 {
        '6'
    } else if d == 7 {
        '7'
    } else if d == 8 {
        '8'
    } else if d == 9 {
        '9'
    } else if d == 10 {
        'a'
    } else if d == 11 {
        'b'
    } else if d == 12 {
        'c'
    } else if d == 13 {
        'd'
    } else if d == 14 {
        'e'
    } else {
        'f'
    }
}

/// The code point `n` in six hexadecimal digits.
pub open spec fn hex6(n: int) -> Seq<char> {
    seq![
        hex_digit(n / 0x100000 % 16),
        hex_digit(n / 0x10000 % 16),
        hex_digit(n / 0x1000 % 16),
        hex_digit(n / 0x100 % 16),
        hex_digit(n / 0x10 % 16),
        hex_digit(n % 16),
    ]
}

/// One character as it is written inside a string literal: plain
/// characters as they are, every other one as a code point escape.
pub open spec fn escaped_char(c: char) -> Seq<char> {
    if is_plain(c) {
        seq![c]
    } else {
        ESCAPE_OPEN@ + hex6(c as u32 as int) + ESCAPE_CLOSE@
    }
}

/// A text as it is written inside a string literal.
pub open spec fn escaped(text: Seq<char>) -> Seq<char>
    decreases text.len(),
{
    if text.len() == 0 {
        Seq::empty()
    } else {
        escaped(text.drop_last()) + escaped_char(text.last())
    }
}

/// The string literal whose value is `text`.
pub open spec fn quoted(text: Seq<char>) -> Seq<char> {
    QUOTE@ + escaped(text) + QUOTE@
}

/// One match arm: the label as a pattern, and the call of its handler.
pub open spec fn arm_source(arm: EntryView) -> Seq<char> {
    quoted(arm.label) + ARM_CALL@ + arm.handler + ARM_END@
}

/// The match arms, one after the other.
pub open spec fn arms_source(arms: Seq<EntryView>) -> Seq<char>
    decreases arms.len(),
{
    if arms.len() == 0 {
        Seq::empty()
    } else {
        arms_source(arms.drop_last()) + arm_source(arms.last())
    }
}

impl DispatchView {
    /// The head of the method up to its first arm.
    pub open spec fn head_source(self) -> Seq<char> {
        match self.fallback {
            FallbackView::Callback => HEAD_CALLBACK@,
            FallbackView::ReservedMethod(_) => HEAD_RESERVED@,
        }
    }

    /// The default branch and the end of the method.
    pub open spec fn default_source(self) -> Seq<char> {
        match self.fallback {
            FallbackView::Callback => DEFAULT_CALLBACK@,
            FallbackView::ReservedMethod(name) => DEFAULT_CALL@ + name + DEFAULT_END@,
        }
    }

    /// The method as source text.
    pub open spec fn source(self) -> Seq<char> {
        self.head_source() + arms_source(self.arms) + self.default_source()
    }
}

/// The number that a hexadecimal digit stands for.
pub open spec fn hex_value(c: char) -> int {
    if c == '0' {
        0
    } else if c == '1' {
        1
    } else if c == '2' {
        2
    } else if c == '3' {
        3
    } else if c == '4' {
        4
    } else if c == '5' {
        5
    } else if c == '6' {
        6
    } else if c == '7' {
        7
    } else if c == '8' {
        8
    } else if c == '9' {
        9
    } else if c == 'a' {
        10
    } else if c == 'b' {
        11
    } else if c == 'c' {
        12
    } else if c == 'd' {
        13
    } else if c == 'e' {
        14
    } else {
        15
    }
}

/// The code point that six hexadecimal digits stand for.
pub open spec fn code_of(digits: Seq<char>) -> int {
    hex_value(digits[0]) * 0x100000 + hex_value(digits[1]) * 0x10000 + hex_value(digits[2])
        * 0x1000 + hex_value(digits[3]) * 0x100 + hex_value(digits[4]) * 0x10 + hex_value(
        digits[5],
    )
}

/// The length of a code point escape: a backslash, `u`, a brace, six
/// digits, a brace.
pub open spec fn escape_len() -> int {
    10
}

/// What a text written inside a string literal stands for, read from the
/// left: a backslash begins a code point escape, and every other character
/// stands for itself.
pub open spec fn unescaped(text: Seq<char>) -> Seq<char>
    decreases text.len(),
{
    if text.len() == 0 {
        Seq::empty()
    } else if text[0] == '\\' && text.len() >= escape_len() {
        seq![code_of(text.subrange(3, 9)) as char] + unescaped(text.skip(escape_len()))
    } else {
        seq![text[0]] + unescaped(text.skip(1))
    }
}

/// A number below `16^6` is the sum of its six hexadecimal digits, each
/// times its place value.
pub proof fn lemma_six_digits(n: int)
    requires
        0 <= n < 0x1000000,
    ensures
        n == (n / 0x100000 % 16) * 0x100000 + (n / 0x10000 % 16) * 0x10000 + (n / 0x1000 % 16)
            * 0x1000 + (n / 0x100 % 16) * 0x100 + (n / 0x10 % 16) * 0x10 + n % 16,
{
    let q1 = n / 0x10;
    let q2 = q1 / 0x10;
    let q3 = q2 / 0x10;
    let q4 = q3 / 0x10;
    let q5 = q4 / 0x10;
    assert(q2 == n / 0x100);
    assert(q3 == n / 0x1000);
    assert(q4 == n / 0x10000);
    assert(q5 == n / 0x100000);
    assert(n == q1 * 0x10 + n % 16);
    assert(q1 == q2 * 0x10 + q1 % 16);
    assert(q2 == q3 * 0x10 + q2 % 16);
    assert(q3 == q4 * 0x10 + q3 % 16);
    assert(q4 == q5 * 0x10 + q4 % 16);
}

/// Six digits written for a code point stand for that code point.
pub proof fn lemma_hex6_reads_back(n: int)
    requires
        0 <= n < 0x1000000,
    ensures
        hex6(n).len() == 6,
        code_of(hex6(n)) == n,
{
    lemma_six_digits(n);
    lemma_hex_digit_reads_back(n / 0x100000 % 16);
    lemma_hex_digit_reads_back(n / 0x10000 % 16);
    lemma_hex_digit_reads_back(n / 0x1000 % 16);
    lemma_hex_digit_reads_back(n / 0x100 % 16);
    lemma_hex_digit_reads_back(n / 0x10 % 16);
    lemma_hex_digit_reads_back(n % 16);
}

/// A digit written for a number below sixteen stands for that number.
pub proof fn lemma_hex_digit_reads_back(d: int)
    requires
        0 <= d < 16,
    ensures
        hex_value(hex_digit(d)) == d,
{
}

/// One character as it is written stands for that character, whatever
/// follows it.
pub proof fn lemma_escaped_char_reads_back(c: char, rest: Seq<char>)
    ensures
        unescaped(escaped_char(c) + rest) == seq![c] + unescaped(rest),
{
    let text = escaped_char(c) + rest;
    if is_plain(c) {
        assert(text.skip(1) =~= rest);
    } else {
        reveal_strlit("\\u{");
        reveal_strlit("}");
        let n = c as u32 as int;
        lemma_hex6_reads_back(n);
        assert(text.skip(escape_len()) =~= rest);
    }
}

/// Writing a text is writing its first character and then the rest.
pub proof fn lemma_escaped_from_the_left(text: Seq<char>)
    requires
        text.len() > 0,
    ensures
        escaped(text) == escaped_char(text[0]) + escaped(text.skip(1)),
    decreases text.len(),
{
    if text.len() == 1 {
        assert(text.drop_last() =~= Seq::<char>::empty());
        assert(text.skip(1) =~= Seq::<char>::empty());
    } else {
        let front = text.drop_last();
        lemma_escaped_from_the_left(front);
        assert(front.skip(1) =~= text.skip(1).drop_last());
    }
}

/// A text as it is written inside a string literal stands for that text:
/// the pattern of a match arm matches its label and nothing else.
pub proof fn lemma_escaped_reads_back(text: Seq<char>)
    ensures
        unescaped(escaped(text)) == text,
    decreases text.len(),
{
    if text.len() > 0 {
        lemma_escaped_from_the_left(text);
        lemma_escaped_char_reads_back(text[0], escaped(text.skip(1)));
        lemma_escaped_reads_back(text.skip(1));
    }
}

/// Two labels that are written alike are the same label.
pub proof fn lemma_escaped_is_injective(one: Seq<char>, other: Seq<char>)
    requires
        escaped(one) == escaped(other),
    ensures
        one == other,
{
    lemma_escaped_reads_back(one);
    lemma_escaped_reads_back(other);
}

/// The one-character text of a hexadecimal digit.
fn hex_digit_text(d: u32) -> (r: &'static str)
    requires
        d < 16,
    ensures
        r@ == seq![hex_digit(d as int)],
{
    proof {
        reveal_strlit("0");
        reveal_strlit("1");
        reveal_strlit("2");
        reveal_strlit("3");
        reveal_strlit("4");
        reveal_strlit("5");
        reveal_strlit("6");
        reveal_strlit("7");
        reveal_strlit("8");
        reveal_strlit("9");
        reveal_strlit("a");
        reveal_strlit("b");
        reveal_strlit("c");
        reveal_strlit("d");
        reveal_strlit("e");
        reveal_strlit("f");
    }
    if d == 0 {
        "0"
    } else if d == 1 {
        "1"
    } else if d == 2 {
        "2"
    } else if d == 3 {
        "3"
    } else if d == 4 {
        "4"
    } else if d == 5 {
        "5"
    } else if d == 6 {
        "6"
    } else if d == 7 {
        "7"
    } else if d == 8 {
        "8"
    } else if d == 9 {
        "9"
    } else if d == 10 {
        "a"
    } else if d == 11 {
        "b"
    } else if d == 12 {
        "c"
    } else if d == 13 {
        "d"
    } else if d == 14 {
        "e"
    } else {
        "f"
    }
}

/// Appends the code point escape of `c` to `out`.
fn push_escape(out: &mut String, c: char)
    ensures
        final(out)@ == old(out)@ + ESCAPE_OPEN@ + hex6(c as u32 as int) + ESCAPE_CLOSE@,
{
    let n: u32 = c as u32;
    out.append(ESCAPE_OPEN);
    out.append(hex_digit_text(n / 0x100000 % 16));
    out.append(hex_digit_text(n / 0x10000 % 16));
    out.append(hex_digit_text(n / 0x1000 % 16));
    out.append(hex_digit_text(n / 0x100 % 16));
    out.append(hex_digit_text(n / 0x10 % 16));
    out.append(hex_digit_text(n % 16));
    out.append(ESCAPE_CLOSE);
}

/// Appends the string literal whose value is `text` to `out`.
pub fn push_quoted(out: &mut String, text: &str)
    ensures
        final(out)@ == old(out)@ + quoted(text@),
{
    out.append(QUOTE);
    let ghost opened = out@;
    let n = text.unicode_len();
    let mut i: usize = 0;
    while i < n
        invariant
            i <= n,
            n == text@.len(),
            out@ == opened + escaped(text@.take(i as int)),
        decreases n - i,
    {
        let c = text.get_char(i);
        let code: u32 = c as u32;
        proof {
            assert(text@.take(i as int + 1).drop_last() =~= text@.take(i as int));
        }
        if 0x20 <= code && code <= 0x7e && code != 0x22 && code != 0x5c {
            out.append(text.substring_char(i, i + 1));
        } else {
            push_escape(out, c);
        }
        i += 1;
    }
    assert(text@.take(n as int) =~= text@);
    out.append(QUOTE);
}

/// Appends one match arm to `out`.
pub fn push_arm(out: &mut String, arm: &Entry)
    ensures
        final(out)@ == old(out)@ + arm_source(arm@),
{
    push_quoted(out, arm.label.as_str());
    out.append(ARM_CALL);
    out.append(arm.handler.as_str());
    out.append(ARM_END);
}

impl DispatchMethod {
    /// Writes the method out as source text: the head that goes with the
    /// fallback, one arm per row of the table in the order of the rows, and
    /// the default branch.
    pub fn render(&self) -> (r: String)
        ensures
            r@ == self@.source(),
    {
        let mut out = match &self.fallback {
            Fallback::Callback => HEAD_CALLBACK.to_owned(),
            Fallback::ReservedMethod(_) => HEAD_RESERVED.to_owned(),
        };
        let rows = self.table.rows();
        let ghost arms = self@.arms;
        let mut i: usize = 0;
        while i < rows.len()
            invariant
                i <= rows.len(),
                rows.deep_view() == arms,
                out@ == self@.head_source() + arms_source(arms.take(i as int)),
            decreases rows.len() - i,
        {
            proof {
                assert(arms.take(i as int + 1).drop_last() =~= arms.take(i as int));
            }
            push_arm(&mut out, &rows[i]);
            i += 1;
        }
        assert(arms.take(rows.len() as int) =~= arms);
        match &self.fallback {
            Fallback::Callback => {
                out.append(DEFAULT_CALLBACK);
            },
            Fallback::ReservedMethod(name) => {
                out.append(DEFAULT_CALL);
                out.append(name.as_str());
                out.append(DEFAULT_END);
            },
        }
        out
    }
}

} // verus!
