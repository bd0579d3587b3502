//! Building fixed-width text: runs of one character, decimal numbers, aligned marks.

use crate::util::{code, hex_digits};
use vstd::prelude::*;

verus! {

/// `count` copies of `c`.
pub open spec fn run(c: char, count: int) -> Seq<char> {
    Seq::new(if count < 0 { 0nat } else { count as nat }, |i: int| c)
}

/// `n` written in decimal, without sign or padding.
pub open spec fn decimal(n: nat) -> Seq<char>
    decreases n,
{
    if n < 10 {
        seq![hex_digits()[n as int]]
    } else {
        decimal(n / 10).push(hex_digits()[(n % 10) as int])
    }
}

/// `n` written in decimal and padded with a zero to at least two digits.
pub open spec fn two_digits(n: nat) -> Seq<char> {
    if n < 10 {
        seq!['0'] + decimal(n)
    } else {
        decimal(n)
    }
}

/// `mark` at the right end of a field of `width` spaces.
pub open spec fn flush_right(mark: char, width: int) -> Seq<char> {
    run(' ', width - 1).push(mark)
}

/// `mark` at the left end of a field of `width` spaces.
pub open spec fn flush_left(mark: char, width: int) -> Seq<char> {
    seq![mark] + run(' ', width - 1)
}

/// What a list of lines holds, each line as its characters.
pub open spec fn texts(lines: Seq<String>) -> Seq<Seq<char>> {
    lines.map_values(|line: String| line@)
}

/// A character is one of the ten decimal digits.
pub open spec fn is_digit(c: char) -> bool {
    exists|d: int| 0 <= d < 10 && c == #[trigger] hex_digits()[d]
}

/// A character that a sheet may hold: a blank, an underscore, a slash of either kind, a
/// digit, or the mark of a star system in either size.
pub open spec fn is_sheet_char(c: char) -> bool {
    c == ' ' || c == '_' || c == '/' || c == '\\' || c == 'o' || c == 'O' || is_digit(c)
}

/// A text made of the characters of a sheet only.
pub open spec fn is_sheet_text(text: Seq<char>) -> bool {
    forall|i: int| 0 <= i < text.len() ==> is_sheet_char(#[trigger] text[i])
}

/// A decimal number has a digit for every power of ten that it reaches, and only digits.
pub proof fn lemma_decimal_shape(n: nat)
    ensures
        decimal(n).len() >= 1,
        n < 10 ==> decimal(n).len() == 1,
        10 <= n < 100 ==> decimal(n).len() == 2,
        forall|i: int| 0 <= i < decimal(n).len() ==> is_digit(#[trigger] decimal(n)[i]),
    decreases n,
{
    if n < 10 {
        assert(decimal(n)[0] == hex_digits()[n as int]);
    } else {
        lemma_decimal_shape(n / 10);
        let head = decimal(n / 10);
        let last = hex_digits()[(n % 10) as int];
        assert forall|i: int| 0 <= i < decimal(n).len() implies is_digit(
            #[trigger] decimal(n)[i],
        ) by {
            if i < head.len() {
                assert(decimal(n)[i] == head[i]);
            } else {
                assert(decimal(n)[i] == last);
            }
        }
    }
}

/// Two texts of sheet characters, one behind the other, are a text of sheet characters.
pub proof fn lemma_sheet_text_joined(a: Seq<char>, b: Seq<char>)
    requires
        is_sheet_text(a),
        is_sheet_text(b),
    ensures
        is_sheet_text(a + b),
{
    assert forall|i: int| 0 <= i < (a + b).len() implies is_sheet_char(#[trigger] (a + b)[i]) by {
        if i < a.len() {
            assert((a + b)[i] == a[i]);
        } else {
            assert((a + b)[i] == b[i - a.len()]);
        }
    }
}

/// A number of two digits or more is a text of sheet characters.
pub proof fn lemma_two_digits_sheet_text(n: nat)
    ensures
        is_sheet_text(two_digits(n)),
        is_sheet_text(decimal(n)),
{
    lemma_decimal_shape(n);
    assert(is_sheet_text(decimal(n)));
    assert(hex_digits()[0] == '0');
    assert(is_sheet_text(seq!['0']));
    lemma_sheet_text_joined(seq!['0'], decimal(n));
}

/// Calls `String::push`, which appends the given character to the end of the string.
#[verifier::external_body]
pub(crate) fn push_char(text: &mut String, c: char)
    ensures
        final(text)@ == old(text)@.push(c),
{
    text.push(c)
}

/// Appends `count` copies of `c`.
pub fn push_run(text: &mut String, c: char, count: usize)
    ensures
        final(text)@ == old(text)@ + run(c, count as int),
{
    let ghost start = text@;
    let mut done: usize = 0;
    while done < count
        invariant
            done <= count,
            text@ == start + run(c, done as int),
        decreases count - done,
    {
        push_char(text, c);
        done = done + 1;
    }
}

/// Appends `n` in decimal.
pub fn push_decimal(text: &mut String, n: usize)
    ensures
        final(text)@ == old(text)@ + decimal(n as nat),
    decreases n,
{
    if n >= 10 {
        push_decimal(text, n / 10);
    }
    push_char(text, code((n % 10) as isize));
}

/// Appends `n` in decimal, with a leading zero where it has one digit only.
pub fn push_two_digits(text: &mut String, n: usize)
    ensures
        final(text)@ == old(text)@ + two_digits(n as nat),
{
    if n < 10 {
        push_char(text, '0');
    }
    push_decimal(text, n);
}

/// Appends `mark` behind enough spaces to fill a field of `width`.
pub fn push_flush_right(text: &mut String, mark: char, width: usize)
    requires
        width >= 1,
    ensures
        final(text)@ == old(text)@ + flush_right(mark, width as int),
{
    push_run(text, ' ', width - 1);
    push_char(text, mark);
}

/// Appends `mark` and then enough spaces to fill a field of `width`.
pub fn push_flush_left(text: &mut String, mark: char, width: usize)
    requires
        width >= 1,
    ensures
        final(text)@ == old(text)@ + flush_left(mark, width as int),
{
    push_char(text, mark);
    push_run(text, ' ', width - 1);
}

} // verus!
