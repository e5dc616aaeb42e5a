//! Small operations on text that the rest of the library shares.

use vstd::prelude::*;

verus! {

/// `String::push` of std: the text with `c` added at its end.
#[verifier::external_body]
pub(crate) fn push_char(text: &mut String, c: char)
    ensures
        final(text)@ == old(text)@.push(c),
{
    text.push(c);
}

/// Whether `c` is white space: one of the characters with the Unicode
/// property White_Space.
pub open spec fn white_space(c: char) -> bool {
    let code = c as u32;
    0x09 <= code <= 0x0D || code == 0x20 || code == 0x85 || code == 0xA0 || code == 0x1680
        || 0x2000 <= code <= 0x200A || code == 0x2028 || code == 0x2029 || code == 0x202F
        || code == 0x205F || code == 0x3000
}

/// Tells whether `c` is white space.
pub fn is_white_space(c: char) -> (white: bool)
    ensures
        white == white_space(c),
{
    let code: u32 = c as u32;
    (0x09 <= code && code <= 0x0D) || code == 0x20 || code == 0x85 || code == 0xA0 || code
        == 0x1680 || (0x2000 <= code && code <= 0x200A) || code == 0x2028 || code == 0x2029
        || code == 0x202F || code == 0x205F || code == 0x3000
}

/// Filtering a sequence with one more item at its end keeps that item or not,
/// and what came before as it was.
pub proof fn lemma_filter_push<A>(items: Seq<A>, last: A, keep: spec_fn(A) -> bool)
    ensures
        items.push(last).filter(keep) == if keep(last) {
            items.filter(keep).push(last)
        } else {
            items.filter(keep)
        },
{
    reveal(Seq::filter);
    assert(items.push(last).drop_last() =~= items);
}

/// The text without its white space.
pub open spec fn without_white_space(text: Seq<char>) -> Seq<char> {
    text.filter(|c: char| !white_space(c))
}

/// Removes all white space from a text, wherever it stands.
pub fn strip_white_space(text: &str) -> (stripped: String)
    ensures
        stripped@ == without_white_space(text@),
{
    let mut stripped = String::new();
    for c in iter: text.chars()
        invariant
            iter.seq() == text@,
            stripped@ == without_white_space(text@.take(iter.index() as int)),
    {
        proof {
            let done = text@.take(iter.index() as int);
            assert(text@.take(iter.index() + 1) =~= done.push(c));
            lemma_filter_push(done, c, |c: char| !white_space(c));
        }
        if !is_white_space(c) {
            push_char(&mut stripped, c);
        }
    }
    proof {
        assert(text@.take(text@.len() as int) =~= text@);
    }
    stripped
}

/// The decimal digit for a number below ten.
pub open spec fn digit_char(digit: nat) -> char
    recommends
        digit < 10,
{
    (48u8 + digit as u8) as char
}

/// A number written in decimal, without leading zeros.
pub open spec fn decimal_text(number: nat) -> Seq<char>
    decreases number,
{
    if number < 10 {
        seq![digit_char(number)]
    } else {
        decimal_text(number / 10).push(digit_char(number % 10))
    }
}

/// Writes a number in decimal.
pub fn decimal(number: u16) -> (text: String)
    ensures
        text@ == decimal_text(number as nat),
{
    let mut digits: Vec<char> = Vec::new();
    let mut rest: u16 = number;
    while rest >= 10
        invariant
            decimal_text(number as nat) == decimal_text(rest as nat) + digits@.reverse(),
        decreases rest,
    {
        let digit: u8 = (rest % 10) as u8;
        let c: char = (48u8 + digit) as char;
        proof {
            assert(c == digit_char((rest % 10) as nat));
            assert(decimal_text(rest as nat) == decimal_text((rest / 10) as nat).push(c));
            assert(digits@.push(c).reverse() =~= seq![c] + digits@.reverse());
            assert(decimal_text((rest / 10) as nat).push(c) + digits@.reverse() =~= decimal_text(
                (rest / 10) as nat,
            ) + (seq![c] + digits@.reverse()));
        }
        digits.push(c);
        rest = rest / 10;
    }
    let first: char = (48u8 + (rest as u8)) as char;
    let mut text = String::new();
    push_char(&mut text, first);
    let mut i: usize = digits.len();
    assert(digits@.reverse().take(0) =~= Seq::empty());
    while i > 0
        invariant
            i <= digits.len(),
            text@ == seq![first] + digits@.reverse().take(digits.len() - i),
        decreases i,
    {
        i -= 1;
        push_char(&mut text, digits[i]);
        proof {
            let reversed = digits@.reverse();
            let taken = digits.len() - i;
            assert(reversed.take(taken) =~= reversed.take(taken - 1).push(digits[i as int]));
            assert(text@ =~= seq![first] + reversed.take(taken));
        }
    }
    proof {
        assert(digits@.reverse().take(digits.len() as int) =~= digits@.reverse());
        assert(decimal_text(rest as nat) =~= seq![first]);
    }
    text
}

/// What a character is written as inside a script's single quotes: a
/// backslash before a quote, and before a backslash where those are escaped
/// too.
pub open spec fn escaped_char(c: char, backslashes: bool) -> Seq<char> {
    if c == '\'' || (backslashes && c == '\\') {
        seq!['\\', c]
    } else {
        seq![c]
    }
}

/// A text written for a script's single quotes, character by character.
pub open spec fn escaped_text(text: Seq<char>, backslashes: bool) -> Seq<char>
    decreases text.len(),
{
    if text.len() == 0 {
        Seq::empty()
    } else {
        escaped_text(text.drop_last(), backslashes) + escaped_char(text.last(), backslashes)
    }
}

/// Writes a text so that it can stand between single quotes in a script:
/// each quote gets a backslash before it, and with `backslashes` each
/// backslash too.
pub fn escape_quoted(text: &str, backslashes: bool) -> (escaped: String)
    ensures
        escaped@ == escaped_text(text@, backslashes),
{
    let mut escaped = String::new();
    for c in iter: text.chars()
        invariant
            iter.seq() == text@,
            escaped@ == escaped_text(text@.take(iter.index() as int), backslashes),
    {
        proof {
            let done = text@.take(iter.index() as int);
            let next = text@.take(iter.index() + 1);
            assert(next.drop_last() =~= done);
            assert(next.last() == c);
        }
        if c == '\'' || (backslashes && c == '\\') {
            push_char(&mut escaped, '\\');
        }
        push_char(&mut escaped, c);
        proof {
            assert(escaped@ =~= escaped_text(text@.take(iter.index() as int), backslashes)
                + escaped_char(c, backslashes));
        }
    }
    proof {
        assert(text@.take(text@.len() as int) =~= text@);
    }
    escaped
}

} // verus!
