//! Building SQL text: decimal numbers and quoted string literals.

use vstd::prelude::*;

verus! {

/// Appends one character to a string.
///
/// Trusted: this is `String::push`, which puts `c` at the end of `s` and
/// leaves what was there untouched.
#[verifier::external_body]
pub(crate) fn push_char(s: &mut String, c: char)
    ensures
        final(s)@ == old(s)@.push(c),
{
    s.push(c)
}

/// The character that stands for the decimal digit `d`.
pub open spec fn digit_char(d: int) -> char
    recommends
        0 <= d < 10,
{
    (('0' as int) + d) as char
}

/// The decimal digits of `n`, most significant first, without leading zeros.
pub open spec fn digits(n: nat) -> Seq<char>
    decreases n,
{
    if n < 10 {
        seq![digit_char(n as int)]
    } else {
        digits(n / 10).push(digit_char((n % 10) as int))
    }
}

/// The decimal text of an integer: a minus sign for a negative one, then its digits.
pub open spec fn decimal(n: int) -> Seq<char> {
    if n < 0 {
        seq!['-'] + digits((-n) as nat)
    } else {
        digits(n as nat)
    }
}

/// Appends the decimal digits of `n` to `out`.
pub fn push_digits(out: &mut String, n: u64)
    ensures
        final(out)@ == old(out)@ + digits(n as nat),
    decreases n,
{
    if n >= 10 {
        push_digits(out, n / 10);
    }
    let d: u8 = (n % 10) as u8;
    push_char(out, (48u8 + d) as char);
}

/// Appends the decimal text of `n` to `out`.
pub fn push_decimal(out: &mut String, n: i64)
    ensures
        final(out)@ == old(out)@ + decimal(n as int),
{
    if n < 0 {
        push_char(out, '-');
        let magnitude: u64 = ((-(n + 1)) as u64) + 1;
        push_digits(out, magnitude);
    } else {
        push_digits(out, n as u64);
    }
}

/// `s` with every single quote doubled: what stands between the quotes of
/// a string literal that denotes `s`.
pub open spec fn escaped(s: Seq<char>) -> Seq<char>
    decreases s.len(),
{
    if s.len() == 0 {
        Seq::empty()
    } else if s.last() == '\'' {
        escaped(s.drop_last()).push('\'').push('\'')
    } else {
        escaped(s.drop_last()).push(s.last())
    }
}

/// The string literal that denotes `s`.
pub open spec fn string_literal(s: Seq<char>) -> Seq<char> {
    seq!['\''] + escaped(s) + seq!['\'']
}

/// What the text between the quotes of a string literal denotes: each
/// doubled quote stands for one quote, every other character for itself.
/// A quote that is not doubled would end the literal, so a text that holds
/// one denotes nothing.
pub open spec fn denoted(body: Seq<char>) -> Option<Seq<char>>
    decreases body.len(),
{
    if body.len() == 0 {
        Some(Seq::empty())
    } else if body[0] != '\'' {
        match denoted(body.drop_first()) {
            Some(rest) => Some(seq![body[0]] + rest),
            None => None,
        }
    } else if body.len() >= 2 && body[1] == '\'' {
        match denoted(body.subrange(2, body.len() as int)) {
            Some(rest) => Some(seq!['\''] + rest),
            None => None,
        }
    } else {
        None
    }
}

/// What a string literal denotes, if the text is one: it opens and closes
/// with a quote, and no quote in between ends it early.
pub open spec fn literal_value(literal: Seq<char>) -> Option<Seq<char>> {
    if literal.len() >= 2 && literal.first() == '\'' && literal.last() == '\'' {
        denoted(literal.subrange(1, literal.len() - 1))
    } else {
        None
    }
}

/// Escaping goes through a text piece by piece.
pub proof fn escaped_concat(a: Seq<char>, b: Seq<char>)
    ensures
        escaped(a + b) == escaped(a) + escaped(b),
    decreases b.len(),
{
    if b.len() == 0 {
        assert(a + b == a);
    } else {
        escaped_concat(a, b.drop_last());
        assert((a + b).drop_last() == a + b.drop_last());
    }
}

/// An escaped text denotes the text it was made from.
pub proof fn escaped_denotes(s: Seq<char>)
    ensures
        denoted(escaped(s)) == Some(s),
    decreases s.len(),
{
    if s.len() == 0 {
        assert(s == Seq::<char>::empty());
    } else {
        let head = seq![s[0]];
        let tail = s.drop_first();
        assert(s == head + tail);
        escaped_concat(head, tail);
        escaped_denotes(tail);
        assert(escaped(head.drop_last()) == Seq::<char>::empty());
        let body = escaped(s);
        if s[0] == '\'' {
            assert(escaped(head) == seq!['\'', '\'']);
            assert(body.subrange(2, body.len() as int) == escaped(tail));
            assert(seq!['\''] + tail == s);
        } else {
            assert(escaped(head) == seq![s[0]]);
            assert(body.drop_first() == escaped(tail));
        }
    }
}

/// A string literal denotes the string it was made from, whatever quotes
/// that string holds.
pub proof fn literal_denotes(s: Seq<char>)
    ensures
        literal_value(string_literal(s)) == Some(s),
{
    escaped_denotes(s);
    let literal = string_literal(s);
    assert(literal.subrange(1, literal.len() - 1) == escaped(s));
}

/// Appends to `out` the string literal that denotes `s`.
pub fn push_string_literal(out: &mut String, s: &str)
    ensures
        final(out)@ == old(out)@ + string_literal(s@),
{
    push_char(out, '\'');
    let ghost opened = out@;
    for c in chars: s.chars()
        invariant
            chars.seq() == s@,
            out@ == opened + escaped(s@.take(chars.index())),
    {
        proof {
            let done = s@.take(chars.index());
            let next = s@.take(chars.index() + 1);
            assert(next.drop_last() == done);
        }
        if c == '\'' {
            push_char(out, '\'');
        }
        push_char(out, c);
    }
    assert(s@.take(s@.len() as int) == s@);
    push_char(out, '\'');
}

} // verus!
