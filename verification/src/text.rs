//! Small helpers for building text.

use vstd::prelude::*;

verus! {

/// Calls `String::push_str`. Trusted: it appends `more` to the end of `s`.
#[verifier::external_body]
pub(crate) fn push_str(s: &mut String, more: &str)
    ensures
        final(s)@ == old(s)@ + more@,
{
    s.push_str(more)
}

/// Calls `String::push`. Trusted: it appends `c` to the end of `s`.
#[verifier::external_body]
pub(crate) fn push_char(s: &mut String, c: char)
    ensures
        final(s)@ == old(s)@.push(c),
{
    s.push(c)
}

/// The decimal digit for `d`.
pub open spec fn digit_char(d: nat) -> char {
    if d == 0 {
        '0'
    } else if d == 1 {
        '1'
    } else if d == 2 {
        '2'
    } else if d == 3 {
        '3'
    } else if d == 4 {
        '4'
    } else if d == 5 {
        '5'
    } else if d == 6 {
        '6'
    } else if d == 7 {
        '7'
    } else if d == 8 {
        '8'
    } else {
        '9'
    }
}

/// The decimal numeral of `n`, without leading zeros.
pub open spec fn decimal_text(n: nat) -> Seq<char>
    decreases n,
{
    if n < 10 {
        seq![digit_char(n)]
    } else {
        decimal_text(n / 10).push(digit_char(n % 10))
    }
}

fn digit(d: u16) -> (r: char)
    requires
        d < 10,
    ensures
        r == digit_char(d as nat),
{
    if d == 0 {
        '0'
    } else if d == 1 {
        '1'
    } else if d == 2 {
        '2'
    } else if d == 3 {
        '3'
    } else if d == 4 {
        '4'
    } else if d == 5 {
        '5'
    } else if d == 6 {
        '6'
    } else if d == 7 {
        '7'
    } else if d == 8 {
        '8'
    } else {
        '9'
    }
}

/// Appends the decimal numeral of `n` to `s`.
pub fn push_decimal(s: &mut String, n: u16)
    ensures
        final(s)@ == old(s)@ + decimal_text(n as nat),
    decreases n,
{
    if n < 10 {
        push_char(s, digit(n));
        assert(s@ =~= old(s)@ + decimal_text(n as nat));
    } else {
        push_decimal(s, n / 10);
        push_char(s, digit(n % 10));
        assert(s@ =~= old(s)@ + decimal_text(n as nat));
    }
}

/// Whether `text` begins with `prefix`.
pub open spec fn has_prefix(text: Seq<char>, prefix: Seq<char>) -> bool {
    prefix.len() <= text.len() && text.take(prefix.len() as int) == prefix
}

/// Whether `at` is where `c` stands first in `text`.
pub open spec fn is_first(text: Seq<char>, c: char, at: int) -> bool {
    &&& 0 <= at < text.len()
    &&& text[at] == c
    &&& forall|k: int| 0 <= k < at ==> text[k] != c
}

/// Where `c` stands first in `text`.
pub open spec fn first_index(text: Seq<char>, c: char) -> int {
    choose|at: int| is_first(text, c, at)
}

/// A character stands first in one place only.
pub proof fn lemma_first_index(text: Seq<char>, c: char, at: int)
    requires
        is_first(text, c, at),
    ensures
        text.contains(c),
        first_index(text, c) == at,
{
    let other = first_index(text, c);
    assert(is_first(text, c, other));
    if other < at {
        assert(text[other] != c);
    } else if at < other {
        assert(text[at] != c);
    }
}

/// Whether `text` begins with `prefix`.
pub fn starts_with(text: &str, prefix: &str) -> (r: bool)
    ensures
        r == has_prefix(text@, prefix@),
{
    let n = prefix.unicode_len();
    if text.unicode_len() < n {
        return false;
    }
    let mut i: usize = 0;
    while i < n
        invariant
            i <= n,
            n == prefix@.len(),
            n <= text@.len(),
            forall|k: int| 0 <= k < i ==> text@[k] == prefix@[k],
        decreases n - i,
    {
        if text.get_char(i) != prefix.get_char(i) {
            assert(text@.take(n as int)[i as int] != prefix@[i as int]);
            return false;
        }
        i += 1;
    }
    assert(text@.take(n as int) =~= prefix@);
    true
}

/// Where `c` stands first in `text`, counted in characters.
pub fn find_char(text: &str, c: char) -> (r: Option<usize>)
    ensures
        r is Some <==> text@.contains(c),
        r is Some ==> is_first(text@, c, r.unwrap() as int),
{
    let n = text.unicode_len();
    let mut i: usize = 0;
    while i < n
        invariant
            i <= n,
            n == text@.len(),
            forall|k: int| 0 <= k < i ==> text@[k] != c,
        decreases n - i,
    {
        if text.get_char(i) == c {
            return Some(i);
        }
        i += 1;
    }
    None
}

} // verus!
