//! Building text character by character, and writing numbers in decimal.

use vstd::prelude::*;
use vstd::std_specs::iter::IteratorSpec;

verus! {

/// The characters of `s`, in order.
pub(crate) fn chars_of(s: &str) -> (out: Vec<char>)
    ensures
        out@ == s@,
{
    let mut out: Vec<char> = Vec::new();
    for c in it: s.chars()
        invariant
            it.seq() == s@,
            out@ == s@.take(it.index() as int),
    {
        out.push(c);
    }
    out
}

/// `String::push` of the standard library: the text grows by the one
/// character, at its end.
#[verifier::external_body]
pub(crate) fn push_char(s: &mut String, c: char)
    ensures
        final(s)@ == old(s)@.push(c),
{
    s.push(c);
}

/// The text made of the characters of `chars` from position `from` on.
pub(crate) fn text_from(chars: &Vec<char>, from: usize) -> (out: String)
    requires
        from <= chars.len(),
    ensures
        out@ == chars@.skip(from as int),
{
    let mut out = String::new();
    let mut i: usize = from;
    while i < chars.len()
        invariant
            from <= i <= chars.len(),
            out@ == chars@.subrange(from as int, i as int),
        decreases chars.len() - i,
    {
        push_char(&mut out, chars[i]);
        i += 1;
    }
    out
}

/// The ten decimal digits, in order.
pub open spec fn digits() -> Seq<char> {
    seq!['0', '1', '2', '3', '4', '5', '6', '7', '8', '9']
}

/// The character for a decimal digit.
pub open spec fn digit(d: int) -> char
    recommends
        0 <= d < 10,
{
    digits()[d]
}

/// The number in decimal, without leading zeros.
pub open spec fn decimal(n: nat) -> Seq<char>
    decreases n,
{
    if n < 10 {
        seq![digit(n as int)]
    } else {
        decimal(n / 10).push(digit((n % 10) as int))
    }
}

fn digit_char(d: u128) -> (c: char)
    requires
        d < 10,
    ensures
        c == digit(d as int),
{
    let code: u8 = 48 + (d as u8);
    code as char
}

/// Writes `n` in decimal.
pub fn decimal_text(n: u128) -> (out: String)
    ensures
        out@ == decimal(n as nat),
{
    let mut low_first: Vec<char> = Vec::new();
    let mut m: u128 = n;
    assert(decimal(m as nat) + low_first@.reverse() =~= decimal(n as nat));
    while m >= 10
        invariant
            decimal(m as nat) + low_first@.reverse() == decimal(n as nat),
        decreases m,
    {
        let ghost before = low_first@;
        let c = digit_char(m % 10);
        low_first.push(c);
        assert(low_first@.reverse() =~= seq![c] + before.reverse());
        assert(decimal(m as nat) == decimal((m / 10) as nat).push(c));
        assert(decimal((m / 10) as nat) + low_first@.reverse() =~= decimal(m as nat)
            + before.reverse());
        m = m / 10;
    }
    let ghost before = low_first@;
    let c = digit_char(m);
    low_first.push(c);
    assert(low_first@.reverse() =~= decimal(m as nat) + before.reverse());
    let mut out = String::new();
    let mut i: usize = low_first.len();
    while i > 0
        invariant
            i <= low_first.len(),
            out@ == low_first@.reverse().take(low_first.len() - i),
        decreases i,
    {
        i -= 1;
        push_char(&mut out, low_first[i]);
        assert(out@ =~= low_first@.reverse().take(low_first.len() - i));
    }
    assert(out@ =~= low_first@.reverse());
    out
}

} // verus!
