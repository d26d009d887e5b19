use vstd::prelude::*;

verus! {

/// The text that the `Debug` impl of `std::time::Duration` gives for a span
/// of this many microseconds.
pub uninterp spec fn duration_text(micros: u64) -> Seq<char>;

/// The character of a decimal digit.
pub open spec fn digit_char(d: nat) -> char {
    if d == 0 { '0' }
    else if d == 1 { '1' }
    else if d == 2 { '2' }
    else if d == 3 { '3' }
    else if d == 4 { '4' }
    else if d == 5 { '5' }
    else if d == 6 { '6' }
    else if d == 7 { '7' }
    else if d == 8 { '8' }
    else { '9' }
}

/// The decimal digits of `n`, most significant first, with no leading zero.
pub open spec fn decimal(n: nat) -> Seq<char>
    decreases n,
{
    if n < 10 {
        seq![digit_char(n)]
    } else {
        decimal(n / 10).push(digit_char(n % 10))
    }
}

/// Relies on the `Debug` impl of `std::time::Duration` (through `format!`):
/// its text depends on the span alone.
#[verifier::external_body]
pub(crate) fn duration_to_text(micros: u64) -> (r: String)
    ensures
        r@ == duration_text(micros),
{
    format!("{:?}", std::time::Duration::from_micros(micros))
}

/// Relies on the `Display` impl of `usize` (through `format!`): plain decimal
/// digits, no sign, no padding.
#[verifier::external_body]
pub(crate) fn decimal_to_text(n: usize) -> (r: String)
    ensures
        r@ == decimal(n as nat),
{
    format!("{}", n)
}

/// Relies on `String::push_str`: appends `t` at the end of `s`.
#[verifier::external_body]
pub(crate) fn append(s: &mut String, t: &str)
    ensures
        final(s)@ == old(s)@ + t@,
{
    s.push_str(t)
}

} // verus!
