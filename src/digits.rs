use vstd::prelude::*;
use vstd::string::*;

verus! {

pub const DIGITS: &'static str = "0123456789";

/// The character of decimal digit `d`.
pub open spec fn digit_char(d: int) -> char {
    DIGITS@[d]
}

/// The last `width` decimal digits of `n`, zero-padded.
pub open spec fn fixed_digits(n: nat, width: nat) -> Seq<char>
    decreases width,
{
    if width == 0 {
        Seq::empty()
    } else {
        fixed_digits(n / 10, (width - 1) as nat).push(digit_char((n % 10) as int))
    }
}

/// `n` in decimal, without leading zeros.
pub open spec fn decimal(n: nat) -> Seq<char>
    decreases n,
{
    if n < 10 {
        seq![digit_char(n as int)]
    } else {
        decimal(n / 10).push(digit_char((n % 10) as int))
    }
}

fn push_digit(out: &mut String, d: u64)
    requires
        d < 10,
    ensures
        final(out)@ == old(out)@.push(digit_char(d as int)),
{
    proof {
        reveal_strlit("0123456789");
    }
    let s = DIGITS.substring_char(d as usize, d as usize + 1);
    out.append(s);
    assert(final(out)@ =~= old(out)@.push(digit_char(d as int)));
}

/// Appends the last `width` decimal digits of `n`, zero-padded.
pub fn push_fixed(out: &mut String, n: u64, width: usize)
    ensures
        final(out)@ == old(out)@ + fixed_digits(n as nat, width as nat),
    decreases width,
{
    if width == 0 {
        assert(old(out)@ + Seq::<char>::empty() =~= old(out)@);
    } else {
        push_fixed(out, n / 10, width - 1);
        push_digit(out, n % 10);
        assert(final(out)@ =~= old(out)@ + fixed_digits(n as nat, width as nat));
    }
}

/// Appends `n` in decimal.
pub fn push_decimal(out: &mut String, n: u64)
    ensures
        final(out)@ == old(out)@ + decimal(n as nat),
    decreases n,
{
    if n < 10 {
        push_digit(out, n);
        assert(final(out)@ =~= old(out)@ + decimal(n as nat));
    } else {
        push_decimal(out, n / 10);
        push_digit(out, n % 10);
        assert(final(out)@ =~= old(out)@ + decimal(n as nat));
    }
}

} // verus!
