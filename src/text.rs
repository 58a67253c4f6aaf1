//! Small text-building helpers shared by the label renderers.

use vstd::prelude::*;
use vstd::string::*;

verus! {

/// `key="value"` for a key and a value.
pub open spec fn quoted_label(key: Seq<char>, value: Seq<char>) -> Seq<char> {
    key + "=\""@ + value + "\""@
}

/// The text of one decimal digit.
pub open spec fn digit_text(d: nat) -> Seq<char> {
    if d == 0 {
        "0"@
    } else if d == 1 {
        "1"@
    } else if d == 2 {
        "2"@
    } else if d == 3 {
        "3"@
    } else if d == 4 {
        "4"@
    } else if d == 5 {
        "5"@
    } else if d == 6 {
        "6"@
    } else if d == 7 {
        "7"@
    } else if d == 8 {
        "8"@
    } else {
        "9"@
    }
}

/// The decimal rendering of a natural number, without leading zeros.
pub open spec fn decimal(n: nat) -> Seq<char>
    decreases n,
{
    if n < 10 {
        digit_text(n)
    } else {
        decimal(n / 10) + digit_text(n % 10)
    }
}

fn digit_str(d: u32) -> (r: &'static str)
    requires
        d < 10,
    ensures
        r@ == digit_text(d as nat),
{
    if d == 0 {
        "0"
    } else if d == 1 {
        "1"
    } else if d == 2 {
        "2"
    } else if d == 3 {
        "3"
    } else if d == 4 {
        "4"
    } else if d == 5 {
        "5"
    } else if d == 6 {
        "6"
    } else if d == 7 {
        "7"
    } else if d == 8 {
        "8"
    } else {
        "9"
    }
}

/// Appends the decimal rendering of `n` to `out`.
pub fn push_decimal(out: &mut String, n: u32)
    ensures
        final(out)@ == old(out)@ + decimal(n as nat),
    decreases n,
{
    if n >= 10 {
        push_decimal(out, n / 10);
    }
    let d = digit_str(n % 10);
    out.append(d);
    proof {
        assert(out@ =~= old(out)@ + decimal(n as nat));
    }
}

/// Appends `key="value"` to `out`.
pub fn push_quoted(out: &mut String, key: &str, value: &str)
    ensures
        final(out)@ == old(out)@ + quoted_label(key@, value@),
{
    out.append(key);
    out.append("=\"");
    out.append(value);
    out.append("\"");
    assert(out@ =~= old(out)@ + quoted_label(key@, value@));
}

} // verus!
