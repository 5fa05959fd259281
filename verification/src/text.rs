//! Decimal rendering of integers and fixed-width padding, as used by the
//! text exports.

use vstd::prelude::*;
use vstd::string::StringExecFns;

verus! {

/// The decimal digit character of a value below 10.
pub open spec fn digit_char(d: nat) -> char {
    (('0' as nat) + d) as char
}

/// Decimal digits of a natural number, most significant first, no leading zeros ("0" for 0).
pub open spec fn dec(n: nat) -> Seq<char>
    decreases n,
{
    if n < 10 {
        seq![digit_char(n)]
    } else {
        dec(n / 10).push(digit_char(n % 10))
    }
}

/// Decimal form of an integer, with a leading '-' when negative.
pub open spec fn dec_int(x: int) -> Seq<char> {
    if x < 0 {
        seq!['-'] + dec((-x) as nat)
    } else {
        dec(x as nat)
    }
}

/// `k` spaces.
pub open spec fn spaces(k: nat) -> Seq<char>
    decreases k,
{
    if k == 0 {
        Seq::empty()
    } else {
        spaces((k - 1) as nat).push(' ')
    }
}

/// `s` left-aligned in a field of `width` characters: followed by spaces up
/// to the width, unchanged when already that long.
pub open spec fn pad_right(s: Seq<char>, width: nat) -> Seq<char> {
    if s.len() >= width {
        s
    } else {
        s + spaces((width - s.len()) as nat)
    }
}

pub proof fn lemma_dec_len_positive(n: nat)
    ensures
        dec(n).len() >= 1,
    decreases n,
{
    if n >= 10 {
        lemma_dec_len_positive(n / 10);
    }
}

fn push_digit(out: &mut String, d: u64)
    requires
        d < 10,
    ensures
        final(out)@ == old(out)@.push(digit_char(d as nat)),
{
    let s = match d {
        0 => "0",
        1 => "1",
        2 => "2",
        3 => "3",
        4 => "4",
        5 => "5",
        6 => "6",
        7 => "7",
        8 => "8",
        _ => "9",
    };
    proof {
        reveal_strlit("0");
        reveal_strlit("1");
        reveal_strlit("2");
        reveal_strlit("3");
        reveal_strlit("4");
        reveal_strlit("5");
        reveal_strlit("6");
        reveal_strlit("7");
        reveal_strlit("8");
        reveal_strlit("9");
    }
    assert(s@ =~= seq![digit_char(d as nat)]);
    out.append(s);
}

/// Appends the decimal digits of `n`.
pub fn push_u64(out: &mut String, n: u64)
    ensures
        final(out)@ == old(out)@ + dec(n as nat),
    decreases n,
{
    if n >= 10 {
        push_u64(out, n / 10);
    }
    push_digit(out, n % 10);
    assert(out@ =~= old(out)@ + dec(n as nat));
}

/// Appends the decimal form of `x`, with a leading '-' when negative.
pub fn push_i64(out: &mut String, x: i64)
    ensures
        final(out)@ == old(out)@ + dec_int(x as int),
{
    if x < 0 {
        out.append("-");
        proof {
            reveal_strlit("-");
        }
        let magnitude: u64 = if x == i64::MIN {
            9_223_372_036_854_775_808u64
        } else {
            (-x) as u64
        };
        push_u64(out, magnitude);
        assert(out@ =~= old(out)@ + dec_int(x as int));
    } else {
        push_u64(out, x as u64);
    }
}

/// Appends the decimal digits of `n`, left-aligned in a field of five characters.
pub fn push_u64_padded5(out: &mut String, n: u64)
    ensures
        final(out)@ == old(out)@ + pad_right(dec(n as nat), 5),
{
    let ghost start = out@;
    push_u64(out, n);
    let ghost digits = dec(n as nat);
    let mut width: u64 = if n < 10 {
        1
    } else if n < 100 {
        2
    } else if n < 1000 {
        3
    } else if n < 10000 {
        4
    } else {
        5
    };
    proof {
        reveal_strlit(" ");
        if n >= 10000 {
            lemma_dec_len_at_least_5(n as nat);
        } else {
            assert(digits.len() == width) by {
                reveal_with_fuel(dec, 5);
            }
        }
    }
    while width < 5
        invariant
            n < 10000 ==> digits.len() <= width <= 5,
            n < 10000 ==> out@ == start + digits + spaces((width - digits.len()) as nat),
            n >= 10000 ==> width == 5 && out@ == start + digits,
        decreases 5 - width,
    {
        out.append(" ");
        width = width + 1;
        proof {
            reveal_strlit(" ");
            assert(spaces((width - digits.len()) as nat) == spaces((width - 1 - digits.len()) as nat).push(' '));
            assert(out@ =~= start + digits + spaces((width - digits.len()) as nat));
        }
    }
    proof {
        if n < 10000 {
            assert(out@ =~= start + pad_right(digits, 5));
        }
    }
}

proof fn lemma_dec_len_at_least_5(n: nat)
    requires
        n >= 10000,
    ensures
        dec(n).len() >= 5,
{
    reveal_with_fuel(dec, 5);
    lemma_dec_len_positive(n / 10000);
}

} // verus!
