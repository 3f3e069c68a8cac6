//! Verified decimal rendering of integers.
//!
//! The container headers, the reflag metadata keys and the RTS configuration
//! text all embed integers in decimal.  The spec functions here define the
//! decimal text of a number; the exec functions produce exactly that text.

use vstd::prelude::*;

verus! {

/// The character for one decimal digit.
pub open spec fn digit_char(d: nat) -> char {
    if d == 0 {
        '0'
    } else if d == 1 {
        '1'
    } else if d == 2 {
        '2'
    } else if d == 3 {
        '3'
    } else if d == 4 {
        '4'
    } else if d == 5 {
        '5'
    } else if d == 6 {
        '6'
    } else if d == 7 {
        '7'
    } else if d == 8 {
        '8'
    } else {
        '9'
    }
}

/// The decimal digits of `n`, most significant first, without leading zeros
/// (`0` is a single `'0'`).
pub open spec fn dec_digits(n: nat) -> Seq<char>
    decreases n,
{
    if n < 10 {
        seq![digit_char(n)]
    } else {
        dec_digits(n / 10) + seq![digit_char(n % 10)]
    }
}

/// The decimal text of a possibly negative integer.
pub open spec fn int_digits(i: int) -> Seq<char> {
    if i < 0 {
        seq!['-'] + dec_digits((-i) as nat)
    } else {
        dec_digits(i as nat)
    }
}

/// The decimal digits of `n` zero-padded on the left to width 2.
pub open spec fn pad2_digits(n: nat) -> Seq<char> {
    if n < 10 {
        seq!['0'] + dec_digits(n)
    } else {
        dec_digits(n)
    }
}

/// Exactly `width` decimal digits of `n` (assuming `n < 10^width`),
/// zero-padded on the left.
pub open spec fn fixed_digits(n: nat, width: nat) -> Seq<char>
    decreases width,
{
    if width == 0 {
        Seq::<char>::empty()
    } else {
        fixed_digits(n / 10, (width - 1) as nat) + seq![digit_char(n % 10)]
    }
}

fn digit_str(d: u64) -> (s: &'static str)
    requires
        d < 10,
    ensures
        s@ == seq![digit_char(d as nat)],
{
    proof {
        reveal_strlit("0");
        reveal_strlit("1");
        reveal_strlit("2");
        reveal_strlit("3");
        reveal_strlit("4");
        reveal_strlit("5");
        reveal_strlit("6");
        reveal_strlit("7");
        reveal_strlit("8");
        reveal_strlit("9");
    }
    if d == 0 {
        "0"
    } else if d == 1 {
        "1"
    } else if d == 2 {
        "2"
    } else if d == 3 {
        "3"
    } else if d == 4 {
        "4"
    } else if d == 5 {
        "5"
    } else if d == 6 {
        "6"
    } else if d == 7 {
        "7"
    } else if d == 8 {
        "8"
    } else {
        "9"
    }
}

/// The decimal text of `n`.
pub fn u64_to_string(n: u64) -> (s: String)
    ensures
        s@ == dec_digits(n as nat),
    decreases n,
{
    if n < 10 {
        String::from_str(digit_str(n))
    } else {
        let mut s = u64_to_string(n / 10);
        s.append(digit_str(n % 10));
        s
    }
}

/// The decimal text of `n`, with a leading `'-'` when negative.
pub fn i64_to_string(n: i64) -> (s: String)
    ensures
        s@ == int_digits(n as int),
{
    if n >= 0 {
        u64_to_string(n as u64)
    } else {
        proof {
            reveal_strlit("-");
        }
        let mut s = String::from_str("-");
        let mag: u64 = (-(n as i128)) as u64;
        let digits = u64_to_string(mag);
        s.append(digits.as_str());
        s
    }
}

/// The decimal text of `n` zero-padded on the left to width 2.
pub fn u64_to_string_pad2(n: u64) -> (s: String)
    ensures
        s@ == pad2_digits(n as nat),
{
    if n < 10 {
        proof {
            reveal_strlit("0");
        }
        let mut s = String::from_str("0");
        let digits = u64_to_string(n);
        s.append(digits.as_str());
        s
    } else {
        u64_to_string(n)
    }
}

/// The elements of `s` in decimal, separated by commas.
pub open spec fn join_commas(s: Seq<u8>) -> Seq<char>
    decreases s.len(),
{
    if s.len() == 0 {
        Seq::<char>::empty()
    } else if s.len() == 1 {
        dec_digits(s[0] as nat)
    } else {
        join_commas(s.drop_last()) + seq![','] + dec_digits(s.last() as nat)
    }
}

/// Renders `v` as comma-separated decimal numbers.
pub fn join_commas_u8(v: &Vec<u8>) -> (s: String)
    ensures
        s@ == join_commas(v@),
{
    proof {
        reveal_strlit(",");
    }
    let mut s = String::new();
    let mut i: usize = 0;
    while i < v.len()
        invariant
            i <= v.len(),
            s@ == join_commas(v@.take(i as int)),
        decreases v.len() - i,
    {
        proof {
            reveal_strlit(",");
        }
        if i > 0 {
            s.append(",");
        }
        let digits = u64_to_string(v[i] as u64);
        s.append(digits.as_str());
        proof {
            let t = v@.take(i as int + 1);
            assert(t.len() == i + 1);
            assert(t.drop_last() =~= v@.take(i as int));
            assert(t[i as int] == v@[i as int]);
            assert(t.last() == v@[i as int]);
        }
        i = i + 1;
    }
    proof {
        assert(v@.take(v@.len() as int) =~= v@);
    }
    s
}

/// The last `width` fractional digits `f` with trailing zeros removed
/// (at least one digit stays).
pub open spec fn trimmed_frac(f: nat, width: nat) -> Seq<char>
    decreases width,
{
    if width <= 1 {
        fixed_digits(f, width)
    } else if f % 10 == 0 {
        trimmed_frac(f / 10, (width - 1) as nat)
    } else {
        fixed_digits(f, width)
    }
}

/// The exact decimal text of `hz / 10^6`, used to render frequencies in
/// megahertz.
pub open spec fn mhz_chars(hz: nat) -> Seq<char> {
    if hz % 1000000 == 0 {
        dec_digits(hz / 1000000)
    } else {
        dec_digits(hz / 1000000) + seq!['.'] + trimmed_frac((hz % 1000000) as nat, 6)
    }
}

/// Renders `n` as exactly `width` digits, zero-padded on the left.
fn fixed_to_string(n: u64, width: u64) -> (s: String)
    ensures
        s@ == fixed_digits(n as nat, width as nat),
    decreases width,
{
    if width == 0 {
        String::new()
    } else {
        let mut s = fixed_to_string(n / 10, width - 1);
        s.append(digit_str(n % 10));
        s
    }
}

/// Renders a frequency in hertz as exact decimal megahertz text.
pub fn mhz_string(hz: u64) -> (s: String)
    ensures
        s@ == mhz_chars(hz as nat),
{
    let mut s = u64_to_string(hz / 1000000);
    let f0: u64 = hz % 1000000;
    if f0 != 0 {
        proof {
            reveal_strlit(".");
        }
        s.append(".");
        let mut f: u64 = f0;
        let mut width: u64 = 6;
        while width > 1 && f % 10 == 0
            invariant
                1 <= width <= 6,
                trimmed_frac(f0 as nat, 6) == trimmed_frac(f as nat, width as nat),
            decreases width,
        {
            f = f / 10;
            width = width - 1;
        }
        let frac = fixed_to_string(f, width);
        s.append(frac.as_str());
        proof {
            assert(trimmed_frac(f as nat, width as nat) == fixed_digits(f as nat, width as nat));
        }
    }
    s
}

} // verus!
