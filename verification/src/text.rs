use vstd::prelude::*;
use vstd::string::StringExecFns;

verus! {

pub open spec fn digit_char(d: nat) -> char {
    if d == 0 {
        '0'
    } else if d == 1 {
        '1'
    } else if d == 2 {
        '2'
    } else if d == 3 {
        '3'
    } else if d == 4 {
        '4'
    } else if d == 5 {
        '5'
    } else if d == 6 {
        '6'
    } else if d == 7 {
        '7'
    } else if d == 8 {
        '8'
    } else {
        '9'
    }
}

/// The decimal digits of `n`, most significant first, with no leading
/// zero except for `n == 0` itself.
pub open spec fn spec_digits(n: nat) -> Seq<char>
    decreases n,
{
    if n < 10 {
        seq![digit_char(n)]
    } else {
        spec_digits(n / 10).push(digit_char(n % 10))
    }
}

/// The digits of `n` padded with spaces on the left to a width of at
/// least three characters, as the readout renders them.
pub open spec fn spec_padded3(n: nat) -> Seq<char> {
    if n < 10 {
        seq![' ', ' '] + spec_digits(n)
    } else if n < 100 {
        seq![' '] + spec_digits(n)
    } else {
        spec_digits(n)
    }
}

/// A frames-per-second reading in thousandths, rounded to the nearest
/// whole frame, halves away from zero.
pub open spec fn spec_rounded_fps(millifps: u64) -> nat {
    (millifps / 1000 + if millifps % 1000 >= 500 {
        1nat
    } else {
        0nat
    }) as nat
}

/// The readout line for a smoothed reading of `millifps` thousandths:
/// the fixed prefix, then the rounded value padded to three columns.
pub open spec fn spec_fps_label(millifps: u64) -> Seq<char> {
    seq!['F', 'P', 'S', ':', ' '] + spec_padded3(spec_rounded_fps(millifps))
}

fn digit_str(d: u64) -> (s: &'static str)
    requires
        d < 10,
    ensures
        s@ == seq![digit_char(d as nat)],
{
    proof {
        reveal_strlit("0");
        reveal_strlit("1");
        reveal_strlit("2");
        reveal_strlit("3");
        reveal_strlit("4");
        reveal_strlit("5");
        reveal_strlit("6");
        reveal_strlit("7");
        reveal_strlit("8");
        reveal_strlit("9");
    }
    if d == 0 {
        "0"
    } else if d == 1 {
        "1"
    } else if d == 2 {
        "2"
    } else if d == 3 {
        "3"
    } else if d == 4 {
        "4"
    } else if d == 5 {
        "5"
    } else if d == 6 {
        "6"
    } else if d == 7 {
        "7"
    } else if d == 8 {
        "8"
    } else {
        "9"
    }
}

/// Renders `n` in decimal, most significant digit first.
pub fn decimal_string(n: u64) -> (s: String)
    ensures
        s@ == spec_digits(n as nat),
    decreases n,
{
    if n < 10 {
        String::from_str(digit_str(n))
    } else {
        proof {
            assert(n / 10 < n) by (nonlinear_arith)
                requires
                    n >= 10,
            ;
        }
        let mut s = decimal_string(n / 10);
        s.append(digit_str(n % 10));
        proof {
            assert(spec_digits(n as nat) =~= spec_digits((n / 10) as nat) + seq![
                digit_char((n % 10) as nat),
            ]);
        }
        s
    }
}

/// Renders `n` in decimal, padded with spaces on the left to at least
/// three columns.
pub fn padded3_string(n: u64) -> (s: String)
    ensures
        s@ == spec_padded3(n as nat),
{
    let digits = decimal_string(n);
    if n < 10 {
        let mut s = String::from_str("  ");
        proof {
            reveal_strlit("  ");
            assert("  "@ =~= seq![' ', ' ']);
        }
        s.append(digits.as_str());
        s
    } else if n < 100 {
        let mut s = String::from_str(" ");
        proof {
            reveal_strlit(" ");
            assert(" "@ =~= seq![' ']);
        }
        s.append(digits.as_str());
        s
    } else {
        digits
    }
}

/// Rounds a reading in thousandths of a frame per second to the
/// nearest whole frame, halves rounding up.
pub fn rounded_fps(millifps: u64) -> (n: u64)
    ensures
        n as nat == spec_rounded_fps(millifps),
{
    let q = millifps / 1000;
    let r = millifps % 1000;
    proof {
        assert(millifps / 1000 < 0xffff_ffff_ffff_ffff) by (nonlinear_arith);
    }
    if r >= 500 {
        q + 1
    } else {
        q
    }
}

/// The full readout line for a smoothed reading in thousandths.
pub fn fps_label(millifps: u64) -> (s: String)
    ensures
        s@ == spec_fps_label(millifps),
{
    let mut s = String::from_str("FPS: ");
    proof {
        reveal_strlit("FPS: ");
        assert("FPS: "@ =~= seq!['F', 'P', 'S', ':', ' ']);
    }
    let value = padded3_string(rounded_fps(millifps));
    s.append(value.as_str());
    s
}

} // verus!
