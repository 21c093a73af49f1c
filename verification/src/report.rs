use vstd::prelude::*;

use crate::ResourceUse;

verus! {

/// Milliseconds converted to hundredths of a second, rounding to nearest
/// with halves away from zero. Rounding, not truncation, is the documented
/// choice here, for fidelity to conventional timing tools.
pub open spec fn spec_hundredths(ms: int) -> int {
    if ms % 10 >= 5 {
        ms / 10 + 1
    } else {
        ms / 10
    }
}

/// The decimal digit character for `d`.
pub open spec fn digit_char(d: int) -> char {
    if d == 0 {
        '0'
    } else if d == 1 {
        '1'
    } else if d == 2 {
        '2'
    } else if d == 3 {
        '3'
    } else if d == 4 {
        '4'
    } else if d == 5 {
        '5'
    } else if d == 6 {
        '6'
    } else if d == 7 {
        '7'
    } else if d == 8 {
        '8'
    } else {
        '9'
    }
}

/// The decimal digits of `n`, most significant first, with no leading
/// zeros (a single `'0'` for zero).
pub open spec fn dec_digits(n: int) -> Seq<char>
    decreases n,
{
    if n <= 9 {
        seq![digit_char(n)]
    } else {
        dec_digits(n / 10) + seq![digit_char(n % 10)]
    }
}

/// `h` hundredths of a second rendered as seconds with exactly two digits
/// after the point.
pub open spec fn seconds_chars(h: int) -> Seq<char> {
    dec_digits(h / 100) + "."@ + seq![digit_char((h / 10) % 10), digit_char(h % 10)]
}

/// The full three-line report for an elapsed time of `ms` milliseconds:
/// the rounded wall-clock seconds on the `real` line, and `user` and `sys`
/// lines fixed at zero, since no CPU-time accounting is done.
pub open spec fn report_chars(ms: int) -> Seq<char> {
    "real "@ + seconds_chars(spec_hundredths(ms)) + "\nuser 0.00\nsys 0.00\n"@
}

/// Convert a duration in milliseconds to hundredths of a second, rounding
/// to nearest with halves away from zero.
pub fn hundredths(ms: u128) -> (r: u128)
    ensures
        r as int == spec_hundredths(ms as int),
{
    let q: u128 = ms / 10;
    let rem: u128 = ms % 10;
    if rem >= 5 {
        q + 1
    } else {
        q
    }
}

/// The one-character string for the decimal digit `d`.
fn digit_str(d: u128) -> (r: &'static str)
    requires
        d < 10,
    ensures
        r@ == seq![digit_char(d as int)],
{
    if d == 0 {
        proof {
            reveal_strlit("0");
            assert("0"@ =~= seq![digit_char(0)]);
        }
        "0"
    } else if d == 1 {
        proof {
            reveal_strlit("1");
            assert("1"@ =~= seq![digit_char(1)]);
        }
        "1"
    } else if d == 2 {
        proof {
            reveal_strlit("2");
            assert("2"@ =~= seq![digit_char(2)]);
        }
        "2"
    } else if d == 3 {
        proof {
            reveal_strlit("3");
            assert("3"@ =~= seq![digit_char(3)]);
        }
        "3"
    } else if d == 4 {
        proof {
            reveal_strlit("4");
            assert("4"@ =~= seq![digit_char(4)]);
        }
        "4"
    } else if d == 5 {
        proof {
            reveal_strlit("5");
            assert("5"@ =~= seq![digit_char(5)]);
        }
        "5"
    } else if d == 6 {
        proof {
            reveal_strlit("6");
            assert("6"@ =~= seq![digit_char(6)]);
        }
        "6"
    } else if d == 7 {
        proof {
            reveal_strlit("7");
            assert("7"@ =~= seq![digit_char(7)]);
        }
        "7"
    } else if d == 8 {
        proof {
            reveal_strlit("8");
            assert("8"@ =~= seq![digit_char(8)]);
        }
        "8"
    } else {
        proof {
            reveal_strlit("9");
            assert("9"@ =~= seq![digit_char(d as int)]);
        }
        "9"
    }
}

/// Append the decimal digits of `n` to `s`, most significant first.
fn push_digits(s: &mut String, n: u128)
    ensures
        final(s)@ == old(s)@ + dec_digits(n as int),
    decreases n,
{
    if n >= 10 {
        push_digits(s, n / 10);
        let d = digit_str(n % 10);
        s.append(d);
        proof {
            assert(s@ =~= old(s)@ + dec_digits(n as int));
        }
    } else {
        let d = digit_str(n);
        s.append(d);
        proof {
            assert(s@ =~= old(s)@ + dec_digits(n as int));
        }
    }
}

/// Render the three-line report for an elapsed time of `ms` milliseconds.
pub fn render_report(ms: u128) -> (r: String)
    ensures
        r@ == report_chars(ms as int),
{
    let h: u128 = hundredths(ms);
    let mut s: String = "real ".to_owned();
    push_digits(&mut s, h / 100);
    s.append(".");
    let tens = digit_str((h / 10) % 10);
    s.append(tens);
    let ones = digit_str(h % 10);
    s.append(ones);
    s.append("\nuser 0.00\nsys 0.00\n");
    proof {
        assert(s@ =~= report_chars(ms as int));
    }
    s
}

/// Law: whatever the elapsed time, the `user` and `sys` fields of the
/// report are exactly `0.00`: every report ends with the same two zero
/// lines, and its first line is the `real` line.
pub proof fn lemma_user_sys_always_zero(ms: int)
    ensures
        report_chars(ms).len() >= 24,
        report_chars(ms).skip(report_chars(ms).len() - 19) == "user 0.00\nsys 0.00\n"@,
        report_chars(ms).take(5) == "real "@,
{
    reveal_strlit("real ");
    reveal_strlit(".");
    reveal_strlit("\nuser 0.00\nsys 0.00\n");
    reveal_strlit("user 0.00\nsys 0.00\n");
    assert(report_chars(ms).skip(report_chars(ms).len() - 19) =~= "user 0.00\nsys 0.00\n"@);
    assert(report_chars(ms).take(5) =~= "real "@);
}

/// Law: rounding to hundredths never misstates a measured time by more
/// than half a hundredth of a second: ten times the reported hundredths
/// stays within five milliseconds of the measured milliseconds.
pub proof fn lemma_hundredths_faithful(ms: int)
    requires
        ms >= 0,
    ensures
        10 * spec_hundredths(ms) - ms <= 5,
        ms - 10 * spec_hundredths(ms) <= 4,
{
    vstd::arithmetic::div_mod::lemma_fundamental_div_mod(ms, 10);
}

/// Law: a longer measured time never reports a shorter value: the
/// conversion to hundredths of a second is monotone.
pub proof fn lemma_hundredths_monotone(a: int, b: int)
    requires
        0 <= a <= b,
    ensures
        spec_hundredths(a) <= spec_hundredths(b),
{
    vstd::arithmetic::div_mod::lemma_div_is_ordered(a, b, 10);
    vstd::arithmetic::div_mod::lemma_fundamental_div_mod(a, 10);
    vstd::arithmetic::div_mod::lemma_fundamental_div_mod(b, 10);
}

/// The report for a completed timing interval.
pub fn summarize(resource_use: &ResourceUse) -> (r: String)
    ensures
        r@ == report_chars(resource_use.elapsed_millis() as int),
{
    render_report(resource_use.elapsed())
}

} // verus!
