//! Decimal rendering of counters: the `mm:ss` countdown text and the
//! zero-padded fields used by the journal header and filename.

use vstd::prelude::*;
use vstd::string::*;

verus! {

/// The character for one decimal digit.
pub open spec fn digit_char(d: nat) -> char
    recommends
        d < 10,
{
    if d == 0 {
        '0'
    } else if d == 1 {
        '1'
    } else if d == 2 {
        '2'
    } else if d == 3 {
        '3'
    } else if d == 4 {
        '4'
    } else if d == 5 {
        '5'
    } else if d == 6 {
        '6'
    } else if d == 7 {
        '7'
    } else if d == 8 {
        '8'
    } else {
        '9'
    }
}

/// The decimal digits of `n`, most significant first, with no leading zeros
/// (a single `'0'` for zero itself).
pub open spec fn dec_digits(n: nat) -> Seq<char>
    decreases n,
{
    if n < 10 {
        seq![digit_char(n)]
    } else {
        dec_digits(n / 10).push(digit_char(n % 10))
    }
}

/// The decimal digits of `n`, left-padded with `'0'` to at least `width`
/// characters.
pub open spec fn padded(width: nat, n: nat) -> Seq<char> {
    if dec_digits(n).len() >= width {
        dec_digits(n)
    } else {
        Seq::new((width - dec_digits(n).len()) as nat, |i: int| '0') + dec_digits(n)
    }
}

/// The countdown text for a second count: minutes and leftover seconds, each
/// zero-padded to two digits, separated by a colon. Minutes above 99 keep all
/// their digits.
pub open spec fn mmss(total: nat) -> Seq<char> {
    padded(2, total / 60) + seq![':'] + padded(2, total % 60)
}

/// How many digits a number has.
pub proof fn lemma_dec_digits_len(n: nat)
    ensures
        n < 10 ==> dec_digits(n).len() == 1,
        10 <= n < 100 ==> dec_digits(n).len() == 2,
        100 <= n < 1000 ==> dec_digits(n).len() == 3,
        n >= 1000 ==> dec_digits(n).len() >= 4,
    decreases n,
{
    if n >= 10 {
        lemma_dec_digits_len(n / 10);
    }
}

/// The one-character string for one decimal digit.
fn digit_str(d: u64) -> (r: &'static str)
    requires
        d < 10,
    ensures
        r@ == seq![digit_char(d as nat)],
{
    if d == 0 {
        proof {
            reveal_strlit("0");
            assert("0"@ =~= seq!['0']);
        }
        "0"
    } else if d == 1 {
        proof {
            reveal_strlit("1");
            assert("1"@ =~= seq!['1']);
        }
        "1"
    } else if d == 2 {
        proof {
            reveal_strlit("2");
            assert("2"@ =~= seq!['2']);
        }
        "2"
    } else if d == 3 {
        proof {
            reveal_strlit("3");
            assert("3"@ =~= seq!['3']);
        }
        "3"
    } else if d == 4 {
        proof {
            reveal_strlit("4");
            assert("4"@ =~= seq!['4']);
        }
        "4"
    } else if d == 5 {
        proof {
            reveal_strlit("5");
            assert("5"@ =~= seq!['5']);
        }
        "5"
    } else if d == 6 {
        proof {
            reveal_strlit("6");
            assert("6"@ =~= seq!['6']);
        }
        "6"
    } else if d == 7 {
        proof {
            reveal_strlit("7");
            assert("7"@ =~= seq!['7']);
        }
        "7"
    } else if d == 8 {
        proof {
            reveal_strlit("8");
            assert("8"@ =~= seq!['8']);
        }
        "8"
    } else {
        proof {
            reveal_strlit("9");
            assert("9"@ =~= seq!['9']);
        }
        "9"
    }
}

/// Appends the decimal digits of `n` to `s`.
pub(crate) fn push_dec(s: &mut String, n: u64)
    ensures
        final(s)@ == old(s)@ + dec_digits(n as nat),
    decreases n,
{
    if n >= 10 {
        push_dec(s, n / 10);
    }
    s.append(digit_str(n % 10));
    proof {
        assert(s@ =~= old(s)@ + dec_digits(n as nat));
    }
}

/// Appends the decimal digits of `n` to `s`, zero-padded to at least `width`
/// characters; `width` is at most 4.
pub(crate) fn push_padded(s: &mut String, width: u64, n: u64)
    requires
        width <= 4,
    ensures
        final(s)@ == old(s)@ + padded(width as nat, n as nat),
{
    proof {
        lemma_dec_digits_len(n as nat);
        reveal_strlit("0");
        reveal_strlit("00");
        reveal_strlit("000");
    }
    let digits: u64 = if n < 10 {
        1
    } else if n < 100 {
        2
    } else if n < 1000 {
        3
    } else {
        4
    };
    if digits < width {
        let pad: u64 = width - digits;
        if pad == 1 {
            s.append("0");
        } else if pad == 2 {
            s.append("00");
        } else {
            s.append("000");
        }
        proof {
            assert(s@ =~= old(s)@ + Seq::new(pad as nat, |i: int| '0'));
        }
    }
    push_dec(s, n);
    proof {
        assert(s@ =~= old(s)@ + padded(width as nat, n as nat));
    }
}

/// Renders a second count as zero-padded `mm:ss` text.
pub fn format_mmss(total_secs: u64) -> (r: String)
    ensures
        r@ == mmss(total_secs as nat),
{
    let mut s = String::new();
    push_padded(&mut s, 2, total_secs / 60);
    proof {
        reveal_strlit(":");
    }
    s.append(":");
    proof {
        assert(s@ =~= padded(2, total_secs as nat / 60) + seq![':']);
    }
    push_padded(&mut s, 2, total_secs % 60);
    proof {
        assert(s@ =~= mmss(total_secs as nat));
    }
    s
}

/// The countdown text is a function of the second count alone: any two
/// strings that meet `format_mmss`'s contract for the same count are equal.
pub proof fn lemma_format_mmss_deterministic(a: Seq<char>, b: Seq<char>, total_secs: u64)
    requires
        a == mmss(total_secs as nat),
        b == mmss(total_secs as nat),
    ensures
        a == b,
{
}

} // verus!
