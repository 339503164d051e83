//! The elapsed-time prefix that decorates log lines and messages.

use vstd::prelude::*;
use vstd::string::StringExecFns;

verus! {

/// The character of a decimal digit.
pub open spec fn digit_char(d: nat) -> char {
    if d == 0 {
        '0'
    } else if d == 1 {
        '1'
    } else if d == 2 {
        '2'
    } else if d == 3 {
        '3'
    } else if d == 4 {
        '4'
    } else if d == 5 {
        '5'
    } else if d == 6 {
        '6'
    } else if d == 7 {
        '7'
    } else if d == 8 {
        '8'
    } else {
        '9'
    }
}

/// The decimal digits of a number, without leading zeros.
pub open spec fn decimal(n: nat) -> Seq<char>
    decreases n,
{
    if n < 10 {
        seq![digit_char(n)]
    } else {
        decimal(n / 10).push(digit_char(n % 10))
    }
}

/// `text` filled up on the left with `fill` to at least `width` characters.
pub open spec fn pad_left(text: Seq<char>, width: nat, fill: char) -> Seq<char> {
    if text.len() >= width {
        text
    } else {
        Seq::new((width - text.len()) as nat, |i: int| fill) + text
    }
}

/// The prefix for an elapsed time: the whole seconds right-aligned in six
/// columns, a point, the milliseconds in at least three digits, and `s`, all
/// in square brackets.
pub open spec fn timestamp_text(secs: u64, millis: u32) -> Seq<char> {
    seq!['['] + pad_left(decimal(secs as nat), 6, ' ') + seq!['.'] + pad_left(
        decimal(millis as nat),
        3,
        '0',
    ) + seq!['s', ']']
}

fn digit_str(d: u64) -> (s: &'static str)
    requires
        d < 10,
    ensures
        s@ == seq![digit_char(d as nat)],
{
    proof {
        reveal_strlit("0");
        reveal_strlit("1");
        reveal_strlit("2");
        reveal_strlit("3");
        reveal_strlit("4");
        reveal_strlit("5");
        reveal_strlit("6");
        reveal_strlit("7");
        reveal_strlit("8");
        reveal_strlit("9");
    }
    let s = if d == 0 {
        "0"
    } else if d == 1 {
        "1"
    } else if d == 2 {
        "2"
    } else if d == 3 {
        "3"
    } else if d == 4 {
        "4"
    } else if d == 5 {
        "5"
    } else if d == 6 {
        "6"
    } else if d == 7 {
        "7"
    } else if d == 8 {
        "8"
    } else {
        "9"
    };
    assert(s@ =~= seq![digit_char(d as nat)]);
    s
}

fn append_decimal(text: &mut String, n: u64)
    ensures
        final(text)@ == old(text)@ + decimal(n as nat),
    decreases n,
{
    if n < 10 {
        text.append(digit_str(n));
    } else {
        append_decimal(text, n / 10);
        text.append(digit_str(n % 10));
        assert(text@ =~= old(text)@ + decimal(n as nat));
    }
}

/// A larger number has at least as many digits.
proof fn lemma_decimal_len_monotone(n: nat, m: nat)
    requires
        n <= m,
    ensures
        decimal(n).len() <= decimal(m).len(),
    decreases n,
{
    if n >= 10 {
        lemma_decimal_len_monotone(n / 10, m / 10);
    }
}

/// A tenth of a 64-bit number has at most nineteen digits.
proof fn lemma_decimal_len_of_tenth(n: u64)
    ensures
        decimal((n / 10) as nat).len() <= 19,
{
    let top: nat = 1844674407370955161;
    assert(decimal(top).len() == 19) by {
        reveal_with_fuel(decimal, 20);
    }
    lemma_decimal_len_monotone((n / 10) as nat, top);
}

fn decimal_len(n: u64) -> (len: usize)
    ensures
        len == decimal(n as nat).len(),
        1 <= len <= 20,
    decreases n,
{
    if n < 10 {
        1
    } else {
        let shorter = decimal_len(n / 10);
        proof {
            lemma_decimal_len_of_tenth(n);
        }
        shorter + 1
    }
}

fn append_padded(text: &mut String, n: u64, width: usize, zero_fill: bool)
    ensures
        final(text)@ == old(text)@ + pad_left(
            decimal(n as nat),
            width as nat,
            if zero_fill {
                '0'
            } else {
                ' '
            },
        ),
{
    let ghost fill = if zero_fill {
        '0'
    } else {
        ' '
    };
    let len = decimal_len(n);
    let missing: usize = if len < width {
        width - len
    } else {
        0
    };
    let mut k: usize = 0;
    assert(text@ =~= old(text)@ + Seq::new(0, |i: int| fill));
    while k < missing
        invariant
            k <= missing,
            text@ == old(text)@ + Seq::new(k as nat, |i: int| fill),
            fill == (if zero_fill {
                '0'
            } else {
                ' '
            }),
        decreases missing - k,
    {
        proof {
            reveal_strlit("0");
            reveal_strlit(" ");
        }
        if zero_fill {
            text.append("0");
        } else {
            text.append(" ");
        }
        assert(text@ =~= old(text)@ + Seq::new((k + 1) as nat, |i: int| fill));
        k += 1;
    }
    append_decimal(text, n);
    assert(text@ =~= old(text)@ + pad_left(decimal(n as nat), width as nat, fill));
}

/// Formats the prefix for an elapsed time of `secs` whole seconds and
/// `millis` milliseconds.
pub fn timestamp_prefix(secs: u64, millis: u32) -> (text: String)
    ensures
        text@ == timestamp_text(secs, millis),
{
    proof {
        reveal_strlit("[");
        reveal_strlit(".");
        reveal_strlit("s]");
    }
    let mut text = String::from_str("[");
    append_padded(&mut text, secs, 6, false);
    text.append(".");
    append_padded(&mut text, millis as u64, 3, true);
    text.append("s]");
    assert(text@ =~= timestamp_text(secs, millis));
    text
}

} // verus!
