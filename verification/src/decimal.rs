//! Decimal numbers written as runs of ASCII digits: the value a run denotes
//! and its conversion to machine integers without overflow.

use crate::scan::{all_in_class, run_end, CharClass};
use vstd::prelude::*;
use vstd::string::StringExecFns;

verus! {

/// The number that the digit `c` stands for.
pub open spec fn digit_value(c: char) -> nat {
    (c as int - '0' as int) as nat
}

/// The number that the digits of `s` denote in base ten; 0 for the empty run.
pub open spec fn decimal_value(s: Seq<char>) -> nat
    decreases s.len(),
{
    if s.len() == 0 {
        0
    } else {
        decimal_value(s.drop_last()) * 10 + digit_value(s.last())
    }
}

/// The count that a digit run denotes: none for the empty run and for a
/// number that does not fit in a `usize`.
pub open spec fn count_of(run: Seq<char>) -> Option<usize> {
    if run.len() == 0 || decimal_value(run) > usize::MAX {
        None
    } else {
        Some(decimal_value(run) as usize)
    }
}

/// The `i32` that `s` denotes: an optional sign, `+` or `-`, then one or more
/// ASCII digits and nothing else, with a value inside the range of `i32`.
pub open spec fn parse_i32_spec(s: Seq<char>) -> Option<i32> {
    let signed = s.len() > 0 && (s[0] == '+' || s[0] == '-');
    let negative = s.len() > 0 && s[0] == '-';
    let body = if signed {
        s.drop_first()
    } else {
        s
    };
    let magnitude = decimal_value(body) as int;
    let value = if negative {
        -magnitude
    } else {
        magnitude
    };
    if body.len() == 0 || !all_in_class(body, CharClass::Digit) {
        None
    } else if i32::MIN <= value <= i32::MAX {
        Some(value as i32)
    } else {
        None
    }
}

/// The digit that stands for `d`, a number below ten.
pub open spec fn digit_char(d: nat) -> char {
    (d + '0' as nat) as char
}

/// `n` written in base ten, without leading zeros.
pub open spec fn decimal_text(n: nat) -> Seq<char>
    decreases n,
{
    if n < 10 {
        seq![digit_char(n)]
    } else {
        decimal_text(n / 10).push(digit_char(n % 10))
    }
}

/// `v` written in base ten, with a minus sign in front of a negative number.
pub open spec fn signed_decimal_text(v: int) -> Seq<char> {
    if v < 0 {
        seq!['-'] + decimal_text((-v) as nat)
    } else {
        decimal_text(v as nat)
    }
}

/// Writing a number and reading it back gives the number: the text of `n` is
/// a run of digits, not empty, that denotes `n`.
pub proof fn lemma_decimal_text_round_trip(n: nat)
    ensures
        decimal_text(n).len() >= 1,
        all_in_class(decimal_text(n), CharClass::Digit),
        decimal_value(decimal_text(n)) == n,
    decreases n,
{
    if n >= 10 {
        lemma_decimal_text_round_trip(n / 10);
        let head = decimal_text(n / 10);
        let text = decimal_text(n);
        assert(text.drop_last() =~= head);
        assert(text.last() == digit_char(n % 10));
        assert forall|i: int| 0 <= i < text.len() implies crate::scan::in_class(
            #[trigger] text[i],
            CharClass::Digit,
        ) by {
            if i < head.len() {
                assert(text[i] == head[i]);
            }
        }
    } else {
        let text = decimal_text(n);
        assert(text.drop_last() =~= Seq::<char>::empty());
        assert(decimal_value(text.drop_last()) == 0);
    }
}

/// A prefix of a digit run never denotes more than the whole run.
pub proof fn lemma_decimal_value_prefix(s: Seq<char>, k: int)
    requires
        0 <= k <= s.len(),
    ensures
        decimal_value(s.take(k)) <= decimal_value(s),
    decreases s.len(),
{
    if k == s.len() {
        assert(s.take(k) =~= s);
    } else {
        assert(s.drop_last().take(k) =~= s.take(k));
        lemma_decimal_value_prefix(s.drop_last(), k);
    }
}

/// The number that the digits `chars[from..to]` denote, as long as it does
/// not exceed `limit`.
pub fn bounded_decimal(chars: &Vec<char>, from: usize, to: usize, limit: u64) -> (r: Option<u64>)
    requires
        from <= to <= chars.len(),
        all_in_class(chars@.subrange(from as int, to as int), CharClass::Digit),
    ensures
        r == if decimal_value(chars@.subrange(from as int, to as int)) <= limit {
            Some(decimal_value(chars@.subrange(from as int, to as int)) as u64)
        } else {
            None
        },
{
    let ghost run = chars@.subrange(from as int, to as int);
    let mut acc: u64 = 0;
    let mut i: usize = from;
    while i < to
        invariant
            from <= i <= to <= chars.len(),
            run == chars@.subrange(from as int, to as int),
            all_in_class(run, CharClass::Digit),
            acc == decimal_value(run.take(i - from)),
            acc <= limit,
        decreases to - i,
    {
        let c: char = chars[i];
        proof {
            assert(run[i - from] == c);
            assert(run.take(i - from + 1).drop_last() =~= run.take(i - from));
            assert(run.take(i - from + 1).last() == c);
            lemma_decimal_value_prefix(run, i - from + 1);
        }
        let digit: u64 = (c as u32 - '0' as u32) as u64;
        let next: Option<u64> = match acc.checked_mul(10) {
            Some(shifted) => shifted.checked_add(digit),
            None => None,
        };
        match next {
            Some(value) => {
                if value > limit {
                    return None;
                }
                acc = value;
            },
            None => {
                return None;
            },
        }
        i = i + 1;
    }
    proof {
        assert(run.take(to - from) =~= run);
    }
    Some(acc)
}

/// The count that the digit run `chars[from..to]` denotes.
pub fn count_of_run(chars: &Vec<char>, from: usize, to: usize) -> (r: Option<usize>)
    requires
        from <= to <= chars.len(),
        all_in_class(chars@.subrange(from as int, to as int), CharClass::Digit),
    ensures
        r == count_of(chars@.subrange(from as int, to as int)),
{
    if from == to {
        return None;
    }
    match bounded_decimal(chars, from, to, usize::MAX as u64) {
        Some(value) => Some(value as usize),
        None => None,
    }
}

/// The text of one digit.
fn digit_text(d: u64) -> (r: &'static str)
    requires
        d < 10,
    ensures
        r@ == seq![digit_char(d as nat)],
{
    proof {
        reveal_strlit("0");
        reveal_strlit("1");
        reveal_strlit("2");
        reveal_strlit("3");
        reveal_strlit("4");
        reveal_strlit("5");
        reveal_strlit("6");
        reveal_strlit("7");
        reveal_strlit("8");
        reveal_strlit("9");
    }
    let r: &'static str = if d == 0 {
        "0"
    } else if d == 1 {
        "1"
    } else if d == 2 {
        "2"
    } else if d == 3 {
        "3"
    } else if d == 4 {
        "4"
    } else if d == 5 {
        "5"
    } else if d == 6 {
        "6"
    } else if d == 7 {
        "7"
    } else if d == 8 {
        "8"
    } else {
        "9"
    };
    assert(r@ =~= seq![digit_char(d as nat)]);
    r
}

/// Appends `n`, written in base ten, to `out`.
pub fn append_decimal(out: &mut String, n: u64)
    ensures
        final(out)@ == old(out)@ + decimal_text(n as nat),
    decreases n,
{
    if n >= 10 {
        append_decimal(out, n / 10);
    }
    out.append(digit_text(n % 10));
    proof {
        if n >= 10 {
            assert(out@ =~= old(out)@ + decimal_text(n as nat));
        }
    }
}

/// Appends `v`, written in base ten with its sign, to `out`.
pub fn append_signed_decimal(out: &mut String, v: i32)
    ensures
        final(out)@ == old(out)@ + signed_decimal_text(v as int),
{
    if v < 0 {
        out.append("-");
        proof {
            reveal_strlit("-");
            assert("-"@ =~= seq!['-']);
        }
        append_decimal(out, (0 - v as i64) as u64);
        assert(out@ =~= old(out)@ + signed_decimal_text(v as int));
    } else {
        append_decimal(out, v as u64);
    }
}

/// Reads `chars` as an `i32` in decimal notation.
pub fn parse_i32(chars: &Vec<char>) -> (r: Option<i32>)
    ensures
        r == parse_i32_spec(chars@),
{
    let len: usize = chars.len();
    let negative: bool = len > 0 && chars[0] == '-';
    let signed: bool = len > 0 && (chars[0] == '+' || chars[0] == '-');
    let start: usize = if signed {
        1
    } else {
        0
    };
    let ghost body = if signed {
        chars@.drop_first()
    } else {
        chars@
    };
    proof {
        assert(chars@.skip(start as int) =~= body);
        assert(chars@.subrange(start as int, len as int) =~= body);
    }
    if start == len {
        return None;
    }
    let end: usize = run_end(chars, start, CharClass::Digit);
    proof {
        crate::scan::lemma_run_len_is_leading_run(body, CharClass::Digit);
    }
    if end != len {
        return None;
    }
    let limit: u64 = if negative {
        2147483648
    } else {
        2147483647
    };
    match bounded_decimal(chars, start, len, limit) {
        Some(magnitude) => {
            if negative {
                Some((0 - magnitude as i64) as i32)
            } else {
                Some(magnitude as i32)
            }
        },
        None => None,
    }
}

} // verus!
