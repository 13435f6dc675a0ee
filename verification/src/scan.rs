//! Character classes and maximal runs: the scanning primitives under the
//! command parser and the typed form accessors.

use vstd::prelude::*;

verus! {

/// The classes of characters that a scan tells apart.
#[derive(Clone, Copy, Debug, PartialEq, Eq, Structural)]
pub enum CharClass {
    /// An ASCII decimal digit, `0` to `9`.
    Digit,
    /// Any character that is not an ASCII decimal digit.
    NonDigit,
    /// A character with the Unicode property White_Space.
    Whitespace,
}

/// `c` is one of the ten ASCII decimal digits.
pub open spec fn is_digit(c: char) -> bool {
    '0' <= c && c <= '9'
}

/// `c` has the Unicode property White_Space.
pub open spec fn is_whitespace(c: char) -> bool {
    ||| ('\u{0009}' <= c && c <= '\u{000D}')
    ||| c == ' '
    ||| c == '\u{0085}'
    ||| c == '\u{00A0}'
    ||| c == '\u{1680}'
    ||| ('\u{2000}' <= c && c <= '\u{200A}')
    ||| c == '\u{2028}'
    ||| c == '\u{2029}'
    ||| c == '\u{202F}'
    ||| c == '\u{205F}'
    ||| c == '\u{3000}'
}

/// `c` belongs to `class`.
pub open spec fn in_class(c: char, class: CharClass) -> bool {
    match class {
        CharClass::Digit => is_digit(c),
        CharClass::NonDigit => !is_digit(c),
        CharClass::Whitespace => is_whitespace(c),
    }
}

/// Every character of `s` belongs to `class`.
pub open spec fn all_in_class(s: Seq<char>, class: CharClass) -> bool {
    forall|i: int| 0 <= i < s.len() ==> in_class(#[trigger] s[i], class)
}

/// `n` is the length of the maximal run of `class` at the start of `s`: the
/// first `n` characters belong to the class and the one after them, if there
/// is one, does not.
pub open spec fn is_leading_run(s: Seq<char>, class: CharClass, n: nat) -> bool {
    &&& n <= s.len()
    &&& forall|i: int| 0 <= i < n ==> in_class(#[trigger] s[i], class)
    &&& (n < s.len() ==> !in_class(s[n as int], class))
}

/// `n` is the length of the maximal run of `class` at the end of `s`.
pub open spec fn is_trailing_run(s: Seq<char>, class: CharClass, n: nat) -> bool {
    &&& n <= s.len()
    &&& forall|i: int| s.len() - n <= i < s.len() ==> in_class(#[trigger] s[i], class)
    &&& (n < s.len() ==> !in_class(s[s.len() - n - 1], class))
}

/// Length of the maximal run of `class` at the start of `s`.
pub open spec fn run_len(s: Seq<char>, class: CharClass) -> nat
    decreases s.len(),
{
    if s.len() > 0 && in_class(s[0], class) {
        1 + run_len(s.drop_first(), class)
    } else {
        0
    }
}

/// Length of the maximal run of `class` at the end of `s`.
pub open spec fn trailing_run_len(s: Seq<char>, class: CharClass) -> nat
    decreases s.len(),
{
    if s.len() > 0 && in_class(s.last(), class) {
        1 + trailing_run_len(s.drop_last(), class)
    } else {
        0
    }
}

/// `s` without its leading and trailing whitespace.
pub open spec fn trimmed(s: Seq<char>) -> Seq<char> {
    let rest = s.skip(run_len(s, CharClass::Whitespace) as int);
    rest.take(rest.len() - trailing_run_len(rest, CharClass::Whitespace))
}

/// `run_len` is the maximal leading run.
pub proof fn lemma_run_len_is_leading_run(s: Seq<char>, class: CharClass)
    ensures
        is_leading_run(s, class, run_len(s, class)),
    decreases s.len(),
{
    if s.len() > 0 && in_class(s[0], class) {
        let rest = s.drop_first();
        lemma_run_len_is_leading_run(rest, class);
        let n = run_len(s, class);
        assert forall|i: int| 0 <= i < n implies in_class(#[trigger] s[i], class) by {
            if i > 0 {
                assert(s[i] == rest[i - 1]);
            }
        }
        if n < s.len() {
            assert(s[n as int] == rest[n - 1]);
        }
    }
}

/// There is only one maximal leading run: any `n` that is one equals `run_len`.
pub proof fn lemma_leading_run_unique(s: Seq<char>, class: CharClass, n: nat)
    requires
        is_leading_run(s, class, n),
    ensures
        n == run_len(s, class),
    decreases s.len(),
{
    if n == 0 {
    } else {
        assert(in_class(s[0], class));
        let rest = s.drop_first();
        assert forall|i: int| 0 <= i < n - 1 implies in_class(#[trigger] rest[i], class) by {
            assert(rest[i] == s[i + 1]);
        }
        if n - 1 < rest.len() {
            assert(rest[n - 1] == s[n as int]);
        }
        lemma_leading_run_unique(rest, class, (n - 1) as nat);
    }
}

/// `trailing_run_len` is the maximal trailing run.
pub proof fn lemma_trailing_run_len_is_trailing_run(s: Seq<char>, class: CharClass)
    ensures
        is_trailing_run(s, class, trailing_run_len(s, class)),
    decreases s.len(),
{
    if s.len() > 0 && in_class(s.last(), class) {
        let rest = s.drop_last();
        lemma_trailing_run_len_is_trailing_run(rest, class);
        let n = trailing_run_len(s, class);
        assert forall|i: int| s.len() - n <= i < s.len() implies in_class(
            #[trigger] s[i],
            class,
        ) by {
            if i < s.len() - 1 {
                assert(s[i] == rest[i]);
            }
        }
        if n < s.len() {
            assert(s[s.len() - n - 1] == rest[rest.len() - (n - 1) - 1]);
        }
    }
}

/// There is only one maximal trailing run.
pub proof fn lemma_trailing_run_unique(s: Seq<char>, class: CharClass, n: nat)
    requires
        is_trailing_run(s, class, n),
    ensures
        n == trailing_run_len(s, class),
    decreases s.len(),
{
    if n == 0 {
    } else {
        assert(in_class(s[s.len() - 1], class));
        let rest = s.drop_last();
        assert forall|i: int| rest.len() - (n - 1) <= i < rest.len() implies in_class(
            #[trigger] rest[i],
            class,
        ) by {
            assert(rest[i] == s[i]);
        }
        if n - 1 < rest.len() {
            assert(rest[rest.len() - (n - 1) - 1] == s[s.len() - n - 1]);
        }
        lemma_trailing_run_unique(rest, class, (n - 1) as nat);
    }
}

/// Tells whether `c` belongs to `class`.
pub fn char_in_class(c: char, class: CharClass) -> (b: bool)
    ensures
        b == in_class(c, class),
{
    match class {
        CharClass::Digit => '0' <= c && c <= '9',
        CharClass::NonDigit => !('0' <= c && c <= '9'),
        CharClass::Whitespace => {
            ('\u{0009}' <= c && c <= '\u{000D}') || c == ' ' || c == '\u{0085}' || c == '\u{00A0}'
                || c == '\u{1680}' || ('\u{2000}' <= c && c <= '\u{200A}') || c == '\u{2028}'
                || c == '\u{2029}' || c == '\u{202F}' || c == '\u{205F}' || c == '\u{3000}'
        },
    }
}

/// The characters of `s`, in order.
pub fn chars_of(s: &str) -> (chars: Vec<char>)
    ensures
        chars@ == s@,
{
    let mut chars: Vec<char> = Vec::new();
    for c in it: s.chars()
        invariant
            chars@ == it.seq().take(it.index() as int),
            it.seq() == s@,
    {
        chars.push(c);
    }
    chars
}

/// Scans forward from `start` over the maximal run of `class` and returns the
/// index just past it.
pub fn run_end(chars: &Vec<char>, start: usize, class: CharClass) -> (end: usize)
    requires
        start <= chars.len(),
    ensures
        start <= end <= chars.len(),
        end - start == run_len(chars@.skip(start as int), class),
        all_in_class(chars@.subrange(start as int, end as int), class),
        end < chars.len() ==> !in_class(chars@[end as int], class),
{
    let mut end: usize = start;
    while end < chars.len() && char_in_class(chars[end], class)
        invariant
            start <= end <= chars.len(),
            forall|i: int| start <= i < end ==> in_class(#[trigger] chars@[i], class),
        decreases chars.len() - end,
    {
        end = end + 1;
    }
    proof {
        let s = chars@.skip(start as int);
        let n = (end - start) as nat;
        assert forall|i: int| 0 <= i < n implies in_class(#[trigger] s[i], class) by {
            assert(s[i] == chars@[start + i]);
        }
        lemma_leading_run_unique(s, class, n);
    }
    end
}

/// Scans backward from `end` over the maximal run of `class` that ends there,
/// never going below `floor`, and returns the index where that run starts.
pub fn run_start(chars: &Vec<char>, floor: usize, end: usize, class: CharClass) -> (start: usize)
    requires
        floor <= end <= chars.len(),
    ensures
        floor <= start <= end,
        end - start == trailing_run_len(chars@.subrange(floor as int, end as int), class),
{
    let mut start: usize = end;
    while start > floor && char_in_class(chars[start - 1], class)
        invariant
            floor <= start <= end <= chars.len(),
            forall|i: int| start <= i < end ==> in_class(#[trigger] chars@[i], class),
        decreases start,
    {
        start = start - 1;
    }
    proof {
        let s = chars@.subrange(floor as int, end as int);
        let n = (end - start) as nat;
        assert forall|i: int| s.len() - n <= i < s.len() implies in_class(
            #[trigger] s[i],
            class,
        ) by {
            assert(s[i] == chars@[floor + i]);
        }
        lemma_trailing_run_unique(s, class, n);
    }
    start
}

/// The part of `chars` from `from` up to, not including, `to`.
pub fn slice_of(chars: &Vec<char>, from: usize, to: usize) -> (part: Vec<char>)
    requires
        from <= to <= chars.len(),
    ensures
        part@ == chars@.subrange(from as int, to as int),
{
    let mut part: Vec<char> = Vec::new();
    let mut i: usize = from;
    while i < to
        invariant
            from <= i <= to <= chars.len(),
            part@ == chars@.subrange(from as int, i as int),
        decreases to - i,
    {
        part.push(chars[i]);
        i = i + 1;
    }
    part
}

/// The characters of `s` without leading and trailing whitespace.
pub fn trim(chars: &Vec<char>) -> (r: Vec<char>)
    ensures
        r@ == trimmed(chars@),
{
    let from = run_end(chars, 0, CharClass::Whitespace);
    let to = run_start(chars, from, chars.len(), CharClass::Whitespace);
    proof {
        assert(chars@.skip(0) =~= chars@);
        assert(chars@.subrange(from as int, chars.len() as int) =~= chars@.skip(from as int));
        let rest = chars@.skip(from as int);
        assert(rest.take(rest.len() - (chars.len() - to)) =~= chars@.subrange(
            from as int,
            to as int,
        ));
    }
    slice_of(chars, from, to)
}

} // verus!
