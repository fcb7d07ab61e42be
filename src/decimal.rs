use vstd::prelude::*;

verus! {

/// The character of decimal digit `d`.
pub open spec fn digit_char(d: nat) -> char {
    if d == 0 {
        '0'
    } else if d == 1 {
        '1'
    } else if d == 2 {
        '2'
    } else if d == 3 {
        '3'
    } else if d == 4 {
        '4'
    } else if d == 5 {
        '5'
    } else if d == 6 {
        '6'
    } else if d == 7 {
        '7'
    } else if d == 8 {
        '8'
    } else {
        '9'
    }
}

pub open spec fn is_digit(c: char) -> bool {
    '0' <= c && c <= '9'
}

/// The value of digit character `c`.
pub open spec fn digit_value(c: char) -> nat {
    (c as int - '0' as int) as nat
}

/// `s` is a non-empty run of decimal digits.
pub open spec fn all_digits(s: Seq<char>) -> bool {
    s.len() > 0 && forall|i: int| 0 <= i < s.len() ==> is_digit(#[trigger] s[i])
}

/// The number that the decimal digits `s` stand for.
pub open spec fn digits_value(s: Seq<char>) -> nat
    decreases s.len(),
{
    if s.len() == 0 {
        0
    } else {
        digits_value(s.drop_last()) * 10 + digit_value(s.last())
    }
}

/// The decimal text of `n`, without leading zeros.
pub open spec fn decimal(n: nat) -> Seq<char>
    decreases n,
{
    if n < 10 {
        seq![digit_char(n)]
    } else {
        decimal(n / 10) + seq![digit_char(n % 10)]
    }
}

/// The integer that the text `t` stands for: decimal digits, with a minus sign
/// in front for a negative number. `None` for any other text.
pub open spec fn integer_of(t: Seq<char>) -> Option<int> {
    if all_digits(t) {
        Some(digits_value(t) as int)
    } else if t.len() > 1 && t[0] == '-' && all_digits(t.drop_first()) {
        Some(-(digits_value(t.drop_first()) as int))
    } else {
        None
    }
}

proof fn lemma_digit_char(d: nat)
    requires
        d < 10,
    ensures
        is_digit(digit_char(d)),
        digit_value(digit_char(d)) == d,
{
}

/// Reading the decimal text of a number gives the number back.
pub proof fn lemma_decimal_round_trip(n: nat)
    ensures
        all_digits(decimal(n)),
        digits_value(decimal(n)) == n,
    decreases n,
{
    if n < 10 {
        lemma_digit_char(n);
        assert(decimal(n).drop_last() =~= Seq::<char>::empty());
        assert(digits_value(Seq::<char>::empty()) == 0);
    } else {
        lemma_decimal_round_trip(n / 10);
        lemma_digit_char(n % 10);
        let s = decimal(n);
        assert(s.drop_last() =~= decimal(n / 10));
        assert(s.last() == digit_char(n % 10));
        assert(n == (n / 10) * 10 + n % 10);
        assert forall|i: int| 0 <= i < s.len() implies is_digit(#[trigger] s[i]) by {
            if i < s.len() - 1 {
                assert(s[i] == decimal(n / 10)[i]);
            }
        }
    }
}

proof fn lemma_prefix_value(s: Seq<char>, j: int)
    requires
        0 <= j <= s.len(),
    ensures
        digits_value(s.subrange(0, j)) <= digits_value(s),
    decreases s.len() - j,
{
    if j < s.len() {
        lemma_prefix_value(s, j + 1);
        assert(s.subrange(0, j + 1).drop_last() =~= s.subrange(0, j));
    } else {
        assert(s.subrange(0, j) =~= s);
    }
}

proof fn lemma_value_too_large(t: Seq<char>, start: int, end: int)
    requires
        0 <= start <= 1,
        start < end <= t.len(),
        start == 1 <==> t[0] == '-',
        digits_value(t.subrange(start, end)) > u64::MAX,
    ensures
        integer_of(t) matches Some(v) ==> (v > u64::MAX || v < -u64::MAX),
{
    let digits = t.subrange(start, t.len() as int);
    lemma_prefix_value(digits, end - start);
    assert(digits.subrange(0, end - start) =~= t.subrange(start, end));
    if start == 0 {
        assert(digits =~= t);
    } else {
        assert(!is_digit(t[0]));
        assert(digits =~= t.drop_first());
    }
}

/// The one-character text of digit `d`.
fn digit_str(d: u64) -> (r: &'static str)
    requires
        d < 10,
    ensures
        r@ == seq![digit_char(d as nat)],
{
    proof {
        reveal_strlit("0");
        reveal_strlit("1");
        reveal_strlit("2");
        reveal_strlit("3");
        reveal_strlit("4");
        reveal_strlit("5");
        reveal_strlit("6");
        reveal_strlit("7");
        reveal_strlit("8");
        reveal_strlit("9");
    }
    if d == 0 {
        "0"
    } else if d == 1 {
        "1"
    } else if d == 2 {
        "2"
    } else if d == 3 {
        "3"
    } else if d == 4 {
        "4"
    } else if d == 5 {
        "5"
    } else if d == 6 {
        "6"
    } else if d == 7 {
        "7"
    } else if d == 8 {
        "8"
    } else {
        "9"
    }
}

/// Appends the decimal text of `n` to `out`.
pub fn write_decimal(n: u64, out: &mut String)
    ensures
        final(out)@ == old(out)@ + decimal(n as nat),
    decreases n,
{
    if n >= 10 {
        write_decimal(n / 10, out);
    }
    out.append(digit_str(n % 10));
}

/// The decimal text of `n`.
pub fn decimal_text(n: u64) -> (r: String)
    ensures
        r@ == decimal(n as nat),
{
    let mut out = String::new();
    write_decimal(n, &mut out);
    out
}

/// Reads the text of an integer, as `integer_of` does, where its magnitude fits
/// in a `u64`: the sign (`true` for a minus sign) and the magnitude.
pub fn parse_integer(t: &str) -> (r: Option<(bool, u64)>)
    ensures
        r matches Some((negative, magnitude)) ==> integer_of(t@) == Some(
            if negative {
                -(magnitude as int)
            } else {
                magnitude as int
            },
        ),
        r is None ==> (integer_of(t@) matches Some(v) ==> (v > u64::MAX || v < -u64::MAX)),
{
    let n = t.unicode_len();
    if n == 0 {
        return None;
    }
    let negative = t.get_char(0) == '-';
    let start: usize = if negative {
        1
    } else {
        0
    };
    if start >= n {
        return None;
    }
    let ghost digits = t@.subrange(start as int, n as int);
    let mut value: u64 = 0;
    let mut i: usize = start;
    while i < n
        invariant
            start <= i <= n,
            n == t@.len(),
            start < n,
            negative <==> t@[0] == '-',
            start == (if negative { 1usize } else { 0usize }),
            digits == t@.subrange(start as int, n as int),
            forall|k: int| start <= k < i ==> is_digit(#[trigger] t@[k]),
            value == digits_value(t@.subrange(start as int, i as int)),
        decreases n - i,
    {
        let c = t.get_char(i);
        if !('0' <= c && c <= '9') {
            proof {
                assert(!is_digit(digits[i - start]));
                assert(!all_digits(digits));
                if !negative {
                    assert(digits =~= t@);
                } else {
                    assert(digits =~= t@.drop_first());
                    assert(!all_digits(t@)) by {
                        assert(!is_digit(t@[0]));
                    }
                }
            }
            return None;
        }
        let d = (c as u32 - '0' as u32) as u64;
        proof {
            let pre = t@.subrange(start as int, i as int);
            let next = t@.subrange(start as int, i + 1);
            assert(next.drop_last() =~= pre);
            assert(next.last() == c);
        }
        match value.checked_mul(10) {
            Some(tens) => match tens.checked_add(d) {
                Some(v) => {
                    value = v;
                },
                None => {
                    proof {
                        lemma_value_too_large(t@, start as int, i + 1);
                    }
                    return None;
                },
            },
            None => {
                proof {
                    lemma_value_too_large(t@, start as int, i + 1);
                }
                return None;
            },
        }
        i = i + 1;
    }
    proof {
        assert(t@.subrange(start as int, n as int) == digits);
        if !negative {
            assert(digits =~= t@);
        } else {
            assert(digits =~= t@.drop_first());
        }
    }
    Some((negative, value))
}

} // verus!
