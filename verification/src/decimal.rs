//! Decimal text for unsigned integers: the form in which a token carries its
//! expiration time.

use vstd::prelude::*;
use vstd::string::*;

verus! {

/// The character that stands for the digit `d`; `'0'` for anything above nine.
pub open spec fn digit_char(d: nat) -> char {
    if d == 1 {
        '1'
    } else if d == 2 {
        '2'
    } else if d == 3 {
        '3'
    } else if d == 4 {
        '4'
    } else if d == 5 {
        '5'
    } else if d == 6 {
        '6'
    } else if d == 7 {
        '7'
    } else if d == 8 {
        '8'
    } else if d == 9 {
        '9'
    } else {
        '0'
    }
}

/// Whether `c` is one of the ten ASCII digits.
pub open spec fn is_digit(c: char) -> bool {
    c == '0' || c == '1' || c == '2' || c == '3' || c == '4' || c == '5' || c == '6' || c == '7'
        || c == '8' || c == '9'
}

/// The number that the digit `c` stands for; zero for any other character.
pub open spec fn digit_value(c: char) -> nat {
    if c == '1' {
        1
    } else if c == '2' {
        2
    } else if c == '3' {
        3
    } else if c == '4' {
        4
    } else if c == '5' {
        5
    } else if c == '6' {
        6
    } else if c == '7' {
        7
    } else if c == '8' {
        8
    } else if c == '9' {
        9
    } else {
        0
    }
}

/// Whether every character of `s` is a digit.
pub open spec fn all_digits(s: Seq<char>) -> bool {
    forall|i: int| 0 <= i < s.len() ==> is_digit(#[trigger] s[i])
}

/// The number that a run of digits denotes, most significant digit first.
pub open spec fn digits_value(s: Seq<char>) -> nat
    decreases s.len(),
{
    if s.len() == 0 {
        0
    } else {
        digits_value(s.drop_last()) * 10 + digit_value(s.last())
    }
}

/// The shortest decimal text of `n`: no sign, no leading zero but for zero itself.
pub open spec fn decimal_digits(n: nat) -> Seq<char>
    decreases n,
{
    if n < 10 {
        seq![digit_char(n)]
    } else {
        decimal_digits(n / 10).push(digit_char(n % 10))
    }
}

/// What a text means as a `u64`: its value where it is a non-empty run of
/// digits that fits, nothing otherwise. Leading zeros are accepted; a sign,
/// a space or any other character is not.
pub open spec fn decimal_value(s: Seq<char>) -> Option<u64> {
    if s.len() > 0 && all_digits(s) && digits_value(s) <= u64::MAX {
        Some(digits_value(s) as u64)
    } else {
        None
    }
}

/// A prefix of a run of digits never denotes more than the whole run.
pub proof fn lemma_prefix_value_bounded(s: Seq<char>, k: int)
    requires
        0 <= k <= s.len(),
    ensures
        digits_value(s.subrange(0, k)) <= digits_value(s),
    decreases s.len() - k,
{
    if k == s.len() {
        assert(s.subrange(0, k) =~= s);
    } else {
        lemma_prefix_value_bounded(s.drop_last(), k);
        assert(s.drop_last().subrange(0, k) =~= s.subrange(0, k));
    }
}

/// Reading the shortest decimal text of a number gives the number back.
pub proof fn lemma_decimal_round_trip(n: nat)
    ensures
        decimal_digits(n).len() > 0,
        all_digits(decimal_digits(n)),
        digits_value(decimal_digits(n)) == n,
    decreases n,
{
    if n < 10 {
        let s = decimal_digits(n);
        assert(s.drop_last() =~= Seq::<char>::empty());
        assert(digits_value(s.drop_last()) == 0);
        assert(s.last() == digit_char(n));
    } else {
        lemma_decimal_round_trip(n / 10);
        let p = decimal_digits(n / 10);
        let s = decimal_digits(n);
        assert(s == p.push(digit_char(n % 10)));
        assert(s.drop_last() =~= p);
        assert(s.last() == digit_char(n % 10));
        assert forall|i: int| 0 <= i < s.len() implies is_digit(#[trigger] s[i]) by {
            if i < p.len() {
                assert(s[i] == p[i]);
            }
        }
    }
}

/// A formatted `u64` parses back to itself.
pub proof fn lemma_parse_of_format(n: u64)
    ensures
        decimal_value(decimal_digits(n as nat)) == Some(n),
{
    lemma_decimal_round_trip(n as nat);
}

fn digit_text(d: u64) -> (res: &'static str)
    requires
        d < 10,
    ensures
        res@ == seq![digit_char(d as nat)],
{
    proof {
        reveal_strlit("0");
        reveal_strlit("1");
        reveal_strlit("2");
        reveal_strlit("3");
        reveal_strlit("4");
        reveal_strlit("5");
        reveal_strlit("6");
        reveal_strlit("7");
        reveal_strlit("8");
        reveal_strlit("9");
    }
    let res = if d == 0 {
        "0"
    } else if d == 1 {
        "1"
    } else if d == 2 {
        "2"
    } else if d == 3 {
        "3"
    } else if d == 4 {
        "4"
    } else if d == 5 {
        "5"
    } else if d == 6 {
        "6"
    } else if d == 7 {
        "7"
    } else if d == 8 {
        "8"
    } else {
        "9"
    };
    assert(res@ =~= seq![digit_char(d as nat)]);
    res
}

fn digit_of(c: char) -> (res: Option<u64>)
    ensures
        match res {
            Some(d) => is_digit(c) && d == digit_value(c) && d < 10,
            None => !is_digit(c),
        },
{
    if c == '0' {
        Some(0)
    } else if c == '1' {
        Some(1)
    } else if c == '2' {
        Some(2)
    } else if c == '3' {
        Some(3)
    } else if c == '4' {
        Some(4)
    } else if c == '5' {
        Some(5)
    } else if c == '6' {
        Some(6)
    } else if c == '7' {
        Some(7)
    } else if c == '8' {
        Some(8)
    } else if c == '9' {
        Some(9)
    } else {
        None
    }
}

/// Writes `n` in decimal.
pub fn format_decimal(n: u64) -> (res: String)
    ensures
        res@ == decimal_digits(n as nat),
    decreases n,
{
    if n < 10 {
        String::from_str(digit_text(n))
    } else {
        let mut s = format_decimal(n / 10);
        s.append(digit_text(n % 10));
        assert(s@ =~= decimal_digits(n as nat));
        s
    }
}

/// Reads a `u64` written in decimal. Anything but a non-empty run of digits
/// whose value fits in a `u64` is refused.
pub fn parse_decimal(s: &str) -> (res: Option<u64>)
    ensures
        res == decimal_value(s@),
{
    let n: usize = s.unicode_len();
    if n == 0 {
        return None;
    }
    let mut acc: u64 = 0;
    let mut i: usize = 0;
    while i < n
        invariant
            n == s@.len(),
            0 <= i <= n,
            all_digits(s@.subrange(0, i as int)),
            acc == digits_value(s@.subrange(0, i as int)),
        decreases n - i,
    {
        let c = s.get_char(i);
        let ghost prefix = s@.subrange(0, i as int);
        let ghost next = s@.subrange(0, i + 1);
        assert(next.drop_last() =~= prefix);
        assert(next.last() == c);
        match digit_of(c) {
            None => {
                assert(!is_digit(s@[i as int]));
                return None;
            },
            Some(d) => {
                if acc > (u64::MAX - d) / 10 {
                    proof {
                        lemma_prefix_value_bounded(s@, i + 1);
                        assert(digits_value(next) == acc * 10 + d);
                    }
                    return None;
                }
                acc = acc * 10 + d;
                assert forall|j: int| 0 <= j < next.len() implies is_digit(#[trigger] next[j]) by {
                    if j < i {
                        assert(next[j] == prefix[j]);
                    }
                }
            },
        }
        i = i + 1;
    }
    assert(s@.subrange(0, n as int) =~= s@);
    Some(acc)
}

} // verus!
