//! Small verified operations on text: comparison, trimming and decimal
//! rendering. Contracts speak of a string through its view, a `Seq<char>`.

use vstd::prelude::*;
use vstd::string::*;

verus! {

/// Whether `c` has the Unicode property White_Space.
pub open spec fn is_white_space(c: char) -> bool {
    let n = c as int;
    ||| 0x09 <= n <= 0x0D
    ||| n == 0x20
    ||| n == 0x85
    ||| n == 0xA0
    ||| n == 0x1680
    ||| 0x2000 <= n <= 0x200A
    ||| n == 0x2028
    ||| n == 0x2029
    ||| n == 0x202F
    ||| n == 0x205F
    ||| n == 0x3000
}

/// `s` without its leading white space.
pub open spec fn strip_start_blank(s: Seq<char>) -> Seq<char>
    decreases s.len(),
{
    if s.len() > 0 && is_white_space(s.first()) {
        strip_start_blank(s.drop_first())
    } else {
        s
    }
}

/// `s` without its trailing white space.
pub open spec fn strip_end_blank(s: Seq<char>) -> Seq<char>
    decreases s.len(),
{
    if s.len() > 0 && is_white_space(s.last()) {
        strip_end_blank(s.drop_last())
    } else {
        s
    }
}

/// `s` without leading and trailing white space.
pub open spec fn trimmed(s: Seq<char>) -> Seq<char> {
    strip_end_blank(strip_start_blank(s))
}

/// `s` without its trailing `/` characters.
pub open spec fn strip_end_slashes(s: Seq<char>) -> Seq<char>
    decreases s.len(),
{
    if s.len() > 0 && s.last() == '/' {
        strip_end_slashes(s.drop_last())
    } else {
        s
    }
}

/// The character that stands for the decimal digit `d`.
pub open spec fn digit_char(d: nat) -> char {
    if d == 0 {
        '0'
    } else if d == 1 {
        '1'
    } else if d == 2 {
        '2'
    } else if d == 3 {
        '3'
    } else if d == 4 {
        '4'
    } else if d == 5 {
        '5'
    } else if d == 6 {
        '6'
    } else if d == 7 {
        '7'
    } else if d == 8 {
        '8'
    } else {
        '9'
    }
}

/// The decimal numeral of `n`, without leading zeros.
pub open spec fn decimal(n: nat) -> Seq<char>
    decreases n,
{
    if n < 10 {
        seq![digit_char(n)]
    } else {
        decimal(n / 10).push(digit_char(n % 10))
    }
}

/// The value of a decimal digit, if the character is one.
pub open spec fn digit_of(c: char) -> Option<nat> {
    let n = c as int;
    if 48 <= n <= 57 {
        Some((n - 48) as nat)
    } else {
        None
    }
}

/// The number that a run of decimal digits stands for, if every
/// character is a digit. The empty run stands for zero.
pub open spec fn digits_value(s: Seq<char>) -> Option<nat>
    decreases s.len(),
{
    if s.len() == 0 {
        Some(0)
    } else {
        match (digits_value(s.drop_last()), digit_of(s.last())) {
            (Some(v), Some(d)) => Some(10 * v + d),
            _ => None,
        }
    }
}

/// The number that a text stands for: decimal digits, at least one, with
/// or without a plus sign in front, and a value that a `u64` holds.
/// Nothing else stands for a number, not even with white space around it.
pub open spec fn parsed_u64(s: Seq<char>) -> Option<u64> {
    if s.len() > 0 && s.first() == '+' {
        number_of(s.drop_first())
    } else {
        number_of(s)
    }
}

/// The number that a run of decimal digits stands for, if there is at
/// least one digit, nothing but digits, and a value that a `u64` holds.
pub open spec fn number_of(digits: Seq<char>) -> Option<u64> {
    if digits.len() == 0 {
        None
    } else {
        match digits_value(digits) {
            Some(v) => if v <= u64::MAX {
                Some(v as u64)
            } else {
                None
            },
            None => None,
        }
    }
}

/// Whether two string slices hold the same characters.
pub fn str_eq(a: &str, b: &str) -> (r: bool)
    ensures
        r == (a@ == b@),
{
    a.to_owned() == b.to_owned()
}

/// Whether `c` is white space.
pub fn is_whitespace(c: char) -> (r: bool)
    ensures
        r == is_white_space(c),
{
    let n: u32 = c as u32;
    (0x09 <= n && n <= 0x0D) || n == 0x20 || n == 0x85 || n == 0xA0 || n == 0x1680 || (0x2000 <= n
        && n <= 0x200A) || n == 0x2028 || n == 0x2029 || n == 0x202F || n == 0x205F || n == 0x3000
}

proof fn lemma_strip_start_step(s: Seq<char>, i: int)
    requires
        0 <= i < s.len(),
        is_white_space(s[i]),
    ensures
        strip_start_blank(s.subrange(i, s.len() as int)) == strip_start_blank(
            s.subrange(i + 1, s.len() as int),
        ),
{
    let t = s.subrange(i, s.len() as int);
    assert(t.first() == s[i]);
    assert(t.drop_first() =~= s.subrange(i + 1, s.len() as int));
}

proof fn lemma_strip_end_step(s: Seq<char>, i: int, j: int)
    requires
        0 <= i < j <= s.len(),
        is_white_space(s[j - 1]),
    ensures
        strip_end_blank(s.subrange(i, j)) == strip_end_blank(s.subrange(i, j - 1)),
{
    let t = s.subrange(i, j);
    assert(t.last() == s[j - 1]);
    assert(t.drop_last() =~= s.subrange(i, j - 1));
}

/// The slice of `s` between its leading and trailing white space.
pub fn trim(s: &str) -> (t: &str)
    ensures
        t@ == trimmed(s@),
{
    let n: usize = s.unicode_len();
    let mut i: usize = 0;
    assert(s@.subrange(0, n as int) =~= s@);
    while i < n && is_whitespace(s.get_char(i))
        invariant
            i <= n,
            n == s@.len(),
            strip_start_blank(s@) == strip_start_blank(s@.subrange(i as int, n as int)),
        decreases n - i,
    {
        proof {
            lemma_strip_start_step(s@, i as int);
        }
        i += 1;
    }
    assert(strip_start_blank(s@) == s@.subrange(i as int, n as int)) by {
        let t = s@.subrange(i as int, n as int);
        if i < n {
            assert(t.first() == s@[i as int]);
        }
    }
    let mut j: usize = n;
    while j > i && is_whitespace(s.get_char(j - 1))
        invariant
            i <= j <= n,
            n == s@.len(),
            strip_end_blank(s@.subrange(i as int, n as int)) == strip_end_blank(
                s@.subrange(i as int, j as int),
            ),
        decreases j,
    {
        proof {
            lemma_strip_end_step(s@, i as int, j as int);
        }
        j -= 1;
    }
    assert(strip_end_blank(s@.subrange(i as int, j as int)) == s@.subrange(i as int, j as int))
        by {
        let t = s@.subrange(i as int, j as int);
        if i < j {
            assert(t.last() == s@[j - 1]);
        }
    }
    s.substring_char(i, j)
}

/// Whether `s` holds nothing but white space.
pub fn is_blank(s: &str) -> (r: bool)
    ensures
        r == (trimmed(s@).len() == 0),
{
    trim(s).unicode_len() == 0
}

proof fn lemma_strip_slash_step(s: Seq<char>, j: int)
    requires
        0 < j <= s.len(),
        s[j - 1] == '/',
    ensures
        strip_end_slashes(s.subrange(0, j)) == strip_end_slashes(s.subrange(0, j - 1)),
{
    let t = s.subrange(0, j);
    assert(t.last() == s[j - 1]);
    assert(t.drop_last() =~= s.subrange(0, j - 1));
}

/// The slice of `s` before its trailing `/` characters.
pub fn trim_end_slashes(s: &str) -> (t: &str)
    ensures
        t@ == strip_end_slashes(s@),
{
    let n: usize = s.unicode_len();
    let mut j: usize = n;
    assert(s@.subrange(0, n as int) =~= s@);
    while j > 0 && s.get_char(j - 1) == '/'
        invariant
            j <= n,
            n == s@.len(),
            strip_end_slashes(s@) == strip_end_slashes(s@.subrange(0, j as int)),
        decreases j,
    {
        proof {
            lemma_strip_slash_step(s@, j as int);
        }
        j -= 1;
    }
    assert(strip_end_slashes(s@.subrange(0, j as int)) == s@.subrange(0, j as int)) by {
        let t = s@.subrange(0, j as int);
        if 0 < j {
            assert(t.last() == s@[j - 1]);
        }
    }
    s.substring_char(0, j)
}

/// The one-character string of the decimal digit `d`.
fn digit_str(d: u8) -> (r: &'static str)
    requires
        d < 10,
    ensures
        r@ == seq![digit_char(d as nat)],
{
    proof {
        reveal_strlit("0");
        reveal_strlit("1");
        reveal_strlit("2");
        reveal_strlit("3");
        reveal_strlit("4");
        reveal_strlit("5");
        reveal_strlit("6");
        reveal_strlit("7");
        reveal_strlit("8");
        reveal_strlit("9");
    }
    let r: &'static str = if d == 0 {
        "0"
    } else if d == 1 {
        "1"
    } else if d == 2 {
        "2"
    } else if d == 3 {
        "3"
    } else if d == 4 {
        "4"
    } else if d == 5 {
        "5"
    } else if d == 6 {
        "6"
    } else if d == 7 {
        "7"
    } else if d == 8 {
        "8"
    } else {
        "9"
    };
    r
}

/// Appends the decimal numeral of `n` to `out`.
pub fn push_decimal(out: &mut String, n: u128)
    ensures
        final(out)@ == old(out)@ + decimal(n as nat),
    decreases n,
{
    if n >= 10 {
        push_decimal(out, n / 10);
    }
    let d: u8 = (n % 10) as u8;
    out.append(digit_str(d));
}

/// The decimal numeral of `n`.
pub fn to_decimal(n: u128) -> (s: String)
    ensures
        s@ == decimal(n as nat),
{
    let mut s = String::new();
    push_decimal(&mut s, n);
    s
}

/// A run of digits that stands for a number has beginnings that stand
/// for numbers too, and for none that is greater.
proof fn lemma_digits_prefix(s: Seq<char>, k: int)
    requires
        0 <= k <= s.len(),
        digits_value(s) is Some,
    ensures
        digits_value(s.take(k)) is Some,
        digits_value(s.take(k))->Some_0 <= digits_value(s)->Some_0,
    decreases s.len(),
{
    if k == s.len() {
        assert(s.take(k) =~= s);
    } else {
        lemma_digits_prefix(s.drop_last(), k);
        assert(s.drop_last().take(k) =~= s.take(k));
    }
}

/// The number that a text stands for, if it stands for one.
pub fn parse_u64(s: &str) -> (r: Option<u64>)
    ensures
        r == parsed_u64(s@),
{
    let n: usize = s.unicode_len();
    let start: usize = if n > 0 && s.get_char(0) == '+' {
        1
    } else {
        0
    };
    let ghost digits = s@.subrange(start as int, n as int);
    proof {
        if start == 1 {
            assert(digits =~= s@.drop_first());
        } else {
            assert(digits =~= s@);
        }
    }
    if start == n {
        return None;
    }
    let mut value: u64 = 0;
    let mut i: usize = start;
    assert(digits.take(0) =~= Seq::<char>::empty());
    while i < n
        invariant
            start <= i <= n,
            n == s@.len(),
            digits == s@.subrange(start as int, n as int),
            parsed_u64(s@) == number_of(digits),
            digits_value(digits.take(i - start)) == Some(value as nat),
        decreases n - i,
    {
        let c = s.get_char(i);
        let code: u32 = c as u32;
        proof {
            let upto = digits.take(i + 1 - start);
            assert(upto.drop_last() =~= digits.take(i - start));
            if digits_value(digits) is Some {
                lemma_digits_prefix(digits, i + 1 - start);
            }
        }
        if code < 48 || code > 57 {
            return None;
        }
        let d: u64 = (code - 48) as u64;
        let tens = match value.checked_mul(10) {
            Some(t) => t,
            None => {
                return None;
            },
        };
        value = match tens.checked_add(d) {
            Some(v) => v,
            None => {
                return None;
            },
        };
        i += 1;
    }
    assert(digits.take(n - start) =~= digits);
    Some(value)
}

/// A copy of an optional string.
pub fn clone_optional(o: &Option<String>) -> (r: Option<String>)
    ensures
        r == *o,
{
    match o {
        Some(s) => Some(s.clone()),
        None => None,
    }
}

/// The two texts, one after the other.
pub fn joined(a: &str, b: &str) -> (s: String)
    ensures
        s@ == a@ + b@,
{
    String::from_str(a).concat(b)
}

} // verus!
