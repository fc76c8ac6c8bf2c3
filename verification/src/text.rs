//! Small verified text utilities: decimal formatting and parsing,
//! whitespace trimming of captured command output, and path joining.

use vstd::prelude::*;

verus! {

/// The character for a single decimal digit value.
pub open spec fn digit_char(d: int) -> char {
    if d == 0 {
        '0'
    } else if d == 1 {
        '1'
    } else if d == 2 {
        '2'
    } else if d == 3 {
        '3'
    } else if d == 4 {
        '4'
    } else if d == 5 {
        '5'
    } else if d == 6 {
        '6'
    } else if d == 7 {
        '7'
    } else if d == 8 {
        '8'
    } else {
        '9'
    }
}

/// The decimal digit string of a nonnegative number, most significant first.
pub open spec fn dec_digits(n: nat) -> Seq<char>
    decreases n,
{
    if n < 10 {
        seq![digit_char(n as int)]
    } else {
        dec_digits(n / 10) + seq![digit_char((n % 10) as int)]
    }
}

/// The decimal string of a signed number: a minus sign, then the digits.
pub open spec fn dec_digits_signed(n: int) -> Seq<char> {
    if n < 0 {
        seq!['-'] + dec_digits((-n) as nat)
    } else {
        dec_digits(n as nat)
    }
}

/// The single-character string for a decimal digit value.
fn digit_str(d: u64) -> (r: &'static str)
    requires
        d < 10,
    ensures
        r@ == seq![digit_char(d as int)],
{
    proof {
        reveal_strlit("0");
        reveal_strlit("1");
        reveal_strlit("2");
        reveal_strlit("3");
        reveal_strlit("4");
        reveal_strlit("5");
        reveal_strlit("6");
        reveal_strlit("7");
        reveal_strlit("8");
        reveal_strlit("9");
    }
    if d == 0 {
        "0"
    } else if d == 1 {
        "1"
    } else if d == 2 {
        "2"
    } else if d == 3 {
        "3"
    } else if d == 4 {
        "4"
    } else if d == 5 {
        "5"
    } else if d == 6 {
        "6"
    } else if d == 7 {
        "7"
    } else if d == 8 {
        "8"
    } else {
        "9"
    }
}

/// Formats a number in decimal.
pub fn u64_to_dec(n: u64) -> (r: String)
    ensures
        r@ == dec_digits(n as nat),
    decreases n,
{
    if n < 10 {
        digit_str(n).to_owned()
    } else {
        let prefix = u64_to_dec(n / 10);
        prefix.concat(digit_str(n % 10))
    }
}

/// Formats a signed number in decimal.
pub fn i32_to_dec(n: i32) -> (r: String)
    ensures
        r@ == dec_digits_signed(n as int),
{
    proof {
        reveal_strlit("-");
    }
    if n < 0 {
        let magnitude: u64 = (-(n as i64)) as u64;
        assert(magnitude == -(n as int));
        "-".to_owned().concat(u64_to_dec(magnitude).as_str())
    } else {
        u64_to_dec(n as u64)
    }
}

/// Whether a character is a decimal digit.
pub open spec fn is_dec_digit(c: char) -> bool {
    48 <= c as u32 <= 57
}

/// The numeric value of a decimal digit character.
pub open spec fn digit_val(c: char) -> int {
    c as u32 - 48
}

/// The number denoted by a string of decimal digits, most significant first.
pub open spec fn dec_value(s: Seq<char>) -> int
    decreases s.len(),
{
    if s.len() == 0 {
        0
    } else {
        dec_value(s.drop_last()) * 10 + digit_val(s.last())
    }
}

/// Whether every character of the string is a decimal digit.
pub open spec fn all_dec_digits(s: Seq<char>) -> bool {
    forall|i: int| 0 <= i < s.len() ==> is_dec_digit(#[trigger] s[i])
}

proof fn lemma_dec_value_nonneg(s: Seq<char>)
    requires
        all_dec_digits(s),
    ensures
        dec_value(s) >= 0,
    decreases s.len(),
{
    if s.len() > 0 {
        assert(all_dec_digits(s.drop_last())) by {
            assert(forall|i: int|
                0 <= i < s.drop_last().len() ==> s.drop_last()[i] == #[trigger] s[i]);
        }
        lemma_dec_value_nonneg(s.drop_last());
    }
}

proof fn lemma_dec_value_prefix_le(s: Seq<char>, i: int, j: int)
    requires
        all_dec_digits(s),
        0 <= i <= j <= s.len(),
    ensures
        dec_value(s.subrange(0, i)) <= dec_value(s.subrange(0, j)),
    decreases j - i,
{
    if i < j {
        let t = s.subrange(0, j);
        let t1 = s.subrange(0, j - 1);
        assert(t.drop_last() =~= t1);
        assert(all_dec_digits(t1));
        lemma_dec_value_nonneg(t1);
        assert(dec_value(t) == dec_value(t1) * 10 + digit_val(t.last()));
        assert(digit_val(t.last()) >= 0);
        assert(dec_value(t1) <= dec_value(t1) * 10) by (nonlinear_arith)
            requires
                dec_value(t1) >= 0,
        ;
        lemma_dec_value_prefix_le(s, i, j - 1);
    } else {
        assert(s.subrange(0, i) =~= s.subrange(0, j));
    }
}

/// Parses a nonempty string of decimal digits as a number.
///
/// Returns the denoted value exactly when the string is a nonempty run of
/// digits whose value fits; returns nothing otherwise.
pub fn parse_u64_dec(s: &str) -> (r: Option<u64>)
    ensures
        r is Some <==> s@.len() > 0 && all_dec_digits(s@) && dec_value(s@) <= u64::MAX,
        r matches Some(v) ==> v as int == dec_value(s@),
{
    let n = s.unicode_len();
    if n == 0 {
        return None;
    }
    let mut acc: u64 = 0;
    let mut i: usize = 0;
    while i < n
        invariant
            0 < n == s@.len(),
            0 <= i <= n,
            forall|k: int| 0 <= k < i ==> is_dec_digit(#[trigger] s@[k]),
            acc as int == dec_value(s@.subrange(0, i as int)),
        decreases n - i,
    {
        let c = s.get_char(i);
        let cv: u32 = c as u32;
        if cv < 48 || cv > 57 {
            return None;
        }
        let d: u64 = (cv - 48) as u64;
        let shifted = match acc.checked_mul(10) {
            Some(m) => m.checked_add(d),
            None => None,
        };
        proof {
            let pre = s@.subrange(0, i as int);
            let cur = s@.subrange(0, i + 1);
            assert(cur.drop_last() =~= pre);
            assert(cur.last() == s@[i as int]);
            assert(dec_value(cur) == dec_value(pre) * 10 + digit_val(s@[i as int]));
        }
        match shifted {
            Some(next) => {
                acc = next;
            },
            None => {
                proof {
                    let cur = s@.subrange(0, i + 1);
                    assert(dec_value(cur) > u64::MAX);
                    assert(all_dec_digits(s@) ==> dec_value(s@) > u64::MAX) by {
                        if all_dec_digits(s@) {
                            lemma_dec_value_prefix_le(s@, i + 1, s@.len() as int);
                            assert(s@.subrange(0, s@.len() as int) =~= s@);
                        }
                    }
                }
                return None;
            },
        }
        i = i + 1;
    }
    proof {
        assert(s@.subrange(0, n as int) =~= s@);
    }
    Some(acc)
}

/// Whether a character counts as trimmable whitespace.
pub open spec fn is_space_char(c: char) -> bool {
    c == ' ' || c == '\n' || c == '\t' || c == '\r'
}

/// The first index at or after `i` holding a non-space character, or the
/// length if there is none.
pub open spec fn first_non_space_from(s: Seq<char>, i: int) -> int
    decreases s.len() - i,
{
    if i < 0 || i >= s.len() {
        s.len() as int
    } else if is_space_char(s[i]) {
        first_non_space_from(s, i + 1)
    } else {
        i
    }
}

/// The last index at or before `i` holding a non-space character, or -1 if
/// there is none.
pub open spec fn last_non_space_from(s: Seq<char>, i: int) -> int
    decreases i + 1,
{
    if i < 0 || i >= s.len() {
        -1
    } else if is_space_char(s[i]) {
        last_non_space_from(s, i - 1)
    } else {
        i
    }
}

/// The string with leading and trailing whitespace removed.
pub open spec fn spec_trim(s: Seq<char>) -> Seq<char> {
    let last = last_non_space_from(s, s.len() - 1);
    if last < 0 {
        Seq::empty()
    } else {
        s.subrange(first_non_space_from(s, 0), last + 1)
    }
}

proof fn lemma_first_non_space_bounds(s: Seq<char>, i: int)
    requires
        0 <= i <= s.len(),
    ensures
        i <= first_non_space_from(s, i) <= s.len(),
        first_non_space_from(s, i) < s.len() ==> !is_space_char(s[first_non_space_from(s, i)]),
    decreases s.len() - i,
{
    if i < s.len() && is_space_char(s[i]) {
        lemma_first_non_space_bounds(s, i + 1);
    }
}

proof fn lemma_last_non_space_bounds(s: Seq<char>, i: int)
    requires
        -1 <= i < s.len(),
    ensures
        -1 <= last_non_space_from(s, i) <= i,
        last_non_space_from(s, i) >= 0 ==> !is_space_char(s[last_non_space_from(s, i)]),
    decreases i + 1,
{
    if 0 <= i && is_space_char(s[i]) {
        lemma_last_non_space_bounds(s, i - 1);
    }
}

proof fn lemma_first_le_last(s: Seq<char>, i: int)
    requires
        0 <= i <= s.len(),
        last_non_space_from(s, s.len() - 1) >= i,
    ensures
        first_non_space_from(s, i) <= last_non_space_from(s, s.len() - 1),
    decreases s.len() - i,
{
    let last = last_non_space_from(s, s.len() - 1);
    lemma_last_non_space_bounds(s, s.len() - 1);
    if is_space_char(s[i]) {
        assert(i != last);
        lemma_first_le_last(s, i + 1);
    }
}

/// Whether a character counts as trimmable whitespace.
pub fn is_space(c: char) -> (r: bool)
    ensures
        r == is_space_char(c),
{
    c == ' ' || c == '\n' || c == '\t' || c == '\r'
}

/// Removes leading and trailing whitespace, as done to every captured
/// command output before it is used.
pub fn trim(s: &str) -> (r: String)
    ensures
        r@ == spec_trim(s@),
{
    let n = s.unicode_len();
    let mut a: usize = 0;
    while a < n && is_space(s.get_char(a))
        invariant
            n == s@.len(),
            0 <= a <= n,
            first_non_space_from(s@, 0) == first_non_space_from(s@, a as int),
        decreases n - a,
    {
        a = a + 1;
    }
    if a == n {
        proof {
            lemma_last_non_space_bounds(s@, s@.len() - 1);
            if last_non_space_from(s@, s@.len() - 1) >= 0 {
                lemma_first_le_last(s@, 0);
            }
        }
        return String::new();
    }
    proof {
        lemma_last_non_space_bounds(s@, s@.len() - 1);
    }
    let mut b: usize = n - 1;
    while is_space(s.get_char(b))
        invariant
            n == s@.len(),
            first_non_space_from(s@, 0) <= b < n,
            first_non_space_from(s@, 0) == a,
            !is_space_char(s@[a as int]),
            last_non_space_from(s@, s@.len() - 1) == last_non_space_from(s@, b as int),
            last_non_space_from(s@, b as int) <= b,
        decreases b,
    {
        proof {
            lemma_last_non_space_bounds(s@, b - 1);
        }
        b = b - 1;
    }
    s.substring_char(a, b + 1).to_owned()
}

/// Joins a directory path and an entry name with a slash.
pub fn path_join(dir: &str, name: &str) -> (r: String)
    ensures
        r@ == dir@ + seq!['/'] + name@,
{
    proof {
        reveal_strlit("/");
        assert("/"@ =~= seq!['/']);
    }
    let r = dir.to_owned().concat("/").concat(name);
    assert(r@ =~= dir@ + seq!['/'] + name@);
    r
}

/// Concatenates two strings.
pub fn str_concat(a: &str, b: &str) -> (r: String)
    ensures
        r@ == a@ + b@,
{
    a.to_owned().concat(b)
}

} // verus!
