//! Small verified text helpers: prefix and suffix tests and the student
//! e-mail address rule.
//!
//! The address rule is this project's own grammar: one or more characters
//! from a fixed local-part alphabet, followed by the student domain,
//! exactly. It is checked character by character here rather than handed to
//! a pattern-matching engine, so the contract states the rule itself.

use vstd::prelude::*;
use vstd::string::StrSliceExecFns;
use vstd::string::StringExecFns;

verus! {

/// `s` ends with `suffix`.
pub open spec fn ends_with_spec(s: Seq<char>, suffix: Seq<char>) -> bool {
    s.len() >= suffix.len() && s.subrange(s.len() - suffix.len(), s.len() as int)
        == suffix
}

/// `s` starts with `prefix`.
pub open spec fn starts_with_spec(s: Seq<char>, prefix: Seq<char>) -> bool {
    s.len() >= prefix.len() && s.subrange(0, prefix.len() as int) == prefix
}

pub fn str_ends_with(s: &str, suffix: &str) -> (r: bool)
    ensures
        r == ends_with_spec(s@, suffix@),
{
    let n = s.unicode_len();
    let m = suffix.unicode_len();
    if m > n {
        return false;
    }
    let tail = s.substring_char(n - m, n);
    let a = String::from_str(tail);
    let b = String::from_str(suffix);
    a == b
}

pub fn str_starts_with(s: &str, prefix: &str) -> (r: bool)
    ensures
        r == starts_with_spec(s@, prefix@),
{
    let n = s.unicode_len();
    let m = prefix.unicode_len();
    if m > n {
        return false;
    }
    let head = s.substring_char(0, m);
    let a = String::from_str(head);
    let b = String::from_str(prefix);
    a == b
}

/// The characters allowed in the local part of a student address.
pub open spec fn is_local_char(c: char) -> bool {
    ||| 'a' <= c <= 'z'
    ||| 'A' <= c <= 'Z'
    ||| '0' <= c <= '9'
    ||| c == '_'
    ||| c == '.'
    ||| c == '+'
    ||| c == '-'
}

/// A well-formed student address: a non-empty local part over the allowed
/// alphabet, then the student domain and nothing after it.
pub open spec fn valid_student_email_spec(s: Seq<char>) -> bool {
    let suffix = "@stud.hs-kempten.de"@;
    &&& s.len() > suffix.len()
    &&& s.subrange(s.len() - suffix.len(), s.len() as int) == suffix
    &&& forall|i: int| 0 <= i < s.len() - suffix.len() ==> is_local_char(#[trigger] s[i])
}

fn is_local_char_exec(c: char) -> (r: bool)
    ensures
        r == is_local_char(c),
{
    ('a' <= c && c <= 'z') || ('A' <= c && c <= 'Z') || ('0' <= c && c <= '9')
        || c == '_' || c == '.' || c == '+' || c == '-'
}

/// The characters of `s`, in order, as a vector.
pub fn str_chars(s: &str) -> (v: Vec<char>)
    ensures
        v@ == s@,
{
    let n = s.unicode_len();
    let mut v: Vec<char> = Vec::new();
    let mut i: usize = 0;
    while i < n
        invariant
            0 <= i <= n,
            n == s@.len(),
            v@ =~= s@.subrange(0, i as int),
        decreases n - i,
    {
        v.push(s.get_char(i));
        i = i + 1;
    }
    proof {
        assert(v@ =~= s@);
    }
    v
}

/// Relies on `String`'s `FromIterator<char>` implementation in std: collecting
/// characters yields the string of exactly those characters, in order.
#[verifier::external_body]
pub(crate) fn chars_to_string(v: &Vec<char>) -> (r: String)
    ensures
        r@ == v@,
{
    v.iter().copied().collect()
}

/// The digit character for one decimal digit.
pub open spec fn digit_char(d: int) -> char {
    seq!['0', '1', '2', '3', '4', '5', '6', '7', '8', '9'][d]
}

/// The decimal numeral of `n`, most significant digit first, no sign and
/// no padding; zero is the single digit `0`.
pub open spec fn decimal_digits(n: int) -> Seq<char>
    decreases n,
{
    if n < 10 {
        seq![digit_char(n)]
    } else {
        decimal_digits(n / 10).push(digit_char(n % 10))
    }
}

fn digit_char_exec(d: u64) -> (c: char)
    requires
        d < 10,
    ensures
        c == digit_char(d as int),
{
    match d {
        0 => '0',
        1 => '1',
        2 => '2',
        3 => '3',
        4 => '4',
        5 => '5',
        6 => '6',
        7 => '7',
        8 => '8',
        _ => '9',
    }
}

proof fn lemma_reverse_push(s: Seq<char>, d: char)
    ensures
        s.push(d).reverse() == seq![d] + s.reverse(),
{
    assert(s.push(d).reverse() =~= seq![d] + s.reverse());
}

/// Render `n` in decimal.
pub fn decimal_string(n: u64) -> (r: String)
    ensures
        r@ == decimal_digits(n as int),
{
    let mut rev: Vec<char> = Vec::new();
    let mut m: u64 = n;
    proof {
        assert(decimal_digits(n as int) =~= decimal_digits(n as int)
            + Seq::<char>::empty().reverse());
    }
    loop
        invariant_except_break
            decimal_digits(n as int) == decimal_digits(m as int) + rev@.reverse(),
        ensures
            decimal_digits(n as int) == rev@.reverse(),
        decreases m,
    {
        let d = m % 10;
        let c = digit_char_exec(d);
        let ghost pre_rev = rev@;
        rev.push(c);
        proof {
            lemma_reverse_push(pre_rev, c);
        }
        if m < 10 {
            proof {
                assert(decimal_digits(m as int) =~= seq![c]);
                assert(decimal_digits(n as int) =~= rev@.reverse());
            }
            break;
        }
        proof {
            assert(decimal_digits(m as int) == decimal_digits(m as int / 10).push(c));
            assert(decimal_digits(m as int / 10).push(c) + pre_rev.reverse()
                =~= decimal_digits(m as int / 10) + rev@.reverse());
        }
        m = m / 10;
    }
    let len = rev.len();
    let mut out: Vec<char> = Vec::new();
    let mut i: usize = len;
    while i > 0
        invariant
            0 <= i <= len,
            len == rev@.len(),
            out@.len() == len - i,
            forall|j: int| 0 <= j < out@.len() ==> out@[j] == rev@[len - 1 - j],
        decreases i,
    {
        i = i - 1;
        out.push(rev[i]);
    }
    proof {
        assert(out@ =~= rev@.reverse());
    }
    chars_to_string(&out)
}

/// Decides the student-address rule exactly.
pub fn is_valid_student_email(s: &str) -> (r: bool)
    ensures
        r == valid_student_email_spec(s@),
{
    let suffix: &str = "@stud.hs-kempten.de";
    proof {
        reveal_strlit("@stud.hs-kempten.de");
    }
    let n = s.unicode_len();
    let m = suffix.unicode_len();
    if n <= m {
        return false;
    }
    if !str_ends_with(s, suffix) {
        return false;
    }
    let local_len = n - m;
    let mut i: usize = 0;
    while i < local_len
        invariant
            0 <= i <= local_len,
            suffix@ == "@stud.hs-kempten.de"@,
            local_len == s@.len() - suffix@.len(),
            local_len < s@.len(),
            forall|j: int| 0 <= j < i ==> is_local_char(#[trigger] s@[j]),
        decreases local_len - i,
    {
        let c = s.get_char(i);
        if !is_local_char_exec(c) {
            proof {
                reveal_strlit("@stud.hs-kempten.de");
                assert(!is_local_char(s@[i as int]));
            }
            return false;
        }
        i = i + 1;
    }
    true
}

} // verus!
