//! Small verified helpers for working with strings: equality, prefix tests
//! and decimal formatting of unsigned integers.

use vstd::prelude::*;

verus! {

/// True when `p` is a prefix of `s`.
pub open spec fn spec_has_prefix(s: Seq<char>, p: Seq<char>) -> bool {
    p.len() <= s.len() && s.subrange(0, p.len() as int) == p
}

/// Compare two string slices by their character sequences.
pub fn str_eq(a: &str, b: &str) -> (r: bool)
    ensures
        r == (a@ == b@),
{
    let sa = String::from_str(a);
    let sb = String::from_str(b);
    sa.eq(&sb)
}

/// True when `p` is a prefix of `s`, character for character.
pub fn has_prefix(s: &str, p: &str) -> (r: bool)
    ensures
        r == spec_has_prefix(s@, p@),
{
    let n = p.unicode_len();
    if n > s.unicode_len() {
        return false;
    }
    let mut i: usize = 0;
    while i < n
        invariant
            i <= n,
            n == p@.len(),
            n <= s@.len(),
            forall|j: int| 0 <= j < i ==> s@[j] == p@[j],
        decreases n - i,
    {
        if s.get_char(i) != p.get_char(i) {
            assert(!spec_has_prefix(s@, p@)) by {
                assert(s@.subrange(0, p@.len() as int)[i as int] == s@[i as int]);
            }
            return false;
        }
        i += 1;
    }
    assert(s@.subrange(0, p@.len() as int) =~= p@);
    true
}

/// The decimal digit character for `d`.
pub open spec fn spec_digit(d: int) -> char {
    if d == 0 {
        '0'
    } else if d == 1 {
        '1'
    } else if d == 2 {
        '2'
    } else if d == 3 {
        '3'
    } else if d == 4 {
        '4'
    } else if d == 5 {
        '5'
    } else if d == 6 {
        '6'
    } else if d == 7 {
        '7'
    } else if d == 8 {
        '8'
    } else {
        '9'
    }
}

/// The decimal representation of a nonnegative integer, without leading zeros
/// (`0` itself is the single character `'0'`).
pub open spec fn spec_dec(n: int) -> Seq<char>
    decreases n,
{
    if n < 10 {
        seq![spec_digit(n)]
    } else {
        spec_dec(n / 10) + seq![spec_digit(n % 10)]
    }
}

/// The concatenation of the views of `ds` in reverse order.
spec fn rev_join(ds: Seq<&str>) -> Seq<char>
    decreases ds.len(),
{
    if ds.len() == 0 {
        Seq::empty()
    } else {
        ds.last()@ + rev_join(ds.drop_last())
    }
}

/// A one-character string slice holding the decimal digit for `d`.
fn digit_str(d: u64) -> (r: &'static str)
    requires
        d < 10,
    ensures
        r@ == seq![spec_digit(d as int)],
{
    proof {
        reveal_strlit("0");
        reveal_strlit("1");
        reveal_strlit("2");
        reveal_strlit("3");
        reveal_strlit("4");
        reveal_strlit("5");
        reveal_strlit("6");
        reveal_strlit("7");
        reveal_strlit("8");
        reveal_strlit("9");
    }
    if d == 0 {
        "0"
    } else if d == 1 {
        "1"
    } else if d == 2 {
        "2"
    } else if d == 3 {
        "3"
    } else if d == 4 {
        "4"
    } else if d == 5 {
        "5"
    } else if d == 6 {
        "6"
    } else if d == 7 {
        "7"
    } else if d == 8 {
        "8"
    } else {
        "9"
    }
}

/// Format `n` in decimal.
pub fn u64_to_string(n: u64) -> (r: String)
    ensures
        r@ == spec_dec(n as int),
{
    if n == 0 {
        proof {
            reveal_strlit("0");
        }
        let r = String::from_str("0");
        assert(r@ =~= spec_dec(0));
        return r;
    }
    let mut digits: Vec<&str> = Vec::new();
    let mut m: u64 = n;
    while m > 0
        invariant
            spec_dec(n as int) == if m > 0 {
                spec_dec(m as int) + rev_join(digits@)
            } else {
                rev_join(digits@)
            },
        decreases m,
    {
        let ghost old_digits = digits@;
        let ghost old_m = m as int;
        let d = digit_str(m % 10);
        digits.push(d);
        m = m / 10;
        proof {
            assert(digits@.drop_last() =~= old_digits);
            assert(rev_join(digits@) == seq![spec_digit(old_m % 10)] + rev_join(old_digits));
            if old_m >= 10 {
                assert(spec_dec(old_m) == spec_dec(old_m / 10) + seq![spec_digit(old_m % 10)]);
                assert(spec_dec(m as int) + rev_join(digits@) =~= spec_dec(old_m) + rev_join(
                    old_digits,
                ));
            } else {
                assert(spec_dec(old_m) == seq![spec_digit(old_m)]);
                assert(rev_join(digits@) =~= spec_dec(old_m) + rev_join(old_digits));
            }
        }
    }
    let mut s = String::new();
    let mut i: usize = digits.len();
    proof {
        assert(digits@.subrange(0, i as int) =~= digits@);
    }
    while i > 0
        invariant
            i <= digits@.len(),
            s@ + rev_join(digits@.subrange(0, i as int)) == rev_join(digits@),
        decreases i,
    {
        let ghost old_s = s@;
        let ghost old_i = i as int;
        i -= 1;
        let piece = digits[i];
        s.append(piece);
        proof {
            assert(digits@.subrange(0, old_i).drop_last() =~= digits@.subrange(0, i as int));
            assert(rev_join(digits@.subrange(0, old_i)) == digits@[i as int]@ + rev_join(
                digits@.subrange(0, i as int),
            ));
            assert(s@ + rev_join(digits@.subrange(0, i as int)) =~= old_s + rev_join(
                digits@.subrange(0, old_i),
            ));
        }
    }
    proof {
        assert(digits@.subrange(0, 0) =~= Seq::<&str>::empty());
        assert(s@ =~= s@ + rev_join(digits@.subrange(0, 0)));
    }
    s
}

/// Format `n` in decimal.
pub fn u16_to_string(n: u16) -> (r: String)
    ensures
        r@ == spec_dec(n as int),
{
    u64_to_string(n as u64)
}

/// Format `n` in decimal.
pub fn u8_to_string(n: u8) -> (r: String)
    ensures
        r@ == spec_dec(n as int),
{
    u64_to_string(n as u64)
}

/// The body of a single-quoted shell word: each single quote and backslash
/// prefixed with a backslash, every other character kept.
pub open spec fn spec_escape_chars(s: Seq<char>) -> Seq<char>
    decreases s.len(),
{
    if s.len() == 0 {
        Seq::empty()
    } else {
        let c = s.last();
        spec_escape_chars(s.drop_last()) + (if c == '\'' || c == '\\' {
            seq!['\\', c]
        } else {
            seq![c]
        })
    }
}

/// A shell-quoted form of a word: the input wrapped in single quotes, with
/// each single quote and backslash within escaped by a backslash.
pub open spec fn spec_shell_escape(s: Seq<char>) -> Seq<char> {
    seq!['\''] + spec_escape_chars(s) + seq!['\'']
}

/// Quote a word for a shell: wrap it in single quotes and escape each single
/// quote and backslash within.
pub fn shell_escape(input: &str) -> (r: String)
    ensures
        r@ == spec_shell_escape(input@),
{
    proof {
        reveal_strlit("'");
    }
    let n = input.unicode_len();
    let mut s = String::from_str("'");
    let mut i: usize = 0;
    proof {
        assert(input@.subrange(0, 0) =~= Seq::<char>::empty());
        assert(s@ =~= seq!['\''] + spec_escape_chars(input@.subrange(0, 0)));
    }
    while i < n
        invariant
            i <= n,
            n == input@.len(),
            s@ == seq!['\''] + spec_escape_chars(input@.subrange(0, i as int)),
        decreases n - i,
    {
        let c = input.get_char(i);
        if c == '\'' || c == '\\' {
            proof {
                reveal_strlit("\\");
            }
            s.append("\\");
        }
        s.append(input.substring_char(i, i + 1));
        proof {
            assert(input@.subrange(0, i + 1 as int).drop_last() =~= input@.subrange(0, i as int));
            assert(input@.subrange(0, i + 1 as int).last() == input@[i as int]);
            assert(input@.subrange(i as int, i + 1 as int) =~= seq![input@[i as int]]);
            assert(s@ =~= seq!['\''] + spec_escape_chars(input@.subrange(0, i + 1 as int)));
        }
        i += 1;
    }
    proof {
        reveal_strlit("'");
        assert(input@.subrange(0, n as int) =~= input@);
    }
    s.append("'");
    proof {
        assert(s@ =~= spec_shell_escape(input@));
    }
    s
}

} // verus!
