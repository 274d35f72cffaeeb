//! Small verified text helpers: character-wise string equality, a
//! case-insensitive substring search used by the option safety screen, and a
//! bounded decimal integer reader used by option value validation.

use vstd::prelude::*;

verus! {

/// Code point of `c`, with an ASCII capital letter folded to its small form.
pub open spec fn fold_char(c: char) -> int {
    if 65 <= c as int && c as int <= 90 {
        c as int + 32
    } else {
        c as int
    }
}

/// The two characters are equal up to ASCII case.
pub open spec fn ci_char_eq(a: char, b: char) -> bool {
    fold_char(a) == fold_char(b)
}

/// `pat` occurs in `s` starting at position `i`, up to ASCII case.
pub open spec fn ci_match_at(s: Seq<char>, pat: Seq<char>, i: int) -> bool {
    &&& 0 <= i
    &&& i + pat.len() <= s.len()
    &&& forall|j: int| 0 <= j < pat.len() ==> ci_char_eq(s[i + j], pat[j])
}

/// `pat` occurs somewhere in `s`, up to ASCII case.
pub open spec fn ci_contains(s: Seq<char>, pat: Seq<char>) -> bool {
    exists|i: int| ci_match_at(s, pat, i)
}

/// Case-folded code point of `c`, as executable code.
fn fold_char_exec(c: char) -> (r: u32)
    ensures
        r == fold_char(c),
{
    let u = c as u32;
    if 65 <= u && u <= 90 {
        u + 32
    } else {
        u
    }
}

/// The two string slices hold the same characters.
pub fn str_eq(a: &str, b: &str) -> (r: bool)
    ensures
        r == (a@ == b@),
{
    let alen = a.unicode_len();
    let blen = b.unicode_len();
    if alen != blen {
        return false;
    }
    let mut i: usize = 0;
    while i < alen
        invariant
            i <= alen,
            alen == a@.len(),
            alen == b@.len(),
            forall|j: int| 0 <= j < i ==> a@[j] == b@[j],
        decreases alen - i,
    {
        if a.get_char(i) != b.get_char(i) {
            return false;
        }
        i = i + 1;
    }
    proof {
        assert(a@ =~= b@);
    }
    true
}

/// Whether `pat` occurs in `s`, ignoring ASCII case.
pub fn contains_ci(s: &str, pat: &str) -> (r: bool)
    ensures
        r == ci_contains(s@, pat@),
{
    let slen = s.unicode_len();
    let plen = pat.unicode_len();
    if plen > slen {
        proof {
            assert forall|i: int| !ci_match_at(s@, pat@, i) by {}
        }
        return false;
    }
    let mut i: usize = 0;
    while i <= slen - plen
        invariant
            plen <= slen,
            slen == s@.len(),
            plen == pat@.len(),
            i <= slen - plen + 1,
            forall|k: int| 0 <= k < i ==> !ci_match_at(s@, pat@, k),
        decreases slen - plen + 1 - i,
    {
        let mut j: usize = 0;
        let mut matched = true;
        while j < plen
            invariant
                j <= plen,
                plen <= slen,
                slen == s@.len(),
                plen == pat@.len(),
                i <= slen - plen,
                matched ==> forall|t: int| 0 <= t < j ==> ci_char_eq(s@[i + t], pat@[t]),
                !matched ==> !ci_match_at(s@, pat@, i as int),
            decreases plen - j,
        {
            if fold_char_exec(s.get_char(i + j)) != fold_char_exec(pat.get_char(j)) {
                matched = false;
            }
            j = j + 1;
        }
        if matched {
            proof {
                assert(ci_match_at(s@, pat@, i as int));
            }
            return true;
        }
        i = i + 1;
    }
    proof {
        assert forall|k: int| !ci_match_at(s@, pat@, k) by {
            if 0 <= k && k + pat@.len() <= s@.len() {
                assert(k < i);
            }
        }
    }
    false
}

/// `c` is a decimal digit.
pub open spec fn is_digit(c: char) -> bool {
    48 <= c as int && c as int <= 57
}

/// Numeric value of a digit character.
pub open spec fn digit_val(c: char) -> int {
    c as int - 48
}

/// Every character of `s` is a decimal digit.
pub open spec fn all_digits(s: Seq<char>) -> bool {
    forall|i: int| 0 <= i < s.len() ==> is_digit(s[i])
}

/// Value of an all-digit string read as a decimal number.
pub open spec fn digits_val(s: Seq<char>) -> int
    decreases s.len(),
{
    if s.len() == 0 {
        0
    } else {
        digits_val(s.drop_last()) * 10 + digit_val(s.last())
    }
}

/// Ten to the `n`th power.
pub open spec fn pow10(n: int) -> int
    decreases n,
{
    if n <= 0 {
        1
    } else {
        10 * pow10(n - 1)
    }
}

pub proof fn lemma_pow10_mono(a: int, b: int)
    requires
        a <= b,
    ensures
        pow10(a) <= pow10(b),
    decreases b - a,
{
    if a < b {
        lemma_pow10_mono(a, b - 1);
        lemma_pow10_pos(b - 1);
    }
}

pub proof fn lemma_pow10_pos(n: int)
    ensures
        pow10(n) >= 1,
    decreases n,
{
    if n > 0 {
        lemma_pow10_pos(n - 1);
    }
}

/// An all-digit string of length `n` reads as a value below ten to the `n`th.
pub proof fn lemma_digits_val_bound(s: Seq<char>)
    requires
        all_digits(s),
    ensures
        0 <= digits_val(s) < pow10(s.len() as int),
    decreases s.len(),
{
    if s.len() > 0 {
        assert(all_digits(s.drop_last()));
        lemma_digits_val_bound(s.drop_last());
        assert(is_digit(s.last()));
    }
}

/// The longest digit run accepted by the integer reader.
pub const MAX_INT_DIGITS: usize = 18;

/// A decimal integer literal: an optional minus sign, then one to eighteen
/// decimal digits.
pub open spec fn is_int_literal(s: Seq<char>) -> bool {
    if s.len() > 0 && s[0] == '-' {
        2 <= s.len() <= 19 && all_digits(s.skip(1))
    } else {
        1 <= s.len() <= 18 && all_digits(s)
    }
}

/// Mathematical value of a decimal integer literal.
pub open spec fn int_literal_val(s: Seq<char>) -> int {
    if s.len() > 0 && s[0] == '-' {
        -digits_val(s.skip(1))
    } else {
        digits_val(s)
    }
}

/// Reads a decimal integer literal of at most eighteen digits.
pub fn parse_int(s: &str) -> (r: Option<i64>)
    ensures
        r is Some <==> is_int_literal(s@),
        r is Some ==> r.unwrap() as int == int_literal_val(s@),
{
    let len = s.unicode_len();
    if len == 0 {
        return None;
    }
    let neg = s.get_char(0) == '-';
    let start: usize = if neg { 1 } else { 0 };
    if len - start < 1 || len - start > MAX_INT_DIGITS {
        return None;
    }
    let mut i: usize = start;
    let mut acc: i64 = 0;
    while i < len
        invariant
            start <= i <= len,
            len == s@.len(),
            neg <==> (s@.len() > 0 && s@[0] == '-'),
            start == if neg { 1int } else { 0int },
            1 <= len - start <= 18,
            all_digits(s@.subrange(start as int, i as int)),
            acc == digits_val(s@.subrange(start as int, i as int)),
            0 <= acc < pow10(i - start),
        decreases len - i,
    {
        let u = s.get_char(i) as u32;
        if u < 48 || u > 57 {
            proof {
                assert(!is_digit(s@[i as int]));
                if neg {
                    assert(s@.skip(1)[i - 1] == s@[i as int]);
                    assert(!all_digits(s@.skip(1)));
                } else {
                    assert(!all_digits(s@));
                }
            }
            return None;
        }
        let d = (u - 48) as i64;
        proof {
            lemma_pow10_mono(i - start, 17);
            assert(pow10(17) == 100000000000000000) by {
                reveal_with_fuel(pow10, 20);
            }
        }
        acc = acc * 10 + d;
        i = i + 1;
        proof {
            let sub = s@.subrange(start as int, i as int);
            assert(sub.drop_last() =~= s@.subrange(start as int, i - 1));
            assert(sub.last() == s@[i - 1]);
            lemma_digits_val_bound(sub);
        }
    }
    proof {
        if neg {
            assert(s@.subrange(start as int, len as int) =~= s@.skip(1));
        } else {
            assert(s@.subrange(start as int, len as int) =~= s@);
        }
    }
    if neg {
        Some(-acc)
    } else {
        Some(acc)
    }
}

} // verus!
