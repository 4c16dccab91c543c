//! Small verified string helpers shared by the catalog modules: character
//! comparison, prefix tests, trailing-separator trimming, and lookup of a
//! value by key in a list of string pairs.

use vstd::prelude::*;
use vstd::string::{StrSliceExecFns, StringExecFns};

verus! {

/// `p` is a prefix of `s`.
pub open spec fn starts_with(s: Seq<char>, p: Seq<char>) -> bool {
    p.len() <= s.len() && s.subrange(0, p.len() as int) == p
}

/// Compares two string slices character by character.
pub fn str_eq(a: &str, b: &str) -> (r: bool)
    ensures
        r == (a@ == b@),
{
    let alen = a.unicode_len();
    let blen = b.unicode_len();
    if alen != blen {
        return false;
    }
    let mut i: usize = 0;
    while i < alen
        invariant
            i <= alen,
            forall|k: int| 0 <= k < i ==> a@[k] == b@[k],
        decreases alen - i,
    {
        if a.get_char(i) != b.get_char(i) {
            return false;
        }
        i += 1;
    }
    proof {
        assert(a@ =~= b@);
    }
    true
}

/// Tests whether `s` starts with `p`, character by character.
pub fn str_starts_with(s: &str, p: &str) -> (r: bool)
    ensures
        r == starts_with(s@, p@),
{
    let slen = s.unicode_len();
    let plen = p.unicode_len();
    if plen > slen {
        return false;
    }
    let mut i: usize = 0;
    while i < plen
        invariant
            i <= plen,
            plen <= slen,
            forall|k: int| 0 <= k < i ==> s@[k] == p@[k],
        decreases plen - i,
    {
        if s.get_char(i) != p.get_char(i) {
            proof {
                assert(s@.subrange(0, p@.len() as int)[i as int] == s@[i as int]);
            }
            return false;
        }
        i += 1;
    }
    proof {
        assert(s@.subrange(0, p@.len() as int) =~= p@);
    }
    true
}

/// `s` with every trailing `/` removed.
pub open spec fn trim_trailing_slashes(s: Seq<char>) -> Seq<char>
    decreases s.len(),
{
    if s.len() > 0 && s.last() == '/' {
        trim_trailing_slashes(s.drop_last())
    } else {
        s
    }
}

/// Removes every trailing `/` from `s`.
pub fn trim_slashes(s: &str) -> (r: &str)
    ensures
        r@ == trim_trailing_slashes(s@),
{
    let len = s.unicode_len();
    let mut k: usize = len;
    proof {
        assert(s@.subrange(0, len as int) =~= s@);
    }
    while k > 0 && s.get_char(k - 1) == '/'
        invariant
            k <= len,
            trim_trailing_slashes(s@) == trim_trailing_slashes(s@.subrange(0, k as int)),
        decreases k,
    {
        proof {
            assert(s@.subrange(0, k as int).drop_last() =~= s@.subrange(0, k - 1));
        }
        k -= 1;
    }
    proof {
        assert(s@.subrange(0, len as int) =~= s@);
    }
    s.substring_char(0, k)
}

/// The decimal digit character for `d`.
pub open spec fn digit_char(d: int) -> char {
    if d == 0 {
        '0'
    } else if d == 1 {
        '1'
    } else if d == 2 {
        '2'
    } else if d == 3 {
        '3'
    } else if d == 4 {
        '4'
    } else if d == 5 {
        '5'
    } else if d == 6 {
        '6'
    } else if d == 7 {
        '7'
    } else if d == 8 {
        '8'
    } else {
        '9'
    }
}

/// The decimal representation of `n`, most significant digit first, without
/// leading zeros (`0` is written as one digit).
pub open spec fn dec_rep(n: nat) -> Seq<char>
    decreases n,
{
    if n < 10 {
        seq![digit_char(n as int)]
    } else {
        dec_rep(n / 10).push(digit_char((n % 10) as int))
    }
}

/// The digits of `s` as characters, in reverse order.
pub open spec fn digits_chars(s: Seq<u16>) -> Seq<char> {
    Seq::new(s.len(), |i: int| digit_char(s[s.len() - 1 - i] as int))
}

/// The one-character string for a decimal digit.
fn digit_str(d: u16) -> (r: &'static str)
    requires
        d < 10,
    ensures
        r@ == seq![digit_char(d as int)],
{
    if d == 0 {
        proof {
            reveal_strlit("0");
            assert("0"@ =~= seq![digit_char(0)]);
        }
        "0"
    } else if d == 1 {
        proof {
            reveal_strlit("1");
            assert("1"@ =~= seq![digit_char(1)]);
        }
        "1"
    } else if d == 2 {
        proof {
            reveal_strlit("2");
            assert("2"@ =~= seq![digit_char(2)]);
        }
        "2"
    } else if d == 3 {
        proof {
            reveal_strlit("3");
            assert("3"@ =~= seq![digit_char(3)]);
        }
        "3"
    } else if d == 4 {
        proof {
            reveal_strlit("4");
            assert("4"@ =~= seq![digit_char(4)]);
        }
        "4"
    } else if d == 5 {
        proof {
            reveal_strlit("5");
            assert("5"@ =~= seq![digit_char(5)]);
        }
        "5"
    } else if d == 6 {
        proof {
            reveal_strlit("6");
            assert("6"@ =~= seq![digit_char(6)]);
        }
        "6"
    } else if d == 7 {
        proof {
            reveal_strlit("7");
            assert("7"@ =~= seq![digit_char(7)]);
        }
        "7"
    } else if d == 8 {
        proof {
            reveal_strlit("8");
            assert("8"@ =~= seq![digit_char(8)]);
        }
        "8"
    } else {
        proof {
            reveal_strlit("9");
            assert("9"@ =~= seq![digit_char(9)]);
        }
        "9"
    }
}

/// Writes `n` in decimal.
pub fn u16_string(n: u16) -> (r: String)
    ensures
        r@ == dec_rep(n as nat),
{
    let mut digits: Vec<u16> = Vec::new();
    let mut m: u16 = n;
    proof {
        assert(dec_rep(n as nat) + digits_chars(digits@) =~= dec_rep(n as nat));
    }
    while m >= 10
        invariant
            dec_rep(n as nat) == dec_rep(m as nat) + digits_chars(digits@),
            forall|t: int| 0 <= t < digits@.len() ==> digits@[t] < 10,
        decreases m,
    {
        let d: u16 = m % 10;
        proof {
            let old_digits = digits@;
            assert(digits_chars(old_digits.push(d)) =~= seq![digit_char(d as int)]
                + digits_chars(old_digits));
            assert(dec_rep(m as nat) == dec_rep((m / 10) as nat).push(
                digit_char((m % 10) as int),
            ));
            assert(dec_rep((m / 10) as nat) + (seq![digit_char(d as int)] + digits_chars(
                old_digits,
            )) =~= dec_rep((m / 10) as nat).push(digit_char(d as int)) + digits_chars(old_digits));
        }
        digits.push(d);
        m = m / 10;
    }
    proof {
        let old_digits = digits@;
        assert(dec_rep(m as nat) == seq![digit_char(m as int)]);
        assert(digits_chars(old_digits.push(m)) =~= seq![digit_char(m as int)] + digits_chars(
            old_digits,
        ));
        assert(seq![digit_char(m as int)] + digits_chars(old_digits) =~= dec_rep(m as nat)
            + digits_chars(old_digits));
    }
    digits.push(m);
    let k = digits.len();
    let mut r = String::new();
    let mut j: usize = k;
    proof {
        assert(r@ =~= digits_chars(digits@).subrange(0, k - j));
    }
    while j > 0
        invariant
            j <= k,
            k == digits@.len(),
            forall|t: int| 0 <= t < digits@.len() ==> digits@[t] < 10,
            dec_rep(n as nat) == digits_chars(digits@),
            r@ == digits_chars(digits@).subrange(0, k - j),
        decreases j,
    {
        let s = digit_str(digits[j - 1]);
        proof {
            let cs = digits_chars(digits@);
            assert(cs[k - j] == digit_char(digits@[j - 1] as int));
            assert(cs.subrange(0, k - j + 1) =~= cs.subrange(0, k - j) + seq![cs[k - j]]);
        }
        r.append(s);
        j -= 1;
    }
    proof {
        assert(digits_chars(digits@).subrange(0, k as int) =~= digits_chars(digits@));
    }
    r
}

/// The view of a list of string pairs.
pub open spec fn pairs_model(pairs: Seq<(String, String)>) -> Seq<(Seq<char>, Seq<char>)> {
    Seq::new(pairs.len(), |i: int| (pairs[i].0@, pairs[i].1@))
}

/// The value of the first pair whose key is `key`, scanning from index `i`.
pub open spec fn lookup_from(
    pairs: Seq<(Seq<char>, Seq<char>)>,
    key: Seq<char>,
    i: int,
) -> Option<Seq<char>>
    decreases pairs.len() - i,
{
    if i < 0 || i >= pairs.len() {
        None
    } else if pairs[i].0 == key {
        Some(pairs[i].1)
    } else {
        lookup_from(pairs, key, i + 1)
    }
}

/// The value of the first pair whose key is `key`.
pub open spec fn lookup_in(pairs: Seq<(Seq<char>, Seq<char>)>, key: Seq<char>) -> Option<
    Seq<char>,
> {
    lookup_from(pairs, key, 0)
}

/// Finds the value of the first pair whose key is `key`.
pub fn lookup(pairs: &Vec<(String, String)>, key: &str) -> (r: Option<String>)
    ensures
        match r {
            Some(v) => lookup_in(pairs_model(pairs@), key@) == Some(v@),
            None => lookup_in(pairs_model(pairs@), key@) is None,
        },
{
    let ghost m = pairs_model(pairs@);
    let mut i: usize = 0;
    while i < pairs.len()
        invariant
            i <= pairs@.len(),
            lookup_in(m, key@) == lookup_from(m, key@, i as int),
        decreases pairs@.len() - i,
    {
        if str_eq(pairs[i].0.as_str(), key) {
            return Some(pairs[i].1.clone());
        }
        i += 1;
    }
    None
}

} // verus!
