//! Character-level helpers: equality, prefix and substring tests on
//! strings, and the lowercase form of an identity.

use vstd::prelude::*;
use vstd::string::StrSliceExecFns;
use vstd::string::StringExecFns;

verus! {

/// The characters of `needle` appear as a contiguous run in `hay`
/// beginning at index `i`.
pub open spec fn sub_at(hay: Seq<char>, needle: Seq<char>, i: int) -> bool {
    0 <= i && i + needle.len() <= hay.len() && hay.subrange(i, i + needle.len() as int)
        == needle
}

/// `needle` occurs somewhere inside `hay`.
pub open spec fn contains_sub(hay: Seq<char>, needle: Seq<char>) -> bool {
    exists|i: int| sub_at(hay, needle, i)
}

/// `s` begins with `prefix`.
pub open spec fn starts_with(s: Seq<char>, prefix: Seq<char>) -> bool {
    prefix.len() <= s.len() && s.subrange(0, prefix.len() as int) == prefix
}

/// The lowercase form of a string, as the standard library computes it.
pub uninterp spec fn lower_of(s: Seq<char>) -> Seq<char>;

/// Relies on str::to_lowercase: the lowercase form depends on the
/// characters alone.
#[verifier::external_body]
pub(crate) fn lowercase(s: &str) -> (r: String)
    ensures
        r@ == lower_of(s@),
{
    s.to_lowercase()
}

/// Character-for-character string equality.
pub fn str_eq(a: &str, b: &str) -> (r: bool)
    ensures
        r == (a@ == b@),
{
    let owned_a = a.to_owned();
    let owned_b = b.to_owned();
    owned_a == owned_b
}

/// Whether `s` begins with `prefix`, by characters.
pub fn str_starts_with(s: &str, prefix: &str) -> (r: bool)
    ensures
        r == starts_with(s@, prefix@),
{
    let n = prefix.unicode_len();
    let m = s.unicode_len();
    if n > m {
        return false;
    }
    let mut i: usize = 0;
    while i < n
        invariant
            i <= n,
            n == prefix@.len(),
            m == s@.len(),
            n <= m,
            forall|j: int| 0 <= j < i ==> s@[j] == prefix@[j],
        decreases n - i,
    {
        if s.get_char(i) != prefix.get_char(i) {
            return false;
        }
        i += 1;
    }
    proof {
        assert(s@.subrange(0, prefix@.len() as int) =~= prefix@);
    }
    true
}

/// Whether `needle` occurs inside `hay`, by characters.
pub fn str_contains(hay: &str, needle: &str) -> (r: bool)
    ensures
        r == contains_sub(hay@, needle@),
{
    let m = hay.unicode_len();
    let n = needle.unicode_len();
    if n == 0 {
        proof {
            assert(hay@.subrange(0, 0) =~= needle@);
            assert(sub_at(hay@, needle@, 0));
        }
        return true;
    }
    if n > m {
        return false;
    }
    let mut i: usize = 0;
    while i <= m - n
        invariant
            i <= m - n + 1,
            1 <= n == needle@.len(),
            m == hay@.len(),
            n <= m,
            forall|k: int| 0 <= k < i ==> !sub_at(hay@, needle@, k),
        decreases m - n + 1 - i,
    {
        let mut j: usize = 0;
        let mut hit = true;
        while j < n && hit
            invariant
                j <= n,
                i <= m - n,
                n == needle@.len(),
                m == hay@.len(),
                hit ==> forall|l: int| 0 <= l < j ==> hay@[i + l] == needle@[l],
                !hit ==> j < n && hay@[i + j] != needle@[j as int],
            decreases n - j + (if hit { 1int } else { 0int }),
        {
            if hay.get_char(i + j) != needle.get_char(j) {
                hit = false;
            } else {
                j += 1;
            }
        }
        if hit {
            proof {
                assert(hay@.subrange(i as int, i + needle@.len() as int) =~= needle@);
                assert(sub_at(hay@, needle@, i as int));
            }
            return true;
        }
        proof {
            assert(!sub_at(hay@, needle@, i as int)) by {
                if sub_at(hay@, needle@, i as int) {
                    assert(hay@.subrange(i as int, i + needle@.len() as int)[j as int]
                        == needle@[j as int]);
                }
            }
        }
        i += 1;
    }
    proof {
        assert forall|k: int| !sub_at(hay@, needle@, k) by {
            if 0 <= k <= m - n {
                assert(!sub_at(hay@, needle@, k));
            }
        }
    }
    false
}

/// A truth value, written out.
pub open spec fn spec_bool_str(b: bool) -> Seq<char> {
    if b {
        "true"@
    } else {
        "false"@
    }
}

/// Writes a truth value as "true" or "false".
pub fn bool_str(b: bool) -> (r: &'static str)
    ensures
        r@ == spec_bool_str(b),
{
    if b {
        "true"
    } else {
        "false"
    }
}

/// The decimal digit `d` as a character.
pub open spec fn spec_digit_char(d: int) -> char {
    if d == 0 {
        '0'
    } else if d == 1 {
        '1'
    } else if d == 2 {
        '2'
    } else if d == 3 {
        '3'
    } else if d == 4 {
        '4'
    } else if d == 5 {
        '5'
    } else if d == 6 {
        '6'
    } else if d == 7 {
        '7'
    } else if d == 8 {
        '8'
    } else {
        '9'
    }
}

/// The decimal writing of `n`, most significant digit first, with no
/// leading zeros (the number zero being written "0").
pub open spec fn spec_u64_string(n: nat) -> Seq<char>
    decreases n,
{
    if n < 10 {
        seq![spec_digit_char(n as int)]
    } else {
        spec_u64_string(n / 10) + seq![spec_digit_char((n % 10) as int)]
    }
}

/// One decimal digit, written out.
fn digit_str(d: u64) -> (r: &'static str)
    requires
        d <= 9,
    ensures
        r@ == seq![spec_digit_char(d as int)],
{
    proof {
        reveal_strlit("0");
        reveal_strlit("1");
        reveal_strlit("2");
        reveal_strlit("3");
        reveal_strlit("4");
        reveal_strlit("5");
        reveal_strlit("6");
        reveal_strlit("7");
        reveal_strlit("8");
        reveal_strlit("9");
    }
    let r = match d {
        0 => "0",
        1 => "1",
        2 => "2",
        3 => "3",
        4 => "4",
        5 => "5",
        6 => "6",
        7 => "7",
        8 => "8",
        _ => "9",
    };
    proof {
        assert(r@ =~= seq![spec_digit_char(d as int)]);
    }
    r
}

/// Writes `n` in decimal.
pub fn u64_string(n: u64) -> (r: String)
    ensures
        r@ == spec_u64_string(n as nat),
    decreases n,
{
    if n < 10 {
        digit_str(n).to_owned()
    } else {
        proof {
            vstd::arithmetic::div_mod::lemma_div_decreases(n as int, 10);
        }
        let mut r = u64_string(n / 10);
        r.append(digit_str(n % 10));
        r
    }
}

} // verus!
