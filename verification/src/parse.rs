//! Reading a brightness value out of the bytes of a sysfs file.
//!
//! A backlight device's `brightness` and `max_brightness` files hold a
//! base-10 non-negative integer padded with whitespace (usually a trailing
//! newline). `parse_brightness_value` accepts exactly those contents whose
//! trimmed text is a nonempty run of decimal digits with a value that fits
//! in `u32`, and rejects everything else.

use vstd::prelude::*;

verus! {

/// ASCII whitespace accepted around a reading: space, tab, line feed,
/// carriage return.
pub open spec fn is_space(b: u8) -> bool {
    b == 32 || b == 9 || b == 10 || b == 13
}

/// ASCII decimal digit.
pub open spec fn is_digit(b: u8) -> bool {
    48 <= b <= 57
}

/// The bytes left after removing leading whitespace.
pub open spec fn trim_front(s: Seq<u8>) -> Seq<u8>
    decreases s.len(),
{
    if s.len() > 0 && is_space(s[0]) {
        trim_front(s.subrange(1, s.len() as int))
    } else {
        s
    }
}

/// The bytes left after removing trailing whitespace.
pub open spec fn trim_back(s: Seq<u8>) -> Seq<u8>
    decreases s.len(),
{
    if s.len() > 0 && is_space(s[s.len() - 1]) {
        trim_back(s.subrange(0, s.len() - 1))
    } else {
        s
    }
}

/// The bytes left after removing whitespace from both ends.
pub open spec fn trimmed(s: Seq<u8>) -> Seq<u8> {
    trim_back(trim_front(s))
}

pub open spec fn all_digits(s: Seq<u8>) -> bool {
    forall|i: int| 0 <= i < s.len() ==> is_digit(#[trigger] s[i])
}

/// The number a run of decimal digits denotes, most significant first.
pub open spec fn digits_value(s: Seq<u8>) -> int
    decreases s.len(),
{
    if s.len() == 0 {
        0
    } else {
        digits_value(s.subrange(0, s.len() - 1)) * 10 + (s[s.len() - 1] - 48)
    }
}

/// What it means for file contents to hold a brightness reading: after
/// trimming, a nonempty run of decimal digits whose value fits in `u32`.
pub open spec fn parses(s: Seq<u8>) -> bool {
    &&& trimmed(s).len() > 0
    &&& all_digits(trimmed(s))
    &&& digits_value(trimmed(s)) <= u32::MAX
}

fn byte_is_space(b: u8) -> (r: bool)
    ensures
        r == is_space(b),
{
    b == 32 || b == 9 || b == 10 || b == 13
}

fn byte_is_digit(b: u8) -> (r: bool)
    ensures
        r == is_digit(b),
{
    48 <= b && b <= 57
}

proof fn lemma_trim_front_skip(s: Seq<u8>, i: int)
    requires
        0 <= i <= s.len(),
        forall|k: int| 0 <= k < i ==> is_space(#[trigger] s[k]),
    ensures
        trim_front(s) == trim_front(s.subrange(i, s.len() as int)),
    decreases i,
{
    if i == 0 {
        assert(s.subrange(0, s.len() as int) =~= s);
    } else {
        let t = s.subrange(1, s.len() as int);
        lemma_trim_front_skip(t, i - 1);
        assert(t.subrange(i - 1, t.len() as int) =~= s.subrange(i, s.len() as int));
    }
}

proof fn lemma_trim_back_skip(s: Seq<u8>, j: int)
    requires
        0 <= j <= s.len(),
        forall|k: int| j <= k < s.len() ==> is_space(#[trigger] s[k]),
    ensures
        trim_back(s) == trim_back(s.subrange(0, j)),
    decreases s.len() - j,
{
    if j == s.len() {
        assert(s.subrange(0, s.len() as int) =~= s);
    } else {
        let t = s.subrange(0, s.len() - 1);
        lemma_trim_back_skip(t, j);
        assert(t.subrange(0, j) =~= s.subrange(0, j));
    }
}

proof fn lemma_digits_value_nonneg(s: Seq<u8>)
    requires
        all_digits(s),
    ensures
        digits_value(s) >= 0,
    decreases s.len(),
{
    if s.len() > 0 {
        lemma_digits_value_nonneg(s.subrange(0, s.len() - 1));
    }
}

/// Extending a digit run to the right never shrinks its value.
proof fn lemma_digits_value_prefix_le(s: Seq<u8>, i: int)
    requires
        all_digits(s),
        0 <= i <= s.len(),
    ensures
        digits_value(s.subrange(0, i)) <= digits_value(s),
    decreases s.len() - i,
{
    if i == s.len() {
        assert(s.subrange(0, i) =~= s);
    } else {
        lemma_digits_value_nonneg(s.subrange(0, i));
        assert(s.subrange(0, i + 1).subrange(0, i) =~= s.subrange(0, i));
        assert(digits_value(s.subrange(0, i + 1)) == digits_value(s.subrange(0, i)) * 10 + (
        s.subrange(0, i + 1)[i] - 48));
        lemma_digits_value_prefix_le(s, i + 1);
    }
}

/// Reads a non-negative base-10 integer out of file contents, tolerating
/// surrounding whitespace. Returns `None` exactly when the contents do not
/// hold such a reading, or when its value does not fit in `u32`.
pub fn parse_brightness_value(s: &[u8]) -> (r: Option<u32>)
    ensures
        r is Some <==> parses(s@),
        r matches Some(v) ==> v as int == digits_value(trimmed(s@)),
{
    let n: usize = s.len();
    let mut i: usize = 0;
    while i < n && byte_is_space(s[i])
        invariant
            0 <= i <= n,
            n == s@.len(),
            forall|k: int| 0 <= k < i ==> is_space(#[trigger] s@[k]),
        decreases n - i,
    {
        i = i + 1;
    }
    proof {
        lemma_trim_front_skip(s@, i as int);
    }
    if i == n {
        proof {
            assert(s@.subrange(n as int, n as int) =~= Seq::<u8>::empty());
            assert(trimmed(s@).len() == 0);
        }
        return None;
    }
    let mut j: usize = n;
    while j > i && byte_is_space(s[j - 1])
        invariant
            i < j <= n,
            n == s@.len(),
            !is_space(s@[i as int]),
            forall|k: int| j <= k < n ==> is_space(#[trigger] s@[k]),
        decreases j,
    {
        j = j - 1;
    }
    let ghost t = s@.subrange(i as int, j as int);
    proof {
        let f = s@.subrange(i as int, n as int);
        assert(f[0] == s@[i as int]);
        assert(trim_front(s@) == f);
        lemma_trim_back_skip(f, j - i);
        assert(f.subrange(0, j - i) =~= t);
        assert(t[t.len() - 1] == s@[j - 1]);
        assert(trim_back(t) == t);
        assert(trimmed(s@) == t);
    }
    let mut acc: u64 = 0;
    let mut k: usize = i;
    while k < j
        invariant
            i <= k <= j <= n,
            i < j,
            n == s@.len(),
            t == s@.subrange(i as int, j as int),
            trimmed(s@) == t,
            all_digits(s@.subrange(i as int, k as int)),
            acc as int == digits_value(s@.subrange(i as int, k as int)),
            acc <= u32::MAX,
        decreases j - k,
    {
        let b = s[k];
        proof {
            assert(t[k - i] == s@[k as int]);
        }
        if !byte_is_digit(b) {
            proof {
                assert(!all_digits(t)) by {
                    assert(!is_digit(t[k - i]));
                }
            }
            return None;
        }
        let d: u64 = (b - 48) as u64;
        proof {
            let pre = s@.subrange(i as int, k as int);
            let ext = s@.subrange(i as int, (k + 1) as int);
            assert(ext.subrange(0, ext.len() - 1) =~= pre);
            assert(ext[ext.len() - 1] == s@[k as int]);
            assert(digits_value(ext) == digits_value(pre) * 10 + (s@[k as int] - 48));
        }
        acc = acc * 10 + d;
        if acc > 0xFFFF_FFFF {
            proof {
                if all_digits(t) {
                    lemma_digits_value_prefix_le(t, k + 1 - i);
                    assert(t.subrange(0, k + 1 - i) =~= s@.subrange(i as int, (k + 1) as int));
                }
            }
            return None;
        }
        k = k + 1;
    }
    proof {
        assert(s@.subrange(i as int, k as int) =~= t);
    }
    Some(acc as u32)
}

} // verus!
