//! Identifier-space discovery: a sequential sweep over a numeric suffix
//! range, a fast seedable random sampler, and known-key derivation (probing
//! a neighborhood around identifiers already stored).

use vstd::prelude::*;
use vstd::string::StrSliceExecFns;
use vstd::string::StringExecFns;
use crate::clock::now_unix_millis;
use crate::text::{dec_val, digit_seq, is_digit, pad_dec_str};
use crate::text::{is_digit_exec, lemma_dec_val_nonneg,
    lemma_digit_seq_all_digits, lemma_pad_dec_val, zero_pad_u64};

verus! {

/// A linear-congruential pseudo-random generator; fast and seedable, with no
/// cryptographic claims.
#[derive(Debug, Clone, Copy)]
pub struct Random {
    pub state: u64,
}

/// The linear-congruential step.
pub open spec fn lcg_next(state: u64) -> u64 {
    vstd::wrapping::u64_specs::wrapping_add(
        vstd::wrapping::u64_specs::wrapping_mul(state, 1664525u64),
        1013904223u64,
    )
}

impl Random {
    /// A generator seeded from the wall clock.
    pub fn new() -> Random {
        let seed = now_unix_millis();
        #[verifier::truncate]
        let state = seed as u64;
        Random { state }
    }

    /// A generator with a fixed seed, for reproducible sampling.
    pub fn from_seed(seed: u64) -> (r: Random)
        ensures
            r.state == seed,
    {
        Random { state: seed }
    }

    /// The next pseudo-random value.
    pub fn next(&mut self) -> (r: u64)
        ensures
            final(self).state == lcg_next(old(self).state),
            r == final(self).state,
    {
        self.state = self.state.wrapping_mul(1664525u64).wrapping_add(1013904223u64);
        self.state
    }

    /// A uniform-ish draw within `[base, base + span)`.
    pub fn next_in_span(&mut self, base: u64, span: u64) -> (r: u64)
        requires
            span > 0,
            base + span <= u64::MAX,
        ensures
            final(self).state == lcg_next(old(self).state),
            base <= r < base + span,
            r == base + lcg_next(old(self).state) as int % span as int,
    {
        let v = self.next();
        base + v % span
    }
}

/// Candidate identifiers of a sequential sweep: `prefix` followed by the
/// zero-padded numeric suffix, for every suffix in `[start, end]`, in order.
/// The range `[start, end]` yields exactly `end - start + 1` candidates.
pub fn sequential_candidates(prefix: &str, start: u64, end: u64, width: usize) -> (r: Vec<String>)
    requires
        start <= end,
        end - start < usize::MAX,
    ensures
        r@.len() == end - start + 1,
        forall|i: int|
            0 <= i < r@.len() ==> (#[trigger] r@[i])@ == prefix@ + pad_dec_str(
                start + i,
                width as int,
            ),
{
    let count: usize = ((end - start) as usize) + 1;
    let mut r: Vec<String> = Vec::new();
    let mut i: usize = 0;
    while i < count
        invariant
            count == end - start + 1,
            start <= end,
            i <= count,
            r@.len() == i,
            forall|j: int|
                0 <= j < i ==> (#[trigger] r@[j])@ == prefix@ + pad_dec_str(
                    start + j,
                    width as int,
                ),
        decreases count - i,
    {
        let suffix = zero_pad_u64(start + (i as u64), width);
        let mut candidate = String::from_str(prefix);
        candidate.append(suffix.as_str());
        r.push(candidate);
        i = i + 1;
    }
    r
}

/// Two distinct suffixes give distinct candidates, whatever the padding
/// width: the padded digits read back to the suffix value.
pub proof fn lemma_padded_key_injective(prefix: Seq<char>, m: int, n: int, w: int)
    requires
        0 <= m,
        0 <= n,
        m != n,
    ensures
        prefix + pad_dec_str(m, w) != prefix + pad_dec_str(n, w),
{
    if prefix + pad_dec_str(m, w) == prefix + pad_dec_str(n, w) {
        let a = pad_dec_str(m, w);
        let b = pad_dec_str(n, w);
        assert((prefix + a).len() == (prefix + b).len());
        assert(a.len() == b.len());
        assert(a =~= (prefix + a).subrange(prefix.len() as int, (prefix + a).len() as int));
        assert(b =~= (prefix + b).subrange(prefix.len() as int, (prefix + b).len() as int));
        assert(a == b);
        lemma_pad_dec_val(m, w);
        lemma_pad_dec_val(n, w);
        assert(false);
    }
}

/// A sequential sweep produces pairwise distinct candidates.
pub proof fn lemma_sequential_candidates_distinct(
    r: Vec<String>,
    prefix: Seq<char>,
    start: u64,
    width: int,
)
    requires
        forall|i: int|
            0 <= i < r@.len() ==> (#[trigger] r@[i])@ == prefix + pad_dec_str(
                start + i,
                width,
            ),
    ensures
        forall|i: int, j: int| 0 <= i < j < r@.len() ==> (#[trigger] r@[i])@ != (
        #[trigger] r@[j])@,
{
    assert forall|i: int, j: int| 0 <= i < j < r@.len() implies (#[trigger] r@[i])@ != (
    #[trigger] r@[j])@ by {
        lemma_padded_key_injective(prefix, start + i, start + j, width);
    }
}

/// Collects the decimal digits of `app_id` into its numeric suffix value.
/// Returns `None` when the identifier holds no digit at all or the digits
/// exceed the `u64` range, mirroring what parsing the filtered digit string
/// would give.
pub fn extract_numeric_part(app_id: &str) -> (r: Option<u64>)
    ensures
        r is Some <==> digit_seq(app_id@).len() > 0 && dec_val(digit_seq(app_id@)) <= u64::MAX,
        r matches Some(v) ==> v == dec_val(digit_seq(app_id@)),
{
    let s = app_id;
    let n = s.unicode_len();
    let mut i: usize = 0;
    let mut acc: u64 = 0;
    let mut seen: bool = false;
    let mut overflow: bool = false;
    while i < n
        invariant
            n == s@.len(),
            i <= n,
            seen == (digit_seq(s@.subrange(0, i as int)).len() > 0),
            !overflow ==> acc == dec_val(digit_seq(s@.subrange(0, i as int))),
            overflow ==> dec_val(digit_seq(s@.subrange(0, i as int))) > u64::MAX,
        decreases n - i,
    {
        let c = s.get_char(i);
        proof {
            assert(s@.subrange(0, i + 1).drop_last() =~= s@.subrange(0, i as int));
            assert(s@.subrange(0, i + 1).last() == s@[i as int]);
            lemma_digit_seq_all_digits(s@.subrange(0, i as int));
            lemma_dec_val_nonneg(digit_seq(s@.subrange(0, i as int)));
        }
        if is_digit_exec(c) {
            let d = (c as u32) as u64 - 48;
            if overflow {
                proof {
                    let prev = digit_seq(s@.subrange(0, i as int));
                    let cur = digit_seq(s@.subrange(0, i + 1));
                    assert(cur =~= prev.push(c));
                    assert(cur.drop_last() =~= prev);
                }
            } else {
                match acc.checked_mul(10) {
                    Some(m) => {
                        match m.checked_add(d) {
                            Some(v) => {
                                acc = v;
                            },
                            None => {
                                overflow = true;
                            },
                        }
                    },
                    None => {
                        overflow = true;
                    },
                }
                proof {
                    let prev = digit_seq(s@.subrange(0, i as int));
                    let cur = digit_seq(s@.subrange(0, i + 1));
                    assert(cur =~= prev.push(c));
                    assert(cur.drop_last() =~= prev);
                    assert(dec_val(cur) == 10 * dec_val(prev) + (c as u32 - 48));
                }
            }
            seen = true;
        } else {
            proof {
                assert(digit_seq(s@.subrange(0, i + 1)) =~= digit_seq(s@.subrange(0, i as int)));
            }
        }
        i = i + 1;
    }
    proof {
        assert(s@.subrange(0, n as int) =~= s@);
    }
    if seen && !overflow {
        Some(acc)
    } else {
        None
    }
}

/// Index of the last decimal digit character of `s`, or -1.
pub open spec fn last_digit_index(s: Seq<char>) -> int
    decreases s.len(),
{
    if s.len() == 0 {
        -1
    } else if is_digit(s.last()) {
        s.len() as int - 1
    } else {
        last_digit_index(s.drop_last())
    }
}

/// The identifier up to and including its last digit: the part shared by the
/// identifiers of a cluster, suffix width included.
pub fn extract_prefix(app_id: &str) -> (r: Option<String>)
    ensures
        (r is Some) == (last_digit_index(app_id@) >= 0),
        r matches Some(p) ==> p@ == app_id@.subrange(0, last_digit_index(app_id@) + 1),
{
    let n = app_id.unicode_len();
    let mut i: usize = 0;
    let mut best: Option<usize> = None;
    while i < n
        invariant
            n == app_id@.len(),
            i <= n,
            best matches Some(b) ==> 0 <= b < i && b == last_digit_index(
                app_id@.subrange(0, i as int),
            ),
            best is None ==> last_digit_index(app_id@.subrange(0, i as int)) == -1,
        decreases n - i,
    {
        proof {
            assert(app_id@.subrange(0, i + 1).drop_last() =~= app_id@.subrange(0, i as int));
            assert(app_id@.subrange(0, i + 1).last() == app_id@[i as int]);
        }
        if is_digit_exec(app_id.get_char(i)) {
            best = Some(i);
        }
        i = i + 1;
    }
    proof {
        assert(app_id@.subrange(0, n as int) =~= app_id@);
    }
    match best {
        Some(b) => {
            let p = app_id.substring_char(0, b + 1);
            Some(String::from_str(p))
        },
        None => None,
    }
}

/// The suffix range to probe around a known numeric value: `delta` on each
/// side, clamped to the `u64` range.
pub fn neighborhood(value: u64, delta: u64) -> (r: (u64, u64))
    ensures
        r.0 == if value >= delta {
            value - delta
        } else {
            0
        },
        r.1 == if value + delta <= u64::MAX {
            value + delta
        } else {
            u64::MAX as int
        },
        r.0 <= value <= r.1,
{
    let lo = if value >= delta {
        value - delta
    } else {
        0
    };
    let hi = match value.checked_add(delta) {
        Some(h) => h,
        None => u64::MAX,
    };
    (lo, hi)
}

/// The character for a letter index, `0` being `a`.
pub open spec fn letter_char(d: int) -> char {
    if d == 0 {
        'a'
    } else if d == 1 {
        'b'
    } else if d == 2 {
        'c'
    } else if d == 3 {
        'd'
    } else if d == 4 {
        'e'
    } else if d == 5 {
        'f'
    } else if d == 6 {
        'g'
    } else if d == 7 {
        'h'
    } else if d == 8 {
        'i'
    } else if d == 9 {
        'j'
    } else if d == 10 {
        'k'
    } else if d == 11 {
        'l'
    } else if d == 12 {
        'm'
    } else if d == 13 {
        'n'
    } else if d == 14 {
        'o'
    } else if d == 15 {
        'p'
    } else if d == 16 {
        'q'
    } else if d == 17 {
        'r'
    } else if d == 18 {
        's'
    } else if d == 19 {
        't'
    } else if d == 20 {
        'u'
    } else if d == 21 {
        'v'
    } else if d == 22 {
        'w'
    } else if d == 23 {
        'x'
    } else if d == 24 {
        'y'
    } else {
        'z'
    }
}

/// The letter spelling of a non-negative number, a bijective base-26
/// encoding: 0 is "a", 25 is "z", 26 is "aa".
pub open spec fn letters_of(n: int) -> Seq<char>
    recommends
        n >= 0,
    decreases n,
{
    if n < 26 {
        seq![letter_char(n)]
    } else {
        letters_of(n / 26 - 1).push(letter_char(n % 26))
    }
}

/// One letter as a string slice.
fn letter_str(d: i32) -> (r: &'static str)
    requires
        0 <= d < 26,
    ensures
        r@ =~= seq![letter_char(d as int)],
{
    proof {
        reveal_strlit("a");
        reveal_strlit("b");
        reveal_strlit("c");
        reveal_strlit("d");
        reveal_strlit("e");
        reveal_strlit("f");
        reveal_strlit("g");
        reveal_strlit("h");
        reveal_strlit("i");
        reveal_strlit("j");
        reveal_strlit("k");
        reveal_strlit("l");
        reveal_strlit("m");
        reveal_strlit("n");
        reveal_strlit("o");
        reveal_strlit("p");
        reveal_strlit("q");
        reveal_strlit("r");
        reveal_strlit("s");
        reveal_strlit("t");
        reveal_strlit("u");
        reveal_strlit("v");
        reveal_strlit("w");
        reveal_strlit("x");
        reveal_strlit("y");
        reveal_strlit("z");
    }
    if d == 0 {
        "a"
    } else if d == 1 {
        "b"
    } else if d == 2 {
        "c"
    } else if d == 3 {
        "d"
    } else if d == 4 {
        "e"
    } else if d == 5 {
        "f"
    } else if d == 6 {
        "g"
    } else if d == 7 {
        "h"
    } else if d == 8 {
        "i"
    } else if d == 9 {
        "j"
    } else if d == 10 {
        "k"
    } else if d == 11 {
        "l"
    } else if d == 12 {
        "m"
    } else if d == 13 {
        "n"
    } else if d == 14 {
        "o"
    } else if d == 15 {
        "p"
    } else if d == 16 {
        "q"
    } else if d == 17 {
        "r"
    } else if d == 18 {
        "s"
    } else if d == 19 {
        "t"
    } else if d == 20 {
        "u"
    } else if d == 21 {
        "v"
    } else if d == 22 {
        "w"
    } else if d == 23 {
        "x"
    } else if d == 24 {
        "y"
    } else {
        "z"
    }
}

/// Spells a non-negative number in letters, for identifier patterns that use
/// alphabetic suffixes.
pub fn i32_to_letters(n: i32) -> (r: String)
    requires
        n >= 0,
    ensures
        r@ == letters_of(n as int),
    decreases n,
{
    if n < 26 {
        let r = String::from_str(letter_str(n));
        proof {
            assert(r@ =~= letters_of(n as int));
        }
        r
    } else {
        let mut r = i32_to_letters(n / 26 - 1);
        r.append(letter_str(n % 26));
        proof {
            assert(r@ =~= letters_of(n as int));
        }
        r
    }
}

} // verus!
