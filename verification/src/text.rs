//! Character and number formatting/parsing helpers shared by the document
//! model and the discovery strategies.

use vstd::prelude::*;
use vstd::string::StrSliceExecFns;
use vstd::string::StringExecFns;

verus! {

/// A decimal digit character.
pub open spec fn is_digit(c: char) -> bool {
    48 <= c as u32 && c as u32 <= 57
}

/// Numeric value of a decimal digit character.
pub open spec fn digit_val(c: char) -> int {
    c as u32 - 48
}

/// The character for a decimal digit value.
pub open spec fn digit_char(d: int) -> char {
    if d == 0 {
        '0'
    } else if d == 1 {
        '1'
    } else if d == 2 {
        '2'
    } else if d == 3 {
        '3'
    } else if d == 4 {
        '4'
    } else if d == 5 {
        '5'
    } else if d == 6 {
        '6'
    } else if d == 7 {
        '7'
    } else if d == 8 {
        '8'
    } else {
        '9'
    }
}

/// The subsequence of decimal digit characters of `s`, in order.
pub open spec fn digit_seq(s: Seq<char>) -> Seq<char>
    decreases s.len(),
{
    if s.len() == 0 {
        Seq::empty()
    } else if is_digit(s.last()) {
        digit_seq(s.drop_last()).push(s.last())
    } else {
        digit_seq(s.drop_last())
    }
}

/// The value of a sequence of digit characters read as a decimal number.
pub open spec fn dec_val(s: Seq<char>) -> int
    decreases s.len(),
{
    if s.len() == 0 {
        0
    } else {
        10 * dec_val(s.drop_last()) + digit_val(s.last())
    }
}

/// Every character of `s` is a decimal digit.
pub open spec fn all_digits(s: Seq<char>) -> bool {
    forall|i: int| 0 <= i < s.len() ==> is_digit(#[trigger] s[i])
}

/// The decimal representation of a non-negative number, most significant
/// digit first.
pub open spec fn dec_str(n: int) -> Seq<char>
    recommends
        n >= 0,
    decreases n,
{
    if n < 10 {
        seq![digit_char(n)]
    } else {
        dec_str(n / 10).push(digit_char(n % 10))
    }
}

/// `k` zero characters.
pub open spec fn zeros(k: int) -> Seq<char> {
    Seq::new(k as nat, |i: int| '0')
}

/// The decimal representation of `n`, left-padded with zeros to at least
/// `width` characters.
pub open spec fn pad_dec_str(n: int, width: int) -> Seq<char> {
    if dec_str(n).len() >= width {
        dec_str(n)
    } else {
        zeros(width - dec_str(n).len()) + dec_str(n)
    }
}

/// `p` is a prefix of `s`.
pub open spec fn starts_with(s: Seq<char>, p: Seq<char>) -> bool {
    p.len() <= s.len() && s.subrange(0, p.len() as int) == p
}

pub proof fn lemma_digit_seq_all_digits(s: Seq<char>)
    ensures
        all_digits(digit_seq(s)),
    decreases s.len(),
{
    if s.len() > 0 {
        lemma_digit_seq_all_digits(s.drop_last());
    }
}

pub proof fn lemma_dec_val_nonneg(s: Seq<char>)
    requires
        all_digits(s),
    ensures
        dec_val(s) >= 0,
    decreases s.len(),
{
    if s.len() > 0 {
        assert(all_digits(s.drop_last()));
        lemma_dec_val_nonneg(s.drop_last());
        assert(is_digit(s.last()));
    }
}

/// Reading more digits never decreases the decimal value.
pub proof fn lemma_dec_val_extend(s: Seq<char>, k: int)
    requires
        all_digits(s),
        0 <= k <= s.len(),
    ensures
        dec_val(s.subrange(0, k)) <= dec_val(s),
    decreases s.len() - k,
{
    if k < s.len() {
        let t = s.subrange(0, k + 1);
        assert(t.drop_last() =~= s.subrange(0, k));
        assert(all_digits(t));
        lemma_dec_val_nonneg(t.drop_last());
        assert(is_digit(t.last()));
        assert(dec_val(t) == 10 * dec_val(t.drop_last()) + digit_val(t.last()));
        lemma_dec_val_extend(s, k + 1);
        assert(s.subrange(0, s.len() as int) =~= s);
    } else {
        assert(s.subrange(0, k) =~= s);
    }
}

/// The decimal representation reads back to the number it was made from.
pub proof fn lemma_dec_str_roundtrip(n: int)
    requires
        n >= 0,
    ensures
        dec_val(dec_str(n)) == n,
    decreases n,
{
    assert(digit_val(digit_char(n % 10)) == n % 10);
    if n < 10 {
        assert(dec_str(n) =~= seq![digit_char(n)]);
        assert(dec_str(n).drop_last() =~= Seq::<char>::empty());
        assert(dec_str(n).last() == digit_char(n));
        assert(dec_val(dec_str(n)) == 10 * dec_val(Seq::<char>::empty()) + digit_val(
            digit_char(n),
        ));
        assert(digit_val(digit_char(n)) == n);
    } else {
        lemma_dec_str_roundtrip(n / 10);
        assert(dec_str(n).drop_last() =~= dec_str(n / 10));
        assert(dec_str(n).last() == digit_char(n % 10));
        assert(dec_val(dec_str(n)) == 10 * dec_val(dec_str(n / 10)) + digit_val(
            digit_char(n % 10),
        ));
    }
}

/// A zero prepended in front does not change the decimal value.
proof fn lemma_dec_val_cons_zero(s: Seq<char>)
    ensures
        dec_val(seq!['0'] + s) == dec_val(s),
    decreases s.len(),
{
    if s.len() == 0 {
        assert(seq!['0'] + s =~= seq!['0']);
        assert((seq!['0']).drop_last() =~= Seq::<char>::empty());
        assert((seq!['0']).last() == '0');
        assert(dec_val(Seq::<char>::empty()) == 0);
        assert(dec_val(seq!['0']) == 10 * dec_val((seq!['0']).drop_last()) + digit_val('0'));
        assert(digit_val('0') == 0);
        assert(dec_val(s) == 0);
    } else {
        let t = seq!['0'] + s;
        assert(t.len() == s.len() + 1);
        assert(t.drop_last() =~= seq!['0'] + s.drop_last());
        lemma_dec_val_cons_zero(s.drop_last());
        assert(t.last() == s.last());
        assert(dec_val(t) == 10 * dec_val(t.drop_last()) + digit_val(t.last()));
        assert(dec_val(t.drop_last()) == dec_val(s.drop_last()));
        assert(dec_val(s) == 10 * dec_val(s.drop_last()) + digit_val(s.last()));
    }
}

/// Left zero padding does not change the decimal value.
pub proof fn lemma_pad_dec_val(n: int, width: int)
    requires
        n >= 0,
    ensures
        dec_val(pad_dec_str(n, width)) == n,
{
    lemma_dec_str_roundtrip(n);
    let d = dec_str(n);
    if d.len() < width {
        lemma_zeros_prepend(d, width - d.len());
    }
}

proof fn lemma_zeros_prepend(s: Seq<char>, k: int)
    requires
        k >= 0,
    ensures
        dec_val(zeros(k) + s) == dec_val(s),
    decreases k,
{
    if k == 0 {
        assert(zeros(0) + s =~= s);
    } else {
        assert(zeros(k) + s =~= seq!['0'] + (zeros(k - 1) + s));
        lemma_zeros_prepend(s, k - 1);
        lemma_dec_val_cons_zero(zeros(k - 1) + s);
    }
}

/// One decimal digit as a string slice.
fn digit_str(d: u64) -> (r: &'static str)
    requires
        d < 10,
    ensures
        r@ =~= seq![digit_char(d as int)],
{
    proof {
        reveal_strlit("0");
        reveal_strlit("1");
        reveal_strlit("2");
        reveal_strlit("3");
        reveal_strlit("4");
        reveal_strlit("5");
        reveal_strlit("6");
        reveal_strlit("7");
        reveal_strlit("8");
        reveal_strlit("9");
    }
    if d == 0 {
        "0"
    } else if d == 1 {
        "1"
    } else if d == 2 {
        "2"
    } else if d == 3 {
        "3"
    } else if d == 4 {
        "4"
    } else if d == 5 {
        "5"
    } else if d == 6 {
        "6"
    } else if d == 7 {
        "7"
    } else if d == 8 {
        "8"
    } else {
        "9"
    }
}

/// The decimal representation of `n`.
pub fn u64_to_dec(n: u64) -> (r: String)
    ensures
        r@ == dec_str(n as int),
    decreases n,
{
    if n < 10 {
        let s = digit_str(n);
        let r = s.to_owned();
        proof {
            assert(r@ =~= dec_str(n as int));
        }
        r
    } else {
        let mut r = u64_to_dec(n / 10);
        r.append(digit_str(n % 10));
        proof {
            assert(r@ =~= dec_str(n as int));
        }
        r
    }
}

/// The decimal representation of `n`, left-padded with zeros to at least
/// `width` characters.
pub fn zero_pad_u64(n: u64, width: usize) -> (r: String)
    ensures
        r@ == pad_dec_str(n as int, width as int),
{
    let digits = u64_to_dec(n);
    let dlen = digits.as_str().unicode_len();
    let mut r = String::new();
    if dlen < width {
        let mut k: usize = 0;
        while k < width - dlen
            invariant
                k <= width - dlen,
                dlen < width,
                r@ =~= zeros(k as int),
            decreases width - dlen - k,
        {
            proof {
                reveal_strlit("0");
            }
            r.append("0");
            k = k + 1;
            proof {
                assert(r@ =~= zeros(k as int));
            }
        }
    }
    r.append(digits.as_str());
    proof {
        assert(r@ =~= pad_dec_str(n as int, width as int));
    }
    r
}

/// Whether `c` is a decimal digit, as the executable counterpart of
/// [`is_digit`].
pub fn is_digit_exec(c: char) -> (r: bool)
    ensures
        r == is_digit(c),
{
    let u = c as u32;
    48 <= u && u <= 57
}

/// What parsing `s` as a signed decimal integer of unbounded range yields:
/// an optional sign followed by at least one digit, or nothing.
pub open spec fn int_parse(s: Seq<char>) -> Option<int> {
    if s.len() == 0 {
        Option::None
    } else {
        let body = if s[0] == '-' || s[0] == '+' {
            s.subrange(1, s.len() as int)
        } else {
            s
        };
        if body.len() == 0 || !all_digits(body) {
            Option::None
        } else if s[0] == '-' {
            Option::Some(-dec_val(body))
        } else {
            Option::Some(dec_val(body))
        }
    }
}

/// What parsing `s` as an `i64` and falling back to zero yields.
pub open spec fn parse_i64_spec(s: Seq<char>) -> i64 {
    match int_parse(s) {
        Option::Some(v) => if i64::MIN <= v <= i64::MAX {
            v as i64
        } else {
            0
        },
        Option::None => 0,
    }
}

/// What parsing `s` as an `i32` and falling back to zero yields.
pub open spec fn parse_i32_spec(s: Seq<char>) -> i32 {
    match int_parse(s) {
        Option::Some(v) => if i32::MIN <= v <= i32::MAX {
            v as i32
        } else {
            0
        },
        Option::None => 0,
    }
}

/// Scans `s` as sign and digits.  `None` means the text is not a number at
/// all, or its magnitude does not even fit a `u64`.
#[verifier::rlimit(60)]
fn parse_sign_mag(s: &str) -> (r: Option<(bool, u64)>)
    ensures
        r matches Some(p) ==> {
            &&& int_parse(s@) == Option::Some(if p.0 { -(p.1 as int) } else { p.1 as int })
        },
        r is None ==> (int_parse(s@) is None || (int_parse(s@) matches Some(v) && (v > u64::MAX
            || v < -(u64::MAX as int)))),
{
    let n = s.unicode_len();
    if n == 0 {
        return None;
    }
    let c0 = s.get_char(0);
    let neg = c0 == '-';
    let off: usize = if c0 == '-' || c0 == '+' {
        1
    } else {
        0
    };
    let ghost body = if s@[0] == '-' || s@[0] == '+' {
        s@.subrange(1, s@.len() as int)
    } else {
        s@
    };
    proof {
        assert(body =~= s@.subrange(off as int, n as int));
    }
    if off == n {
        proof {
            assert(n == 1 && off == 1);
            assert(s@[0] == '-' || s@[0] == '+');
            assert(body.len() == 0);
            assert(int_parse(s@) is None);
        }
        return None;
    }
    let mut i: usize = off;
    let mut acc: u64 = 0;
    let mut overflow: bool = false;
    while i < n
        invariant
            n == s@.len(),
            off <= i <= n,
            off < n,
            body == s@.subrange(off as int, n as int),
            body == (if s@[0] == '-' || s@[0] == '+' {
                s@.subrange(1, s@.len() as int)
            } else {
                s@
            }),
            all_digits(body.subrange(0, i - off)),
            !overflow ==> acc == dec_val(body.subrange(0, i - off)),
            overflow ==> dec_val(body.subrange(0, i - off)) > u64::MAX,
        decreases n - i,
    {
        let c = s.get_char(i);
        proof {
            assert(body.subrange(0, i + 1 - off).drop_last() =~= body.subrange(0, i - off));
            assert(body.subrange(0, i + 1 - off).last() == s@[i as int]);
            lemma_dec_val_nonneg(body.subrange(0, i - off));
        }
        if !is_digit_exec(c) {
            proof {
                assert(body[i - off] == c);
                assert(!all_digits(body));
            }
            return None;
        }
        let d = (c as u32) as u64 - 48;
        if !overflow {
            match acc.checked_mul(10) {
                Some(m) => {
                    match m.checked_add(d) {
                        Some(v) => {
                            acc = v;
                        },
                        None => {
                            overflow = true;
                        },
                    }
                },
                None => {
                    overflow = true;
                },
            }
        }
        i = i + 1;
    }
    proof {
        assert(body.subrange(0, n - off) =~= body);
    }
    if overflow {
        proof {
            lemma_dec_val_extend(body, (n - off) as int);
        }
        return None;
    }
    Some((neg, acc))
}

/// Parses `s` as an `i64`, yielding zero when the text is not a number in
/// range, exactly as lenient metric decoding does.
pub fn parse_i64_or_zero(s: &str) -> (r: i64)
    ensures
        r == parse_i64_spec(s@),
{
    match parse_sign_mag(s) {
        Some((neg, mag)) => {
            if neg {
                if mag <= 9223372036854775807u64 {
                    -(mag as i64)
                } else if mag == 9223372036854775808u64 {
                    i64::MIN
                } else {
                    0
                }
            } else {
                if mag <= 9223372036854775807u64 {
                    mag as i64
                } else {
                    0
                }
            }
        },
        None => 0,
    }
}

/// Parses `s` as an `i32`, yielding zero when the text is not a number in
/// range.
pub fn parse_i32_or_zero(s: &str) -> (r: i32)
    ensures
        r == parse_i32_spec(s@),
{
    match parse_sign_mag(s) {
        Some((neg, mag)) => {
            if neg {
                if mag <= 2147483647u64 {
                    -(mag as i32)
                } else if mag == 2147483648u64 {
                    i32::MIN
                } else {
                    0
                }
            } else {
                if mag <= 2147483647u64 {
                    mag as i32
                } else {
                    0
                }
            }
        },
        None => 0,
    }
}

/// Equality of two optional strings by their character content.
pub open spec fn opt_str_eq(a: Option<String>, b: Option<String>) -> bool {
    match (a, b) {
        (Option::None, Option::None) => true,
        (Option::Some(x), Option::Some(y)) => x@ == y@,
        _ => false,
    }
}

/// Executable counterpart of [`opt_str_eq`].
pub fn opt_string_eq(a: &Option<String>, b: &Option<String>) -> (r: bool)
    ensures
        r == opt_str_eq(*a, *b),
{
    match (a, b) {
        (Option::None, Option::None) => true,
        (Option::Some(x), Option::Some(y)) => x.eq(y),
        _ => false,
    }
}

/// The views of the strings in `v`.
pub open spec fn str_views(v: Seq<String>) -> Seq<Seq<char>> {
    v.map_values(|s: String| s@)
}

/// Equality of two string vectors by character content.
pub fn vec_string_eq(a: &Vec<String>, b: &Vec<String>) -> (r: bool)
    ensures
        r == (str_views(a@) == str_views(b@)),
{
    if a.len() != b.len() {
        proof {
            assert(str_views(a@).len() != str_views(b@).len());
        }
        return false;
    }
    let n = a.len();
    let mut i: usize = 0;
    while i < n
        invariant
            n == a.len() == b.len(),
            i <= n,
            forall|j: int| 0 <= j < i ==> a@[j]@ == b@[j]@,
        decreases n - i,
    {
        if !a[i].eq(&b[i]) {
            proof {
                assert(str_views(a@)[i as int] != str_views(b@)[i as int]);
            }
            return false;
        }
        i = i + 1;
    }
    proof {
        assert(str_views(a@) =~= str_views(b@));
    }
    true
}

/// Equality of two byte vectors.
pub fn vec_u8_eq(a: &Vec<u8>, b: &Vec<u8>) -> (r: bool)
    ensures
        r == (a@ == b@),
{
    if a.len() != b.len() {
        return false;
    }
    let n = a.len();
    let mut i: usize = 0;
    while i < n
        invariant
            n == a.len() == b.len(),
            i <= n,
            forall|j: int| 0 <= j < i ==> a@[j] == b@[j],
        decreases n - i,
    {
        if a[i] != b[i] {
            return false;
        }
        i = i + 1;
    }
    proof {
        assert(a@ =~= b@);
    }
    true
}

/// Whether the characters of `p` start the string `s`.
pub fn str_starts_with(s: &str, p: &str) -> (r: bool)
    ensures
        r == starts_with(s@, p@),
{
    let sn = s.unicode_len();
    let pn = p.unicode_len();
    if pn > sn {
        return false;
    }
    let mut i: usize = 0;
    while i < pn
        invariant
            sn == s@.len(),
            pn == p@.len(),
            pn <= sn,
            i <= pn,
            forall|j: int| 0 <= j < i ==> s@[j] == p@[j],
        decreases pn - i,
    {
        if s.get_char(i) != p.get_char(i) {
            proof {
                assert(s@.subrange(0, p@.len() as int)[i as int] != p@[i as int]);
            }
            return false;
        }
        i = i + 1;
    }
    proof {
        assert(s@.subrange(0, p@.len() as int) =~= p@);
    }
    true
}

} // verus!
