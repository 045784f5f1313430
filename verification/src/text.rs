//! Byte-string primitives shared by the log-scanning and command-output
//! parsing code.
//!
//! All of the harness's text handling works on byte sequences: the log
//! messages and command outputs it inspects are ASCII, and byte-level
//! matching of an ASCII pattern never splits a UTF-8 character, so matching
//! on bytes agrees with matching on characters for every pattern used here.

use vstd::prelude::*;

verus! {

use vstd::string::StrSliceExecFns;
use vstd::string::StringSliceAdditionalSpecFns;

/// True when `needle` occurs in `hay` as a contiguous run starting at `i`.
pub open spec fn matches_at(hay: Seq<u8>, needle: Seq<u8>, i: int) -> bool {
    0 <= i && i + needle.len() <= hay.len() && hay.subrange(i, i + needle.len()) == needle
}

/// True when `needle` occurs somewhere in `hay`.
pub open spec fn contains_seq(hay: Seq<u8>, needle: Seq<u8>) -> bool {
    exists|i: int| matches_at(hay, needle, i)
}

/// Decides `matches_at` at one position.
pub fn bytes_match_at(hay: &[u8], needle: &[u8], i: usize) -> (r: bool)
    requires
        i + needle@.len() <= hay@.len(),
    ensures
        r == matches_at(hay@, needle@, i as int),
{
    let n = needle.len();
    let hlen = hay.len();
    let mut j: usize = 0;
    while j < n
        invariant
            n == needle@.len(),
            hlen == hay@.len(),
            i + n <= hlen,
            j <= n,
            forall|k: int| 0 <= k < j ==> hay@[i + k] == needle@[k],
        decreases n - j,
    {
        if hay[i + j] != needle[j] {
            assert(hay@.subrange(i as int, i + needle@.len())[j as int] == hay@[i + j]);
            return false;
        }
        j += 1;
    }
    assert(hay@.subrange(i as int, i + needle@.len()) =~= needle@);
    true
}

/// Decides whether `needle` occurs anywhere in `hay`.
pub fn bytes_contain(hay: &[u8], needle: &[u8]) -> (r: bool)
    ensures
        r == contains_seq(hay@, needle@),
{
    if needle.len() > hay.len() {
        assert(forall|i: int| !matches_at(hay@, needle@, i));
        return false;
    }
    if needle.len() == 0 {
        assert(matches_at(hay@, needle@, 0)) by {
            assert(hay@.subrange(0, 0) =~= needle@);
        }
        return true;
    }
    let hlen = hay.len();
    let last_start = hlen - needle.len();
    let mut i: usize = 0;
    loop
        invariant
            1 <= needle@.len() <= hay@.len(),
            hlen == hay@.len(),
            last_start == hay@.len() - needle@.len(),
            last_start < hlen,
            i <= last_start + 1,
            forall|k: int| 0 <= k < i ==> !matches_at(hay@, needle@, k),
        ensures
            (exists|k: int| matches_at(hay@, needle@, k)) == (i <= last_start),
        decreases last_start + 1 - i,
    {
        if i > last_start {
            assert(forall|k: int| matches_at(hay@, needle@, k) ==> 0 <= k <= last_start);
            break;
        }
        if bytes_match_at(hay, needle, i) {
            break;
        }
        i += 1;
    }
    i <= last_start
}

/// Decides whether two byte strings hold the same bytes.
pub fn bytes_eq(a: &[u8], b: &[u8]) -> (r: bool)
    ensures
        r == (a@ == b@),
{
    if a.len() != b.len() {
        return false;
    }
    let n = a.len();
    let mut j: usize = 0;
    while j < n
        invariant
            n == a@.len() == b@.len(),
            j <= n,
            forall|k: int| 0 <= k < j ==> a@[k] == b@[k],
        decreases n - j,
    {
        if a[j] != b[j] {
            return false;
        }
        j += 1;
    }
    assert(a@ =~= b@);
    true
}

/// ASCII decimal digit.
pub open spec fn is_digit(b: u8) -> bool {
    48 <= b <= 57
}

/// ASCII hexadecimal digit, either case.
pub open spec fn is_hex_digit(b: u8) -> bool {
    is_digit(b) || (65 <= b <= 70) || (97 <= b <= 102)
}

/// ASCII whitespace, the bytes on which command output is tokenized.
pub open spec fn is_space(b: u8) -> bool {
    (9 <= b <= 13) || b == 32
}

/// Exec mirror of [`is_digit`].
pub fn digit_byte(b: u8) -> (r: bool)
    ensures
        r == is_digit(b),
{
    48 <= b && b <= 57
}

/// Exec mirror of [`is_hex_digit`].
pub fn hex_digit_byte(b: u8) -> (r: bool)
    ensures
        r == is_hex_digit(b),
{
    (48 <= b && b <= 57) || (65 <= b && b <= 70) || (97 <= b && b <= 102)
}

/// Exec mirror of [`is_space`].
pub fn space_byte(b: u8) -> (r: bool)
    ensures
        r == is_space(b),
{
    (9 <= b && b <= 13) || b == 32
}

/// True when every byte of `s` is a decimal digit.
pub open spec fn all_digits(s: Seq<u8>) -> bool {
    forall|i: int| 0 <= i < s.len() ==> is_digit(#[trigger] s[i])
}

/// The integer a digit string denotes, most significant digit first.
pub open spec fn dec_value(s: Seq<u8>) -> int
    decreases s.len(),
{
    if s.len() == 0 {
        0
    } else {
        dec_value(s.drop_last()) * 10 + (s.last() - 48)
    }
}

pub proof fn lemma_dec_value_nonneg(s: Seq<u8>)
    requires
        all_digits(s),
    ensures
        dec_value(s) >= 0,
    decreases s.len(),
{
    if s.len() > 0 {
        assert(all_digits(s.drop_last()));
        lemma_dec_value_nonneg(s.drop_last());
    }
}

proof fn lemma_dec_value_take_step(s: Seq<u8>, i: int)
    requires
        0 <= i < s.len(),
    ensures
        dec_value(s.take(i + 1)) == dec_value(s.take(i)) * 10 + (s[i] - 48),
{
    assert(s.take(i + 1).drop_last() =~= s.take(i));
    assert(s.take(i + 1).last() == s[i]);
}

/// The value of a digit string dominates the value of any of its prefixes.
proof fn lemma_dec_value_prefix_le(s: Seq<u8>, i: int)
    requires
        all_digits(s),
        0 <= i <= s.len(),
    ensures
        dec_value(s.take(i)) <= dec_value(s),
    decreases s.len() - i,
{
    if i < s.len() {
        assert(all_digits(s.take(i))) by {
            assert(forall|k: int| 0 <= k < i ==> s.take(i)[k] == s[k]);
        }
        lemma_dec_value_nonneg(s.take(i));
        lemma_dec_value_take_step(s, i);
        lemma_dec_value_prefix_le(s, i + 1);
    } else {
        assert(s.take(i) =~= s);
    }
}

/// What [`parse_u64`] yields on a given byte string.
pub open spec fn parse_u64_spec(s: Seq<u8>) -> Option<int> {
    if s.len() > 0 && all_digits(s) && dec_value(s) <= u64::MAX {
        Some(dec_value(s))
    } else {
        None
    }
}

/// Parses an unsigned decimal byte string, rejecting anything that is not
/// a pure digit run or whose value does not fit in a `u64`.
pub fn parse_u64(s: &[u8]) -> (r: Option<u64>)
    ensures
        match r {
            Some(x) => parse_u64_spec(s@) == Some(x as int),
            None => parse_u64_spec(s@) is None,
        },
{
    if s.len() == 0 {
        return None;
    }
    let n = s.len();
    let mut acc: u64 = 0;
    let mut i: usize = 0;
    while i < n
        invariant
            n == s@.len(),
            i <= n,
            all_digits(s@.take(i as int)),
            acc == dec_value(s@.take(i as int)),
        decreases n - i,
    {
        let b = s[i];
        if !digit_byte(b) {
            return None;
        }
        let d: u64 = (b - 48) as u64;
        proof {
            lemma_dec_value_take_step(s@, i as int);
            assert(all_digits(s@.take(i + 1))) by {
                assert(forall|k: int| 0 <= k < i + 1 ==> s@.take(i + 1)[k] == s@[k]);
            }
        }
        let shifted = match acc.checked_mul(10) {
            Some(m) => m,
            None => {
                proof {
                    if all_digits(s@) {
                        lemma_dec_value_prefix_le(s@, i + 1);
                    }
                }
                return None;
            },
        };
        acc = match shifted.checked_add(d) {
            Some(v) => v,
            None => {
                proof {
                    if all_digits(s@) {
                        lemma_dec_value_prefix_le(s@, i + 1);
                    }
                }
                return None;
            },
        };
        i += 1;
    }
    assert(s@.take(n as int) =~= s@);
    Some(acc)
}

/// What [`parse_i64`] accepts: an optional leading minus sign followed by a
/// digit run, with the resulting value not yet clamped to the `i64` range.
pub open spec fn dec_int_of(s: Seq<u8>) -> Option<int> {
    if s.len() >= 1 && s[0] == 45 {
        let rest = s.subrange(1, s.len() as int);
        if rest.len() > 0 && all_digits(rest) {
            Some(-dec_value(rest))
        } else {
            None
        }
    } else if s.len() > 0 && all_digits(s) {
        Some(dec_value(s))
    } else {
        None
    }
}

/// What [`parse_i64`] yields on a given byte string.
pub open spec fn parse_i64_spec(s: Seq<u8>) -> Option<int> {
    match dec_int_of(s) {
        Some(v) => if i64::MIN <= v <= i64::MAX {
            Some(v)
        } else {
            None
        },
        None => None,
    }
}

/// Parses a signed decimal byte string: an optional `-`, then digits.
pub fn parse_i64(s: &[u8]) -> (r: Option<i64>)
    ensures
        match r {
            Some(x) => parse_i64_spec(s@) == Some(x as int),
            None => parse_i64_spec(s@) is None,
        },
{
    if s.len() >= 1 && s[0] == 45 {
        let ghost rest = s@.subrange(1, s@.len() as int);
        let mut digits: Vec<u8> = Vec::new();
        let mut i: usize = 1;
        while i < s.len()
            invariant
                1 <= i <= s@.len(),
                rest == s@.subrange(1, s@.len() as int),
                digits@ =~= rest.take(i - 1),
            decreases s@.len() - i,
        {
            let b = s[i];
            digits.push(b);
            assert(digits@ =~= rest.take(i as int)) by {
                assert(rest.take(i as int) =~= rest.take(i - 1).push(s@[i as int]));
            }
            i += 1;
        }
        assert(digits@ =~= rest);
        match parse_u64(digits.as_slice()) {
            Some(mag) => {
                if mag > 9223372036854775808u64 {
                    return None;
                }
                if mag == 9223372036854775808u64 {
                    Some(i64::MIN)
                } else {
                    Some(-(mag as i64))
                }
            },
            None => {
                proof {
                    if rest.len() > 0 && all_digits(rest) {
                        lemma_dec_value_nonneg(rest);
                    }
                }
                None
            },
        }
    } else {
        match parse_u64(s) {
            Some(mag) => {
                if mag <= i64::MAX as u64 {
                    Some(mag as i64)
                } else {
                    None
                }
            },
            None => None,
        }
    }
}

/// The decimal digit string of a nonnegative integer, no leading zeros.
pub open spec fn dec_digits(n: int) -> Seq<u8>
    decreases n,
{
    if n < 10 {
        seq![(48 + if n >= 0 { n } else { 0 }) as u8]
    } else {
        dec_digits(n / 10) + seq![(48 + n % 10) as u8]
    }
}

/// The decimal rendering of an integer, with a leading `-` when negative.
pub open spec fn dec_digits_signed(n: int) -> Seq<u8> {
    if n >= 0 {
        dec_digits(n)
    } else {
        seq![45u8] + dec_digits(-n)
    }
}

/// Renders a `u64` in decimal.
pub fn u64_to_dec(n: u64) -> (v: Vec<u8>)
    ensures
        v@ == dec_digits(n as int),
    decreases n,
{
    if n < 10 {
        let mut v: Vec<u8> = Vec::new();
        v.push(48 + n as u8);
        assert(v@ =~= dec_digits(n as int));
        v
    } else {
        let mut v = u64_to_dec(n / 10);
        v.push(48 + (n % 10) as u8);
        assert(v@ =~= dec_digits(n as int));
        v
    }
}

/// Renders an `i64` in decimal, with a leading `-` when negative.
pub fn i64_to_dec(n: i64) -> (v: Vec<u8>)
    ensures
        v@ == dec_digits_signed(n as int),
{
    if n >= 0 {
        u64_to_dec(n as u64)
    } else {
        let mag: u64 = if n == i64::MIN {
            9223372036854775808u64
        } else {
            (-n) as u64
        };
        let digits = u64_to_dec(mag);
        let mut v: Vec<u8> = Vec::new();
        v.push(45);
        let mut j: usize = 0;
        while j < digits.len()
            invariant
                digits@ == dec_digits(mag as int),
                j <= digits@.len(),
                v@ =~= seq![45u8] + digits@.take(j as int),
            decreases digits@.len() - j,
        {
            let b = digits[j];
            v.push(b);
            assert(v@ =~= seq![45u8] + digits@.take(j + 1)) by {
                assert(digits@.take(j + 1) =~= digits@.take(j as int).push(digits@[j as int]));
            }
            j += 1;
        }
        assert(digits@.take(digits@.len() as int) =~= digits@);
        v
    }
}

/// Every byte of a decimal rendering is a digit.
pub proof fn lemma_dec_digits_are_digits(n: int)
    ensures
        forall|i: int| 0 <= i < dec_digits(n).len() ==> is_digit(#[trigger] dec_digits(n)[i]),
    decreases n,
{
    if n >= 10 {
        lemma_dec_digits_are_digits(n / 10);
        assert(forall|i: int|
            0 <= i < dec_digits(n / 10).len() ==> dec_digits(n)[i] == dec_digits(n / 10)[i]);
    }
}

/// Every byte of a signed decimal rendering is ASCII.
pub proof fn lemma_dec_digits_signed_ascii(n: int)
    ensures
        forall|i: int|
            0 <= i < dec_digits_signed(n).len() ==> #[trigger] dec_digits_signed(n)[i] < 128,
{
    if n >= 0 {
        lemma_dec_digits_are_digits(n);
    } else {
        lemma_dec_digits_are_digits(-n);
        assert(forall|i: int|
            0 <= i < dec_digits(-n).len() ==> dec_digits_signed(n)[i + 1] == #[trigger] dec_digits(
                -n,
            )[i]);
    }
}

/// Relies on String::from_utf8: ASCII bytes are valid single-byte UTF-8
/// and decode to the characters with the same code points.
#[verifier::external_body]
pub(crate) fn ascii_to_string(bytes: Vec<u8>) -> (r: String)
    requires
        forall|i: int| 0 <= i < bytes@.len() ==> bytes@[i] < 128,
    ensures
        r@.len() == bytes@.len(),
        forall|i: int| 0 <= i < bytes@.len() ==> r@[i] == bytes@[i] as char,
{
    match String::from_utf8(bytes) {
        Ok(s) => s,
        Err(_) => String::new(),
    }
}

/// The characters of an ASCII byte sequence, one character per byte.
pub open spec fn chars_of_ascii(bs: Seq<u8>) -> Seq<char> {
    Seq::new(bs.len(), |i: int| bs[i] as char)
}

/// The decimal rendering of a nonnegative integer, as characters.
pub open spec fn dec_chars(n: int) -> Seq<char> {
    chars_of_ascii(dec_digits(n))
}

/// The decimal rendering of an integer, as characters.
pub open spec fn dec_chars_signed(n: int) -> Seq<char> {
    chars_of_ascii(dec_digits_signed(n))
}

/// Renders a `u64` in decimal as a string.
pub fn u64_dec_string(n: u64) -> (r: String)
    ensures
        r@ == dec_chars(n as int),
{
    let digits = u64_to_dec(n);
    proof {
        lemma_dec_digits_are_digits(n as int);
    }
    let s = ascii_to_string(digits);
    assert(s@ =~= chars_of_ascii(dec_digits(n as int)));
    s
}

/// Renders an `i64` in decimal as a string, with a leading `-` when
/// negative.
pub fn i64_dec_string(n: i64) -> (r: String)
    ensures
        r@ == dec_chars_signed(n as int),
{
    let digits = i64_to_dec(n);
    proof {
        lemma_dec_digits_signed_ascii(n as int);
    }
    let s = ascii_to_string(digits);
    assert(s@ =~= chars_of_ascii(dec_digits_signed(n as int)));
    s
}

/// How many times `b` occurs in `s`.
pub open spec fn count_byte(s: Seq<u8>, b: u8) -> int
    decreases s.len(),
{
    if s.len() == 0 {
        0
    } else {
        count_byte(s.drop_last(), b) + if s.last() == b {
            1int
        } else {
            0int
        }
    }
}

/// The count of a byte never exceeds the length.
pub proof fn lemma_count_byte_le_len(s: Seq<u8>, b: u8)
    ensures
        0 <= count_byte(s, b) <= s.len(),
    decreases s.len(),
{
    if s.len() > 0 {
        lemma_count_byte_le_len(s.drop_last(), b);
    }
}

/// Counts how often `b` occurs in `s`.
pub fn count_byte_occurrences(s: &[u8], b: u8) -> (n: usize)
    ensures
        n as int == count_byte(s@, b),
{
    let len = s.len();
    let mut n: usize = 0;
    let mut i: usize = 0;
    while i < len
        invariant
            len == s@.len(),
            i <= len,
            n as int == count_byte(s@.take(i as int), b),
            n <= i,
        decreases len - i,
    {
        proof {
            assert(s@.take(i + 1).drop_last() =~= s@.take(i as int));
            assert(s@.take(i + 1).last() == s@[i as int]);
        }
        if s[i] == b {
            n += 1;
        }
        i += 1;
    }
    proof {
        assert(s@.take(len as int) =~= s@);
    }
    n
}

/// `s` without its trailing run of `b` bytes.
pub open spec fn trim_trailing(s: Seq<u8>, b: u8) -> Seq<u8>
    decreases s.len(),
{
    if s.len() > 0 && s.last() == b {
        trim_trailing(s.drop_last(), b)
    } else {
        s
    }
}

/// Removes the trailing run of `b` bytes from `s`.
pub fn trim_trailing_bytes(s: &[u8], b: u8) -> (r: Vec<u8>)
    ensures
        r@ == trim_trailing(s@, b),
{
    let mut end = s.len();
    proof {
        assert(s@.take(s@.len() as int) =~= s@);
    }
    while end > 0
        invariant
            end <= s@.len(),
            trim_trailing(s@, b) == trim_trailing(s@.take(end as int), b),
        ensures
            end <= s@.len(),
            trim_trailing(s@, b) == s@.take(end as int),
        decreases end,
    {
        if s[end - 1] != b {
            assert(trim_trailing(s@.take(end as int), b) == s@.take(end as int)) by {
                assert(s@.take(end as int).last() == s@[end - 1]);
            }
            break;
        }
        proof {
            assert(s@.take(end as int).last() == s@[end - 1]);
            assert(s@.take(end as int).drop_last() =~= s@.take(end - 1));
        }
        end -= 1;
    }
    let kept = vstd::slice::slice_subrange(s, 0, end);
    vstd::slice::slice_to_vec(kept)
}

/// Appends all bytes of `more` to `out`.
pub fn push_bytes(out: &mut Vec<u8>, more: &[u8])
    ensures
        final(out)@ == old(out)@ + more@,
{
    let n = more.len();
    let mut j: usize = 0;
    while j < n
        invariant
            n == more@.len(),
            j <= n,
            out@ =~= old(out)@ + more@.take(j as int),
        decreases n - j,
    {
        let b = more[j];
        out.push(b);
        assert(out@ =~= old(out)@ + more@.take(j + 1)) by {
            assert(more@.take(j + 1) =~= more@.take(j as int).push(more@[j as int]));
        }
        j += 1;
    }
    assert(more@.take(n as int) =~= more@);
}

/// The words of `s`: maximal runs of non-whitespace bytes, in order.
/// `cur` carries the partial word read so far.
pub open spec fn tokens_acc(s: Seq<u8>, i: int, cur: Seq<u8>) -> Seq<Seq<u8>>
    decreases s.len() - i,
{
    if i < 0 || i >= s.len() {
        if cur.len() > 0 {
            seq![cur]
        } else {
            Seq::empty()
        }
    } else if is_space(s[i]) {
        (if cur.len() > 0 {
            seq![cur]
        } else {
            Seq::empty()
        }) + tokens_acc(s, i + 1, Seq::empty())
    } else {
        tokens_acc(s, i + 1, cur.push(s[i]))
    }
}

/// The whitespace-separated words of `s`.
pub open spec fn tokens(s: Seq<u8>) -> Seq<Seq<u8>> {
    tokens_acc(s, 0, Seq::empty())
}

/// Splits `s` into its whitespace-separated words.
pub fn split_tokens(s: &[u8]) -> (r: Vec<Vec<u8>>)
    ensures
        r.deep_view() == tokens(s@),
{
    let n = s.len();
    let mut out: Vec<Vec<u8>> = Vec::new();
    let mut cur: Vec<u8> = Vec::new();
    let mut i: usize = 0;
    while i < n
        invariant
            n == s@.len(),
            i <= n,
            tokens(s@) == out.deep_view() + tokens_acc(s@, i as int, cur@),
        decreases n - i,
    {
        let b = s[i];
        let ghost prev_out = out.deep_view();
        let ghost prev_cur = cur@;
        if space_byte(b) {
            if cur.len() > 0 {
                out.push(cur);
                cur = Vec::new();
                assert(out.deep_view() =~~= prev_out + seq![prev_cur]);
                assert(prev_out + (seq![prev_cur] + tokens_acc(s@, i + 1, Seq::empty()))
                    =~~= (prev_out + seq![prev_cur]) + tokens_acc(s@, i + 1, Seq::empty()));
                assert(cur@ =~= Seq::<u8>::empty());
            } else {
                assert(prev_cur =~= Seq::<u8>::empty());
                assert(prev_out + (Seq::<Seq<u8>>::empty() + tokens_acc(s@, i + 1, Seq::empty()))
                    =~~= prev_out + tokens_acc(s@, i + 1, Seq::empty()));
            }
        } else {
            cur.push(b);
        }
        i += 1;
    }
    let ghost prev_out = out.deep_view();
    let ghost prev_cur = cur@;
    if cur.len() > 0 {
        out.push(cur);
        assert(out.deep_view() =~~= prev_out + seq![prev_cur]);
    } else {
        assert(out.deep_view() =~~= prev_out + Seq::<Seq<u8>>::empty());
    }
    out
}

/// Drops one trailing carriage return, as line splitting does before a
/// line feed.
pub open spec fn strip_cr(l: Seq<u8>) -> Seq<u8> {
    if l.len() > 0 && l.last() == 13 {
        l.drop_last()
    } else {
        l
    }
}

/// The lines of `s`, split at line feeds; a carriage return directly before
/// a line feed is dropped, and a final fragment is kept as written.
/// `cur` carries the partial line read so far.
pub open spec fn lines_acc(s: Seq<u8>, i: int, cur: Seq<u8>) -> Seq<Seq<u8>>
    decreases s.len() - i,
{
    if i < 0 || i >= s.len() {
        if cur.len() > 0 {
            seq![cur]
        } else {
            Seq::empty()
        }
    } else if s[i] == 10 {
        seq![strip_cr(cur)] + lines_acc(s, i + 1, Seq::empty())
    } else {
        lines_acc(s, i + 1, cur.push(s[i]))
    }
}

/// The lines of `s`.
pub open spec fn lines_of(s: Seq<u8>) -> Seq<Seq<u8>> {
    lines_acc(s, 0, Seq::empty())
}

/// Splits `s` into lines.
pub fn split_lines(s: &[u8]) -> (r: Vec<Vec<u8>>)
    ensures
        r.deep_view() == lines_of(s@),
{
    let n = s.len();
    let mut out: Vec<Vec<u8>> = Vec::new();
    let mut cur: Vec<u8> = Vec::new();
    let mut i: usize = 0;
    while i < n
        invariant
            n == s@.len(),
            i <= n,
            lines_of(s@) == out.deep_view() + lines_acc(s@, i as int, cur@),
        decreases n - i,
    {
        let b = s[i];
        let ghost prev_out = out.deep_view();
        let ghost prev_cur = cur@;
        if b == 10 {
            if cur.len() > 0 && cur[cur.len() - 1] == 13 {
                cur.pop();
            }
            assert(cur@ =~= strip_cr(prev_cur));
            out.push(cur);
            cur = Vec::new();
            assert(out.deep_view() =~~= prev_out + seq![strip_cr(prev_cur)]);
        } else {
            cur.push(b);
        }
        i += 1;
    }
    let ghost prev_out = out.deep_view();
    let ghost prev_cur = cur@;
    if cur.len() > 0 {
        out.push(cur);
        assert(out.deep_view() =~~= prev_out + seq![prev_cur]);
    } else {
        assert(out.deep_view() =~~= prev_out + Seq::<Seq<u8>>::empty());
    }
    out
}

/// Concatenation of `ls` from index `i` on, one line feed between lines.
pub open spec fn join_from(ls: Seq<Seq<u8>>, i: int) -> Seq<u8>
    decreases ls.len() - i,
{
    if i < 0 || i >= ls.len() {
        Seq::empty()
    } else if i == ls.len() - 1 {
        ls[i]
    } else {
        ls[i] + seq![10u8] + join_from(ls, i + 1)
    }
}

/// The lines of `ls` joined with single line feeds, no trailing one.
pub open spec fn join_newlines(ls: Seq<Seq<u8>>) -> Seq<u8> {
    join_from(ls, 0)
}

/// Joins `ls` with single line feeds.
pub fn join_lines(ls: &Vec<Vec<u8>>) -> (r: Vec<u8>)
    ensures
        r@ == join_newlines(ls.deep_view()),
{
    let n = ls.len();
    let mut out: Vec<u8> = Vec::new();
    if n == 0 {
        return out;
    }
    let mut i: usize = 0;
    while i < n
        invariant
            n == ls@.len(),
            i < n,
            join_newlines(ls.deep_view()) == out@ + join_from(ls.deep_view(), i as int),
        ensures
            i == n - 1,
            join_newlines(ls.deep_view()) == out@ + join_from(ls.deep_view(), i as int),
        decreases n - i,
    {
        if i == n - 1 {
            break;
        }
        let ghost prev = out@;
        push_bytes(&mut out, ls[i].as_slice());
        out.push(10);
        assert(out@ =~= prev + (ls.deep_view()[i as int] + seq![10u8]));
        i += 1;
    }
    let ghost prev = out@;
    push_bytes(&mut out, ls[i].as_slice());
    assert(out@ =~= prev + ls.deep_view()[i as int]);
    out
}

/// The position of the first byte of `l` that is not whitespace, or the
/// length of `l` when every byte is.
pub open spec fn skip_spaces(l: Seq<u8>, i: int) -> int
    decreases l.len() - i,
{
    if i < 0 || i >= l.len() {
        l.len() as int
    } else if is_space(l[i]) {
        skip_spaces(l, i + 1)
    } else {
        i
    }
}

/// True when `l`, with leading whitespace removed, starts with `pre`.
pub open spec fn trimmed_starts_with(l: Seq<u8>, pre: Seq<u8>) -> bool {
    matches_at(l, pre, skip_spaces(l, 0))
}

/// Decides [`trimmed_starts_with`].
pub fn line_starts_trimmed(l: &[u8], pre: &[u8]) -> (r: bool)
    ensures
        r == trimmed_starts_with(l@, pre@),
{
    let n = l.len();
    let mut i: usize = 0;
    while i < n
        invariant
            n == l@.len(),
            i <= n,
            skip_spaces(l@, 0) == skip_spaces(l@, i as int),
        ensures
            i <= n,
            skip_spaces(l@, 0) == i,
        decreases n - i,
    {
        if !space_byte(l[i]) {
            break;
        }
        i += 1;
    }
    if pre.len() > n - i {
        return false;
    }
    bytes_match_at(l, pre, i)
}

/// Decides whether two string slices hold the same characters.
pub fn str_eq(a: &str, b: &str) -> (r: bool)
    ensures
        r == (a@ == b@),
{
    let r = bytes_eq(a.as_bytes(), b.as_bytes());
    proof {
        if a.spec_bytes() == b.spec_bytes() {
            vstd::utf8::encode_utf8_decode_utf8(a@);
            vstd::utf8::encode_utf8_decode_utf8(b@);
        }
    }
    r
}

/// The bytes of an ASCII character sequence, one byte per character.
pub open spec fn ascii_bytes_of(s: Seq<char>) -> Seq<u8> {
    Seq::new(s.len(), |i: int| s[i] as u8)
}

/// The bytes of an ASCII string; a string holding any non-ASCII character
/// yields the empty byte string.
pub fn ascii_bytes(s: &str) -> (r: Vec<u8>)
    ensures
        vstd::string::is_ascii(s) ==> r@ == ascii_bytes_of(s@),
        !vstd::string::is_ascii(s) ==> r@ == Seq::<u8>::empty(),
{
    if !s.is_ascii() {
        let empty: Vec<u8> = Vec::new();
        assert(empty@ =~= Seq::<u8>::empty());
        return empty;
    }
    proof {
        broadcast use vstd::string::is_ascii_spec_bytes;

        assert(s.spec_bytes() =~= ascii_bytes_of(s@));
    }
    s.as_bytes_vec()
}

/// The remainder of `s` after `pre`, when `s` starts with `pre`.
pub fn strip_prefix_bytes(s: &[u8], pre: &[u8]) -> (r: Option<Vec<u8>>)
    ensures
        match r {
            Some(rest) => matches_at(s@, pre@, 0) && rest@ == s@.subrange(
                pre@.len() as int,
                s@.len() as int,
            ),
            None => !matches_at(s@, pre@, 0),
        },
{
    if pre.len() > s.len() {
        return None;
    }
    if bytes_match_at(s, pre, 0) {
        let rest = vstd::slice::slice_subrange(s, pre.len(), s.len());
        Some(vstd::slice::slice_to_vec(rest))
    } else {
        None
    }
}

} // verus!
