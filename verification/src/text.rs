//! Character-level string helpers shared by the formatting and parsing code.

use vstd::prelude::*;
use vstd::string::StrSliceExecFns;
use vstd::string::StringExecFns;

verus! {

/// Appends one character to a string (`String::push`).
#[verifier::external_body]
pub(crate) fn push_char(s: &mut String, c: char)
    ensures
        final(s)@ == old(s)@.push(c),
{
    s.push(c);
}

/// Appends a string slice to a string.
pub(crate) fn push_str(s: &mut String, t: &str)
    ensures
        final(s)@ == old(s)@ + t@,
{
    s.append(t);
}

/// An owned copy of a string slice.
pub fn owned(s: &str) -> (r: String)
    ensures
        r@ == s@,
{
    s.to_owned()
}

/// Character-wise equality of two string slices.
pub fn str_eq(a: &str, b: &str) -> (r: bool)
    ensures
        r == (a@ == b@),
{
    let n = a.unicode_len();
    let m = b.unicode_len();
    if n != m {
        return false;
    }
    let mut i: usize = 0;
    while i < n
        invariant
            n == a@.len(),
            m == b@.len(),
            n == m,
            i <= n,
            forall|j: int| 0 <= j < i ==> a@[j] == b@[j],
        decreases n - i,
    {
        if a.get_char(i) != b.get_char(i) {
            return false;
        }
        i = i + 1;
    }
    assert(a@ =~= b@);
    true
}

// ── Hexadecimal ────────────────────────────────────────────────────────────

/// The lowercase hexadecimal digit for `d` (meaningful for `d < 16`).
pub open spec fn hex_char(d: nat) -> char {
    if d < 10 {
        (48 + d) as char
    } else {
        (87 + d) as char
    }
}

/// The lowest `w` hexadecimal digits of `v`, most significant first,
/// zero-padded: what `{:0w$x}` prints for `v < 16^w`.
pub open spec fn hex_digits(v: nat, w: nat) -> Seq<char>
    decreases w,
{
    if w == 0 {
        Seq::empty()
    } else {
        hex_digits(v / 16, (w - 1) as nat).push(hex_char(v % 16))
    }
}

/// Two lowercase hexadecimal digits per byte, in order: `{:02x}` of each byte.
pub open spec fn hex_bytes(s: Seq<u8>) -> Seq<char>
    decreases s.len(),
{
    if s.len() == 0 {
        Seq::empty()
    } else {
        hex_bytes(s.drop_last()) + hex_digits(s.last() as nat, 2)
    }
}

/// `hex_digits(v, w)` has exactly `w` characters, each a lowercase
/// hexadecimal digit.
pub proof fn lemma_hex_digits_shape(v: nat, w: nat)
    ensures
        hex_digits(v, w).len() == w,
        forall|i: int| 0 <= i < w ==> is_hex_char(#[trigger] hex_digits(v, w)[i]),
    decreases w,
{
    if w > 0 {
        lemma_hex_digits_shape(v / 16, (w - 1) as nat);
        let d = v % 16;
        assert(is_hex_char(hex_char(d)));
        let s = hex_digits(v, w);
        assert forall|i: int| 0 <= i < w implies is_hex_char(#[trigger] s[i]) by {
            if i < w - 1 {
                assert(s[i] == hex_digits(v / 16, (w - 1) as nat)[i]);
            }
        }
    }
}

/// `hex_bytes` gives two digits per byte.
pub proof fn lemma_hex_bytes_len(s: Seq<u8>)
    ensures
        hex_bytes(s).len() == 2 * s.len(),
    decreases s.len(),
{
    if s.len() > 0 {
        lemma_hex_bytes_len(s.drop_last());
        lemma_hex_digits_shape(s.last() as nat, 2);
    }
}

/// A lowercase hexadecimal digit: `0`–`9` or `a`–`f`.
pub open spec fn is_hex_char(c: char) -> bool {
    ('0' <= c && c <= '9') || ('a' <= c && c <= 'f')
}

fn hex_char_exec(d: u8) -> (c: char)
    requires
        d < 16,
    ensures
        c == hex_char(d as nat),
{
    if d < 10 {
        (48u8 + d) as char
    } else {
        (87u8 + d) as char
    }
}

/// Appends the lowest `w` hexadecimal digits of `v`, zero-padded.
pub fn push_hex(out: &mut String, v: u128, w: usize)
    ensures
        final(out)@ == old(out)@ + hex_digits(v as nat, w as nat),
    decreases w,
{
    if w > 0 {
        push_hex(out, v / 16, w - 1);
        let d = (v % 16) as u8;
        let c = hex_char_exec(d);
        push_char(out, c);
        assert(out@ =~= old(out)@ + hex_digits(v as nat, w as nat));
    } else {
        assert(out@ =~= old(out)@ + hex_digits(v as nat, w as nat));
    }
}

/// Appends `{:02x}` of every byte, in order.
pub fn push_hex_bytes(out: &mut String, bytes: &[u8])
    ensures
        final(out)@ == old(out)@ + hex_bytes(bytes@),
{
    let n = bytes.len();
    let mut i: usize = 0;
    while i < n
        invariant
            n == bytes@.len(),
            i <= n,
            out@ == old(out)@ + hex_bytes(bytes@.take(i as int)),
        decreases n - i,
    {
        let b = bytes[i];
        push_hex(out, b as u128, 2);
        assert(bytes@.take(i + 1).drop_last() =~= bytes@.take(i as int));
        assert(out@ =~= old(out)@ + hex_bytes(bytes@.take(i + 1)));
        i = i + 1;
    }
    assert(bytes@.take(n as int) =~= bytes@);
}

// ── Decimal ────────────────────────────────────────────────────────────────

/// The decimal digit character for `d` (meaningful for `d < 10`).
pub open spec fn digit_char(d: nat) -> char {
    (48 + d) as char
}

/// The shortest decimal representation of `n` (what `{}` prints).
pub open spec fn dec_digits(n: nat) -> Seq<char>
    decreases n,
{
    if n < 10 {
        seq![digit_char(n)]
    } else {
        dec_digits(n / 10).push(digit_char(n % 10))
    }
}

/// `s` left-padded with `'0'` to at least `w` characters.
pub open spec fn zero_pad(s: Seq<char>, w: nat) -> Seq<char> {
    if s.len() >= w {
        s
    } else {
        Seq::new((w - s.len()) as nat, |_i: int| '0') + s
    }
}

/// Appends the decimal representation of `n`.
pub fn push_decimal(out: &mut String, n: u64)
    ensures
        final(out)@ == old(out)@ + dec_digits(n as nat),
    decreases n,
{
    if n >= 10 {
        push_decimal(out, n / 10);
    }
    let c = ((48u64 + n % 10) as u8) as char;
    push_char(out, c);
    assert(out@ =~= old(out)@ + dec_digits(n as nat));
}

/// Appends the decimal representation of `n`, left-padded with zeros to
/// at least `w` characters (`{:0w$}`).
pub fn push_decimal_padded(out: &mut String, n: u64, w: usize)
    ensures
        final(out)@ == old(out)@ + zero_pad(dec_digits(n as nat), w as nat),
{
    let mut digits = String::new();
    push_decimal(&mut digits, n);
    let len = digits.as_str().unicode_len();
    let mut k: usize = len;
    let ghost pre = out@;
    while k < w
        invariant
            len == dec_digits(n as nat).len(),
            len <= k <= w || (k == len && w < len),
            out@ == pre + Seq::new((k - len) as nat, |_i: int| '0'),
        decreases w - k,
    {
        push_char(out, '0');
        assert(out@ =~= pre + Seq::new((k + 1 - len) as nat, |_i: int| '0'));
        k = k + 1;
    }
    push_str(out, digits.as_str());
    assert(out@ =~= pre + zero_pad(dec_digits(n as nat), w as nat));
}

// ── Parsing unsigned integers and booleans (`FromStr` semantics) ───────────

pub open spec fn is_digit(c: char) -> bool {
    '0' <= c && c <= '9'
}

pub open spec fn all_digits(s: Seq<char>) -> bool {
    forall|i: int| 0 <= i < s.len() ==> is_digit(#[trigger] s[i])
}

/// The value of a string of decimal digits.
pub open spec fn digits_value(s: Seq<char>) -> nat
    decreases s.len(),
{
    if s.len() == 0 {
        0
    } else {
        digits_value(s.drop_last()) * 10 + ((s.last() as nat) - 48) as nat
    }
}

/// The digits that follow an optional leading `+`.
pub open spec fn unsigned_body(s: Seq<char>) -> Seq<char> {
    if s.len() > 0 && s[0] == '+' {
        s.drop_first()
    } else {
        s
    }
}

/// What `str::parse` gives for an unsigned integer type whose largest value
/// is `max`: an optional `+`, then at least one decimal digit and nothing
/// else, with a value that fits.
pub open spec fn parse_unsigned(s: Seq<char>, max: nat) -> Option<nat> {
    let b = unsigned_body(s);
    if b.len() > 0 && all_digits(b) && digits_value(b) <= max {
        Some(digits_value(b))
    } else {
        None
    }
}

fn parse_unsigned_exec(s: &str, max: u64) -> (r: Option<u64>)
    ensures
        r matches Some(v) ==> parse_unsigned(s@, max as nat) == Some(v as nat),
        r is None ==> parse_unsigned(s@, max as nat) is None,
{
    let n = s.unicode_len();
    let mut start: usize = 0;
    if n > 0 && s.get_char(0) == '+' {
        start = 1;
    }
    let ghost b = unsigned_body(s@);
    assert(b =~= s@.subrange(start as int, n as int));
    if start == n {
        return None;
    }
    let mut acc: u64 = 0;
    let mut i: usize = start;
    let mut too_big = false;
    while i < n
        invariant
            n == s@.len(),
            start <= i <= n,
            b =~= s@.subrange(start as int, n as int),
            b == unsigned_body(s@),
            all_digits(b.take(i - start)),
            !too_big ==> acc as nat == digits_value(b.take(i - start)) && acc <= max,
            too_big ==> digits_value(b.take(i - start)) > max,
        decreases n - i,
    {
        let c = s.get_char(i);
        if !('0' <= c && c <= '9') {
            assert(b[i - start] == c);
            assert(!is_digit(b[i - start]));
            assert(!all_digits(b));
            return None;
        }
        let ghost p = b.take(i - start);
        let ghost q = b.take(i + 1 - start);
        assert(q.drop_last() =~= p);
        assert(q.last() == c);
        assert(all_digits(q)) by {
            assert forall|j: int| 0 <= j < q.len() implies is_digit(#[trigger] q[j]) by {
                if j < p.len() {
                    assert(q[j] == p[j]);
                }
            }
        }
        let d = (c as u32 - 48) as u64;
        assert(digits_value(q) == digits_value(p) * 10 + d);
        if too_big {
            assert(digits_value(q) > max) by (nonlinear_arith)
                requires digits_value(q) == digits_value(p) * 10 + d, digits_value(p) > max;
        } else if d > max || acc > (max - d) / 10 {
            assert(acc * 10 + d > max) by (nonlinear_arith)
                requires d > max || acc > (max - d) / 10, acc >= 0, d >= 0, max >= 0;
            too_big = true;
        } else {
            assert(acc * 10 + d <= max) by (nonlinear_arith)
                requires acc <= (max - d) / 10, d <= max;
            acc = acc * 10 + d;
        }
        i = i + 1;
    }
    assert(b.take(n - start) =~= b);
    if too_big {
        None
    } else {
        Some(acc)
    }
}

/// The value of a decimal digit character.
pub proof fn lemma_digit_char_value(d: nat)
    requires
        d < 10,
    ensures
        (digit_char(d) as nat) - 48 == d,
        is_digit(digit_char(d)),
{
}

/// The decimal representation of `n` is made of digits and reads back as `n`.
pub proof fn lemma_dec_digits_value(n: nat)
    ensures
        all_digits(dec_digits(n)),
        digits_value(dec_digits(n)) == n,
    decreases n,
{
    lemma_digit_char_value(n % 10);
    let s = dec_digits(n);
    if n < 10 {
        assert(s.drop_last() =~= Seq::<char>::empty());
        assert(digits_value(s.drop_last()) == 0);
        assert(s.last() == digit_char(n));
    } else {
        lemma_dec_digits_value(n / 10);
        assert(s.drop_last() =~= dec_digits(n / 10));
        assert(s.last() == digit_char(n % 10));
        assert(digits_value(s) == digits_value(dec_digits(n / 10)) * 10 + n % 10);
        assert forall|i: int| 0 <= i < s.len() implies is_digit(#[trigger] s[i]) by {
            if i < s.len() - 1 {
                assert(s[i] == dec_digits(n / 10)[i]);
            }
        }
    }
}

/// Printing a number in decimal and parsing it back gives the number,
/// whenever it fits.
pub proof fn lemma_decimal_reads_back(n: nat, max: nat)
    requires
        n <= max,
    ensures
        parse_unsigned(dec_digits(n), max) == Some(n),
{
    lemma_dec_digits_value(n);
    let d = dec_digits(n);
    assert(d.len() > 0) by {
        if n >= 10 {
            assert(d == dec_digits(n / 10).push(digit_char(n % 10)));
        }
    }
    assert(is_digit(d[0]));
    assert(unsigned_body(d) == d);
}

/// `str::parse::<u32>`.
pub fn parse_u32(s: &str) -> (r: Option<u32>)
    ensures
        r matches Some(v) ==> parse_unsigned(s@, u32::MAX as nat) == Some(v as nat),
        r is None ==> parse_unsigned(s@, u32::MAX as nat) is None,
{
    match parse_unsigned_exec(s, u32::MAX as u64) {
        Some(v) => Some(v as u32),
        None => None,
    }
}

/// `str::parse::<u16>`.
pub fn parse_u16(s: &str) -> (r: Option<u16>)
    ensures
        r matches Some(v) ==> parse_unsigned(s@, u16::MAX as nat) == Some(v as nat),
        r is None ==> parse_unsigned(s@, u16::MAX as nat) is None,
{
    match parse_unsigned_exec(s, u16::MAX as u64) {
        Some(v) => Some(v as u16),
        None => None,
    }
}

/// What `str::parse::<bool>` gives: exactly `"true"` or `"false"`.
pub open spec fn parse_bool_spec(s: Seq<char>) -> Option<bool> {
    if s == "true"@ {
        Some(true)
    } else if s == "false"@ {
        Some(false)
    } else {
        None
    }
}

/// `str::parse::<bool>`.
pub fn parse_bool(s: &str) -> (r: Option<bool>)
    ensures
        r == parse_bool_spec(s@),
{
    if str_eq(s, "true") {
        Some(true)
    } else if str_eq(s, "false") {
        Some(false)
    } else {
        None
    }
}

} // verus!
