use vstd::prelude::*;
use crate::text::{hex_digit, hex_digit_char, push_char};

verus! {

/// Fixed-point decimal value: `mantissa / 10^scale`. Wire prices and
/// percentage fields arrive either as decimal strings ("54380.00") or as
/// integers with an implied exponent ("*_e4"), and both forms land here.
#[derive(Clone, Copy, Debug, PartialEq, Eq, Structural)]
pub struct Decimal {
    pub mantissa: i64,
    pub scale: u32,
}

impl Decimal {
    pub fn zero() -> (r: Decimal)
        ensures
            r == (Decimal { mantissa: 0i64, scale: 0u32 }),
    {
        Decimal { mantissa: 0, scale: 0 }
    }

    /// A wire integer with four implied decimal places.
    pub fn from_e4(m: i64) -> (r: Decimal)
        ensures
            r == (Decimal { mantissa: m, scale: 4u32 }),
    {
        Decimal { mantissa: m, scale: 4 }
    }

    /// A wire integer with six implied decimal places.
    pub fn from_e6(m: i64) -> (r: Decimal)
        ensures
            r == (Decimal { mantissa: m, scale: 6u32 }),
    {
        Decimal { mantissa: m, scale: 6 }
    }

    /// A wire integer with eight implied decimal places.
    pub fn from_e8(m: i64) -> (r: Decimal)
        ensures
            r == (Decimal { mantissa: m, scale: 8u32 }),
    {
        Decimal { mantissa: m, scale: 8 }
    }
}

/// All-zero padding of a given length.
pub open spec fn zeros(n: nat) -> Seq<char>
    decreases n,
{
    if n == 0 {
        Seq::empty()
    } else {
        seq!['0'] + zeros((n - 1) as nat)
    }
}

pub proof fn lemma_zeros(n: nat)
    ensures
        zeros(n).len() == n,
        forall|i: int| 0 <= i < n ==> zeros(n)[i] == '0',
    decreases n,
{
    if n > 0 {
        lemma_zeros((n - 1) as nat);
    }
}

/// Magnitude of a signed mantissa.
pub open spec fn abs_of(m: int) -> nat {
    if m < 0 {
        (-m) as nat
    } else {
        m as nat
    }
}

/// The decimal text a fixed-point value prints as: the magnitude's digits
/// with the point `scale` places from the right, zero-padded when the digits
/// are short, and a leading sign for a negative mantissa.
pub open spec fn dec_string_of(d: Decimal) -> Seq<char> {
    let digits = dec_digits(abs_of(d.mantissa as int));
    let body = if d.scale == 0 {
        digits
    } else if digits.len() > d.scale as nat {
        digits.take(digits.len() - d.scale as int) + "."@ + digits.skip(
            digits.len() - d.scale as int,
        )
    } else {
        "0."@ + zeros((d.scale as nat - digits.len()) as nat) + digits
    };
    if d.mantissa < 0 {
        "-"@ + body
    } else {
        body
    }
}

impl Decimal {
    /// Renders the value as decimal text.
    pub fn to_string(&self) -> (r: String)
        ensures
            r@ == dec_string_of(*self),
    {
        let neg = self.mantissa < 0;
        let a: u64 = if self.mantissa >= 0 {
            self.mantissa as u64
        } else {
            ((-(self.mantissa + 1)) as u64) + 1
        };
        assert(a as nat == abs_of(self.mantissa as int));
        let digits = u64_to_string(a);
        let dlen = digits.unicode_len();
        let mut out = String::new();
        if neg {
            push_char(&mut out, '-');
        }
        let ghost sign: Seq<char> = if neg {
            "-"@
        } else {
            Seq::empty()
        };
        proof {
            reveal_strlit("-");
            assert(out@ =~= sign);
        }
        if self.scale == 0 {
            out.append(digits.as_str());
            proof {
                assert(out@ =~= dec_string_of(*self));
            }
            return out;
        }
        let scale = self.scale as usize;
        if dlen > scale {
            let split = dlen - scale;
            let mut j: usize = 0;
            proof {
                assert(digits@.take(0) =~= Seq::<char>::empty());
                assert(out@ =~= sign + digits@.take(0));
            }
            while j < split
                invariant
                    j <= split,
                    split <= dlen,
                    dlen == digits@.len(),
                    out@ == sign + digits@.take(j as int),
                decreases split - j,
            {
                let c = digits.get_char(j);
                push_char(&mut out, c);
                proof {
                    assert(digits@.take(j as int).push(c) =~= digits@.take(j + 1));
                    assert(out@ =~= sign + digits@.take(j + 1));
                }
                j = j + 1;
            }
            push_char(&mut out, '.');
            let ghost mid = sign + digits@.take(split as int) + "."@;
            proof {
                reveal_strlit(".");
                assert(out@ =~= mid);
                assert(digits@.subrange(split as int, split as int) =~= Seq::<char>::empty());
            }
            let mut j2: usize = split;
            while j2 < dlen
                invariant
                    split <= j2 <= dlen,
                    dlen == digits@.len(),
                    mid == sign + digits@.take(split as int) + "."@,
                    out@ == mid + digits@.subrange(split as int, j2 as int),
                decreases dlen - j2,
            {
                let c = digits.get_char(j2);
                push_char(&mut out, c);
                proof {
                    assert(digits@.subrange(split as int, j2 as int).push(c) =~= digits@.subrange(
                        split as int,
                        j2 + 1,
                    ));
                    assert(out@ =~= mid + digits@.subrange(split as int, j2 + 1));
                }
                j2 = j2 + 1;
            }
            proof {
                assert(digits@.subrange(split as int, dlen as int) =~= digits@.skip(split as int));
                assert(digits@.take(split as int) =~= digits@.take(digits@.len() - self.scale as int));
                assert(out@ =~= dec_string_of(*self));
            }
            out
        } else {
            out.append("0.");
            let pad = scale - dlen;
            let ghost head = sign + "0."@;
            let mut z: usize = 0;
            proof {
                lemma_zeros(0);
                assert(zeros(0) =~= Seq::<char>::empty());
                assert(out@ =~= head + zeros(0));
            }
            while z < pad
                invariant
                    z <= pad,
                    head == sign + "0."@,
                    out@ == head + zeros(z as nat),
                decreases pad - z,
            {
                push_char(&mut out, '0');
                proof {
                    lemma_zeros(z as nat);
                    lemma_zeros((z + 1) as nat);
                    assert(zeros(z as nat).push('0') =~= zeros((z + 1) as nat));
                    assert(out@ =~= head + zeros((z + 1) as nat));
                }
                z = z + 1;
            }
            out.append(digits.as_str());
            proof {
                assert(out@ =~= dec_string_of(*self));
            }
            out
        }
    }
}

pub open spec fn is_digit(c: char) -> bool {
    ('0' as u32) <= (c as u32) && (c as u32) <= ('9' as u32)
}

pub open spec fn digit_val(c: char) -> int {
    (c as u32) as int - ('0' as u32) as int
}

pub open spec fn all_digits(s: Seq<char>) -> bool {
    forall|j: int| 0 <= j < s.len() ==> is_digit(#[trigger] s[j])
}

/// Value of a digit string read in base ten.
pub open spec fn digits_val(s: Seq<char>) -> int
    decreases s.len(),
{
    if s.len() == 0 {
        0
    } else {
        digits_val(s.drop_last()) * 10 + digit_val(s.last())
    }
}

pub open spec fn pow10(n: nat) -> int
    decreases n,
{
    if n == 0 {
        1
    } else {
        10 * pow10((n - 1) as nat)
    }
}

pub fn is_ascii_digit(c: char) -> (r: bool)
    ensures
        r == is_digit(c),
{
    let u = c as u32;
    48 <= u && u <= 57
}

pub proof fn lemma_pow10_pos(n: nat)
    ensures
        pow10(n) >= 1,
    decreases n,
{
    if n > 0 {
        lemma_pow10_pos((n - 1) as nat);
    }
}

pub proof fn lemma_digits_val_nonneg(s: Seq<char>)
    requires
        all_digits(s),
    ensures
        digits_val(s) >= 0,
    decreases s.len(),
{
    if s.len() > 0 {
        assert(all_digits(s.drop_last())) by {
            assert(forall|j: int| 0 <= j < s.len() - 1 ==> s.drop_last()[j] == s[j]);
        }
        lemma_digits_val_nonneg(s.drop_last());
        assert(is_digit(s.last()));
    }
}

/// Reading a longer digit string multiplies the head's value by a power of
/// ten and adds the tail's value.
pub proof fn lemma_digits_val_concat(a: Seq<char>, b: Seq<char>)
    ensures
        digits_val(a + b) == digits_val(a) * pow10(b.len()) + digits_val(b),
    decreases b.len(),
{
    if b.len() == 0 {
        assert(a + b =~= a);
    } else {
        assert((a + b).drop_last() =~= a + b.drop_last());
        assert((a + b).last() == b.last());
        lemma_digits_val_concat(a, b.drop_last());
        let p = pow10((b.len() - 1) as nat);
        assert(pow10(b.len()) == 10 * p);
        assert((digits_val(a) * p + digits_val(b.drop_last())) * 10 + digit_val(b.last())
            == digits_val(a) * (10 * p) + (digits_val(b.drop_last()) * 10 + digit_val(b.last())))
            by (nonlinear_arith);
    }
}

/// A digit string is worth at least any of its prefixes.
pub proof fn lemma_digits_val_prefix_le(s: Seq<char>, k: int)
    requires
        all_digits(s),
        0 <= k <= s.len(),
    ensures
        digits_val(s.take(k)) <= digits_val(s),
{
    assert(s =~= s.take(k) + s.skip(k));
    lemma_digits_val_concat(s.take(k), s.skip(k));
    assert(all_digits(s.take(k)));
    assert(all_digits(s.skip(k))) by {
        assert(forall|j: int| 0 <= j < s.len() - k ==> s.skip(k)[j] == s[j + k]);
    }
    lemma_digits_val_nonneg(s.take(k));
    lemma_digits_val_nonneg(s.skip(k));
    lemma_pow10_pos((s.len() - k) as nat);
    let x = digits_val(s.take(k));
    let p = pow10((s.len() - k) as nat);
    assert(x * p >= x * 1) by (nonlinear_arith)
        requires
            x >= 0,
            p >= 1,
    ;
}

/// Length of the run of digits a string begins with.
pub open spec fn int_len(s: Seq<char>) -> nat
    decreases s.len(),
{
    if s.len() == 0 || !is_digit(s[0]) {
        0
    } else {
        (1 + int_len(s.skip(1))) as nat
    }
}

/// The digit run is exactly the maximal digit prefix.
pub proof fn lemma_int_len_eq(s: Seq<char>, m: int)
    requires
        0 <= m <= s.len(),
        forall|j: int| 0 <= j < m ==> is_digit(#[trigger] s[j]),
        m < s.len() ==> !is_digit(s[m]),
    ensures
        int_len(s) == m,
    decreases s.len(),
{
    if m == 0 {
        if s.len() > 0 {
            assert(!is_digit(s[0]));
        }
    } else {
        assert(is_digit(s[0]));
        assert(forall|j: int| 0 <= j < m - 1 ==> s.skip(1)[j] == s[j + 1]);
        assert(m - 1 < s.skip(1).len() ==> !is_digit(s.skip(1)[m - 1]));
        lemma_int_len_eq(s.skip(1), m - 1);
    }
}

/// Whether the string opens with a sign.
pub open spec fn dec_neg(s: Seq<char>) -> bool {
    s.len() > 0 && s[0] == '-'
}

/// The string with any sign removed.
pub open spec fn dec_body(s: Seq<char>) -> Seq<char> {
    if dec_neg(s) {
        s.skip(1)
    } else {
        s
    }
}

/// The digits after the decimal point, empty when there is no point.
pub open spec fn frac_part(u: Seq<char>) -> Seq<char> {
    if int_len(u) == u.len() {
        Seq::empty()
    } else {
        u.skip(int_len(u) as int + 1)
    }
}

/// An unsigned decimal literal: one or more digits, optionally followed by a
/// point and one or more digits.
pub open spec fn valid_unsigned_dec(u: Seq<char>) -> bool {
    let k = int_len(u) as int;
    k > 0 && (k == u.len() || (u[k] == '.' && k + 1 < u.len() && all_digits(u.skip(k + 1))))
}

/// A decimal literal, optionally signed.
pub open spec fn valid_dec(s: Seq<char>) -> bool {
    valid_unsigned_dec(dec_body(s))
}

/// All digits of the literal read as one base-ten number.
pub open spec fn unsigned_val(u: Seq<char>) -> int {
    digits_val(u.take(int_len(u) as int) + frac_part(u))
}

/// The mantissa the literal denotes, with its sign.
pub open spec fn dec_mantissa(s: Seq<char>) -> int {
    if dec_neg(s) {
        -unsigned_val(dec_body(s))
    } else {
        unsigned_val(dec_body(s))
    }
}

/// The number of digits after the point.
pub open spec fn dec_scale(s: Seq<char>) -> nat {
    frac_part(dec_body(s)).len()
}

/// Parses a decimal string from the wire into a fixed-point value.
/// Succeeds exactly on well-formed literals whose digits fit the mantissa.
pub fn parse_decimal(s: &str) -> (r: Option<Decimal>)
    ensures
        r is Some <==> valid_dec(s@) && unsigned_val(dec_body(s@)) <= i64::MAX && dec_scale(s@)
            <= u32::MAX,
        r matches Some(d) ==> d.mantissa as int == dec_mantissa(s@) && d.scale as nat == dec_scale(
            s@,
        ),
        r == spec_decimal_of(s@),
{
    let len = s.unicode_len();
    let neg = len > 0 && s.get_char(0) == '-';
    let start: usize = if neg { 1 } else { 0 };
    let ghost u = dec_body(s@);
    proof {
        assert(u =~= s@.skip(start as int));
    }

    // Scan the run of integer digits, accumulating their value.
    let mut i: usize = start;
    let mut acc: u64 = 0;
    let max: u64 = 9223372036854775807u64;
    assert(u.take(0) =~= Seq::<char>::empty());
    while i < len && is_ascii_digit(s.get_char(i))
        invariant
            start <= i <= len,
            len == s@.len(),
            neg ==> start == 1,
            !neg ==> start == 0,
            u == s@.skip(start as int),
            u == dec_body(s@),
            max == i64::MAX as u64,
            forall|j: int| 0 <= j < i - start ==> is_digit(#[trigger] u[j]),
            acc <= max,
            acc as int == digits_val(u.take(i - start)),
        decreases len - i,
    {
        let c = s.get_char(i);
        let d = (c as u32 - 48) as u64;
        let ghost bi = i - start;
        proof {
            assert(u[bi] == c);
            assert(u.take(bi + 1).drop_last() =~= u.take(bi));
            assert(u.take(bi + 1).last() == c);
            assert(digits_val(u.take(bi + 1)) == acc as int * 10 + digit_val(c));
        }
        if acc > (max - d) / 10 {
            proof {
                assert(acc * 10 + d > max) by (nonlinear_arith)
                    requires
                        acc > (max - d) / 10,
                        0 <= d <= 9,
                        max >= 0,
                ;
                lemma_overflow_means_no_fit(s@, u, bi + 1, max as int);
            }
            return None;
        }
        proof {
            assert(acc * 10 + d <= max) by (nonlinear_arith)
                requires
                    acc <= (max - d) / 10,
                    0 <= d <= max,
            ;
        }
        acc = acc * 10 + d;
        i = i + 1;
    }
    let k = i - start;
    proof {
        lemma_int_len_eq(u, k as int);
    }
    if k == 0 {
        // No leading digit: not a decimal literal.
        return None;
    }

    if i == len {
        // Integer literal with no fractional part.
        proof {
            assert(u.take(k as int) =~= u);
            assert(u.take(int_len(u) as int) + frac_part(u) =~= u);
        }
        let m = if neg {
            -(acc as i64)
        } else {
            acc as i64
        };
        return Some(Decimal { mantissa: m, scale: 0 });
    }

    if s.get_char(i) != '.' {
        // The digit run stops at something other than a point.
        return None;
    }
    if i + 1 == len {
        // A point must be followed by at least one digit.
        return None;
    }

    // Scan the fractional digits, continuing the same accumulation.
    let mut j: usize = i + 1;
    let ghost kk = k as int;
    proof {
        assert(u.take(kk) + frac_part(u).take(0) =~= u.take(kk));
    }
    while j < len && is_ascii_digit(s.get_char(j))
        invariant
            start + 1 <= i < len,
            i + 1 <= j <= len,
            len == s@.len(),
            neg ==> start == 1,
            !neg ==> start == 0,
            u == s@.skip(start as int),
            u == dec_body(s@),
            max == i64::MAX as u64,
            kk == k as int == i - start,
            int_len(u) == kk,
            kk < u.len(),
            u[kk] == '.',
            kk + 1 < u.len(),
            forall|j2: int| 0 <= j2 < kk ==> is_digit(#[trigger] u[j2]),
            forall|j2: int| kk + 1 <= j2 < j - start ==> is_digit(#[trigger] u[j2]),
            acc <= max,
            acc as int == digits_val(u.take(kk) + u.skip(kk + 1).take(j - start - kk - 1)),
        decreases len - j,
    {
        let c = s.get_char(j);
        let d = (c as u32 - 48) as u64;
        let ghost fi = j - start - kk - 1;
        let ghost dseq = u.take(kk) + u.skip(kk + 1).take(fi);
        proof {
            assert(u.skip(kk + 1)[fi] == u[j - start]);
            assert(u[j - start] == c);
            assert((u.take(kk) + u.skip(kk + 1).take(fi + 1)).drop_last() =~= dseq);
            assert((u.take(kk) + u.skip(kk + 1).take(fi + 1)).last() == c);
            assert(digits_val(u.take(kk) + u.skip(kk + 1).take(fi + 1)) == acc as int * 10
                + digit_val(c));
        }
        if acc > (max - d) / 10 {
            proof {
                assert(acc * 10 + d > max) by (nonlinear_arith)
                    requires
                        acc > (max - d) / 10,
                        0 <= d <= 9,
                        max >= 0,
                ;
                lemma_frac_overflow_means_no_fit(s@, u, kk, fi + 1, max as int);
            }
            return None;
        }
        proof {
            assert(acc * 10 + d <= max) by (nonlinear_arith)
                requires
                    acc <= (max - d) / 10,
                    0 <= d <= max,
            ;
        }
        acc = acc * 10 + d;
        j = j + 1;
    }
    if j < len {
        // A non-digit inside the fractional part: not a decimal literal.
        proof {
            let bad = j - start;
            assert(kk + 1 <= bad < u.len());
            assert(!is_digit(u[bad]));
            assert(u.skip(kk + 1)[bad - kk - 1] == u[bad]);
            assert(!valid_unsigned_dec(u));
        }
        return None;
    }
    let frac_len = j - i - 1;
    proof {
        assert(frac_part(u) =~= u.skip(kk + 1));
        assert(u.skip(kk + 1).take(j - start - kk - 1) =~= u.skip(kk + 1));
        assert(acc as int == unsigned_val(u));
        assert(valid_unsigned_dec(u));
        assert(frac_len as int == dec_scale(s@));
    }
    if frac_len > 4294967295usize {
        return None;
    }
    let m = if neg {
        -(acc as i64)
    } else {
        acc as i64
    };
    Some(Decimal { mantissa: m, scale: frac_len as u32 })
}

/// What parsing a decimal string yields: a fixed-point value exactly when
/// the literal is well-formed and its digits fit the mantissa.
pub open spec fn spec_decimal_of(s: Seq<char>) -> Option<Decimal> {
    if valid_dec(s) && unsigned_val(dec_body(s)) <= i64::MAX && dec_scale(s) <= u32::MAX {
        Option::Some(
            Decimal { mantissa: dec_mantissa(s) as i64, scale: dec_scale(s) as u32 },
        )
    } else {
        Option::None
    }
}

/// What parsing an unsigned integer string yields.
pub open spec fn spec_u64_of(s: Seq<char>) -> Option<u64> {
    if s.len() > 0 && all_digits(s) && digits_val(s) <= u64::MAX {
        Option::Some(digits_val(s) as u64)
    } else {
        Option::None
    }
}

/// What parsing a signed integer string yields.
pub open spec fn spec_i64_of(s: Seq<char>) -> Option<i64> {
    if valid_dec(s) && dec_scale(s) == 0 && unsigned_val(dec_body(s)) <= i64::MAX {
        Option::Some(dec_mantissa(s) as i64)
    } else {
        Option::None
    }
}

/// Parses a signed integer string: an integer literal with no fractional
/// part, within the signed range.
pub fn parse_i64_str(s: &str) -> (r: Option<i64>)
    ensures
        r is Some <==> valid_dec(s@) && dec_scale(s@) == 0 && unsigned_val(dec_body(s@))
            <= i64::MAX,
        r matches Some(v) ==> v as int == dec_mantissa(s@),
        r == spec_i64_of(s@),
{
    match parse_decimal(s) {
        Some(d) => {
            if d.scale == 0 {
                Some(d.mantissa)
            } else {
                None
            }
        },
        None => None,
    }
}

/// If the digits already read exceed the mantissa bound, no well-formed
/// continuation of the integer part can fit it either.
proof fn lemma_overflow_means_no_fit(s: Seq<char>, u: Seq<char>, m: int, max: int)
    requires
        u == dec_body(s),
        0 <= m <= u.len(),
        forall|j: int| 0 <= j < m ==> is_digit(#[trigger] u[j]),
        digits_val(u.take(m)) > max,
        max >= 0,
    ensures
        !(valid_dec(s) && unsigned_val(dec_body(s)) <= max),
{
    if valid_dec(s) {
        lemma_body_vals(s, u, m, max);
    }
}

/// Helper: relates the scanned body prefix to the literal's full value.
proof fn lemma_body_vals(s: Seq<char>, u: Seq<char>, m: int, max: int)
    requires
        0 <= m <= u.len(),
        forall|j: int| 0 <= j < m ==> is_digit(#[trigger] u[j]),
        digits_val(u.take(m)) > max,
        max >= 0,
        valid_dec(s),
        dec_body(s) == u,
    ensures
        unsigned_val(u) > max,
{
    let k = int_len(u) as int;
    // The scanned digits sit inside the maximal digit run.
    assert(m <= k) by {
        if m > k {
            lemma_int_len_chars(u);
            assert(is_digit(u[k]));
            lemma_int_len_eq(u, k);
            assert(false);
        }
    }
    lemma_int_len_chars(u);
    let digits = u.take(k) + frac_part(u);
    assert(all_digits(digits)) by {
        assert(forall|j: int| 0 <= j < k ==> digits[j] == u.take(k)[j]);
        if int_len(u) < u.len() {
            assert(forall|j: int|
                k <= j < digits.len() ==> digits[j] == #[trigger] frac_part(u)[j - k]);
            assert(forall|j: int|
                0 <= j < frac_part(u).len() ==> #[trigger] frac_part(u)[j] == u[j + k + 1]);
        }
    }
    assert(u.take(m) =~= digits.take(m));
    lemma_digits_val_prefix_le(digits, m);
}

/// All characters inside the leading digit run are digits.
proof fn lemma_int_len_chars(u: Seq<char>)
    ensures
        int_len(u) <= u.len(),
        forall|j: int| 0 <= j < int_len(u) ==> is_digit(#[trigger] u[j]),
    decreases u.len(),
{
    if u.len() > 0 && is_digit(u[0]) {
        lemma_int_len_chars(u.skip(1));
        assert(forall|j: int| 1 <= j < int_len(u) ==> u[j] == u.skip(1)[j - 1]);
    }
}

/// If the digits read so far (integer part plus a fractional prefix) exceed
/// the mantissa bound, the whole literal cannot fit it.
proof fn lemma_frac_overflow_means_no_fit(s: Seq<char>, u: Seq<char>, k: int, f: int, max: int)
    requires
        u == dec_body(s),
        int_len(u) == k,
        0 < k < u.len(),
        u[k] == '.',
        0 <= f <= u.len() - k - 1,
        forall|j: int| k + 1 <= j < k + 1 + f ==> is_digit(#[trigger] u[j]),
        digits_val(u.take(k) + u.skip(k + 1).take(f)) > max,
        max >= 0,
    ensures
        !(valid_dec(s) && unsigned_val(dec_body(s)) <= max),
{
    if valid_dec(s) && unsigned_val(dec_body(s)) <= max {
        let digits = u.take(k) + frac_part(u);
        lemma_int_len_chars(u);
        assert(frac_part(u) =~= u.skip(k + 1));
        assert(all_digits(digits)) by {
            assert(forall|j: int| 0 <= j < k ==> digits[j] == u.take(k)[j]);
            assert(forall|j: int|
                k <= j < digits.len() ==> digits[j] == #[trigger] frac_part(u)[j - k]);
            assert(forall|j: int|
                0 <= j < frac_part(u).len() ==> #[trigger] frac_part(u)[j] == u[j + k + 1]);
        }
        assert(u.take(k) + u.skip(k + 1).take(f) =~= digits.take(k + f));
        lemma_digits_val_prefix_le(digits, k + f);
        assert(false);
    }
}

/// Parses an unsigned integer string. Succeeds exactly on nonempty
/// all-digit strings whose value fits.
pub fn parse_u64_str(s: &str) -> (r: Option<u64>)
    ensures
        r is Some <==> s@.len() > 0 && all_digits(s@) && digits_val(s@) <= u64::MAX,
        r matches Some(v) ==> v as int == digits_val(s@),
        r == spec_u64_of(s@),
{
    let len = s.unicode_len();
    if len == 0 {
        return None;
    }
    let max: u64 = 18446744073709551615u64;
    let mut i: usize = 0;
    let mut acc: u64 = 0;
    assert(s@.take(0) =~= Seq::<char>::empty());
    while i < len
        invariant
            0 <= i <= len,
            len == s@.len(),
            max == u64::MAX,
            forall|j: int| 0 <= j < i ==> is_digit(#[trigger] s@[j]),
            acc as int == digits_val(s@.take(i as int)),
        decreases len - i,
    {
        let c = s.get_char(i);
        if !is_ascii_digit(c) {
            return None;
        }
        let d = (c as u32 - 48) as u64;
        proof {
            assert(s@.take(i + 1).drop_last() =~= s@.take(i as int));
            assert(s@.take(i + 1).last() == c);
        }
        if acc > (max - d) / 10 {
            proof {
                assert(acc * 10 + d > max) by (nonlinear_arith)
                    requires
                        acc > (max - d) / 10,
                        0 <= d <= 9,
                        max == u64::MAX,
                ;
                if all_digits(s@) && digits_val(s@) <= max {
                    lemma_digits_val_prefix_le(s@, i + 1);
                    assert(false);
                }
            }
            return None;
        }
        proof {
            assert(acc * 10 + d <= max) by (nonlinear_arith)
                requires
                    acc <= (max - d) / 10,
                    0 <= d <= max,
            ;
        }
        acc = acc * 10 + d;
        i = i + 1;
    }
    proof {
        assert(s@.take(len as int) =~= s@);
    }
    Some(acc)
}

/// The canonical base-ten rendering of an unsigned value.
pub open spec fn dec_digits(n: nat) -> Seq<char>
    decreases n,
{
    if n < 10 {
        seq![hex_digit_char(n as int)]
    } else {
        dec_digits(n / 10).push(hex_digit_char((n % 10) as int))
    }
}

/// Renders an unsigned value in base ten.
pub fn u64_to_string(n: u64) -> (r: String)
    ensures
        r@ == dec_digits(n as nat),
{
    let mut buf: Vec<char> = Vec::new();
    let mut m: u64 = n;
    while m >= 10
        invariant
            dec_digits(n as nat) == dec_digits(m as nat) + buf@.reverse(),
        decreases m,
    {
        let d = (m % 10) as u32;
        let ghost old_buf = buf@;
        buf.push(hex_digit(d));
        m = m / 10;
        proof {
            assert(buf@.reverse() =~= seq![hex_digit_char(d as int)] + old_buf.reverse());
            assert(dec_digits((m * 10 + d) as nat) == dec_digits(m as nat).push(
                hex_digit_char(d as int),
            ));
            assert(dec_digits(m as nat).push(hex_digit_char(d as int)) + old_buf.reverse()
                =~= dec_digits(m as nat) + buf@.reverse());
        }
    }
    let d = m as u32;
    let ghost old_buf = buf@;
    buf.push(hex_digit(d));
    proof {
        assert(buf@.reverse() =~= seq![hex_digit_char(d as int)] + old_buf.reverse());
        assert(dec_digits(m as nat) =~= seq![hex_digit_char(d as int)]);
        assert(dec_digits(n as nat) =~= buf@.reverse());
    }
    let mut out = String::new();
    let total = buf.len();
    let mut j: usize = total;
    while j > 0
        invariant
            0 <= j <= total,
            total == buf@.len(),
            out@ == buf@.subrange(j as int, total as int).reverse(),
        decreases j,
    {
        j = j - 1;
        let c = buf[j];
        push_char(&mut out, c);
        proof {
            assert(buf@.subrange(j as int, total as int).reverse() =~= buf@.subrange(
                j + 1,
                total as int,
            ).reverse().push(c));
        }
    }
    proof {
        assert(buf@.subrange(0, total as int) =~= buf@);
    }
    out
}

} // verus!
