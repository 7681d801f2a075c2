//! The watch interval: `<h>h<m>m<s>s` in any subset, or a bare number of
//! seconds, each number an unsigned decimal. Intervals are kept in
//! milliseconds; fraction digits past the sixth are ignored.
use vstd::prelude::*;
use vstd::string::*;
use crate::pattern::{Pattern, regex_captures, regex_compiles};

verus! {

/// The composite form: optional hours, minutes and seconds, in this order.
pub const DURATION_PATTERN: &'static str = r#"((\d*\.?\d*)[h|H])?((\d*\.?\d*)[m|M])?((\d*\.?\d*)[s|S])?"#;

pub const MILLIS_PER_HOUR: u64 = 3_600_000;
pub const MILLIS_PER_MINUTE: u64 = 60_000;
pub const MILLIS_PER_SECOND: u64 = 1_000;

/// Why a watch interval was refused.
#[derive(Clone, Copy, Debug, PartialEq, Eq, Structural)]
pub enum DurationError {
    /// Neither form reads a number.
    Invalid,
    /// The interval does not fit in 64 bits of milliseconds.
    TooLarge,
    /// The composite pattern did not compile.
    BadPattern,
}

pub open spec fn is_digit(x: u8) -> bool {
    48 <= x <= 57
}

pub open spec fn pow10(n: nat) -> nat
    decreases n,
{
    if n == 0 {
        1
    } else {
        10 * pow10((n - 1) as nat)
    }
}

/// The number that a run of decimal digits spells.
pub open spec fn digits_value(b: Seq<u8>) -> nat
    decreases b.len(),
{
    if b.len() == 0 {
        0
    } else {
        digits_value(b.drop_last()) * 10 + (b.last() - 48) as nat
    }
}

/// Where the first `.` stands, or the length when there is none.
pub open spec fn dot_position(b: Seq<u8>) -> int
    decreases b.len(),
{
    if b.len() == 0 {
        0
    } else {
        let d = dot_position(b.drop_last());
        if d < b.len() - 1 {
            d
        } else if b.last() == 46 {
            b.len() - 1
        } else {
            b.len() as int
        }
    }
}

/// Digits with at most one `.` among them, and at least one digit.
pub open spec fn is_decimal(b: Seq<u8>) -> bool {
    let k = dot_position(b);
    &&& forall|i: int| 0 <= i < b.len() && i != k ==> is_digit(#[trigger] b[i])
    &&& b.len() > (if k < b.len() { 1int } else { 0int })
}

/// The fraction digits as millionths: the first six, padded with zeros.
pub open spec fn fraction_micros(f: Seq<u8>) -> nat {
    if f.len() >= 6 {
        digits_value(f.take(6))
    } else {
        digits_value(f) * pow10((6 - f.len()) as nat)
    }
}

/// A decimal number of `unit` milliseconds, in milliseconds, rounded down at
/// the sixth fraction digit; `None` when `b` is no decimal.
pub open spec fn text_millis(b: Seq<u8>, unit: nat) -> Option<nat> {
    if is_decimal(b) {
        let k = dot_position(b);
        let f = if k < b.len() { b.skip(k + 1) } else { Seq::<u8>::empty() };
        Some(digits_value(b.take(k)) * unit + fraction_micros(f) * unit / 1_000_000)
    } else {
        None
    }
}

/// Group `k` of a match, or `None` when there is no such group.
pub open spec fn group(c: Seq<Option<(usize, usize)>>, k: int) -> Option<(usize, usize)> {
    if 0 <= k < c.len() {
        c[k]
    } else {
        None
    }
}

/// The milliseconds of a group: 0 when it did not take part or reads no number.
pub open spec fn span_millis(src: Seq<u8>, g: Option<(usize, usize)>, unit: nat) -> nat {
    match g {
        Some(s) => if s.0 <= s.1 <= src.len() {
            match text_millis(src.subrange(s.0 as int, s.1 as int), unit) {
                Some(v) => v,
                None => 0,
            }
        } else {
            0
        },
        None => 0,
    }
}

/// The interval that `src` gives: the composite form when it reads a
/// non-zero interval, otherwise `src` read whole as seconds.
pub open spec fn watch_millis_spec(src: Seq<u8>, caps: Option<Seq<Option<(usize, usize)>>>) -> Option<nat> {
    let composite = match caps {
        Some(c) => span_millis(src, group(c, 2), MILLIS_PER_HOUR as nat) + span_millis(
            src,
            group(c, 4),
            MILLIS_PER_MINUTE as nat,
        ) + span_millis(src, group(c, 6), MILLIS_PER_SECOND as nat),
        None => 0,
    };
    if composite != 0 {
        Some(composite)
    } else {
        text_millis(src, MILLIS_PER_SECOND as nat)
    }
}

/// The result of reading a number.
pub enum Reading {
    NotDecimal,
    Millis(u64),
    TooLarge,
}

pub open spec fn reading_of(v: Option<nat>) -> Reading {
    match v {
        None => Reading::NotDecimal,
        Some(n) => if n <= u64::MAX {
            Reading::Millis(n as u64)
        } else {
            Reading::TooLarge
        },
    }
}

proof fn lemma_pow10_six()
    ensures
        pow10(6) == 1_000_000,
{
    reveal_with_fuel(pow10, 7);
}

proof fn lemma_digits_bound(b: Seq<u8>)
    requires
        forall|i: int| 0 <= i < b.len() ==> is_digit(#[trigger] b[i]),
    ensures
        digits_value(b) < pow10(b.len()),
    decreases b.len(),
{
    if b.len() > 0 {
        lemma_digits_bound(b.drop_last());
        let v = digits_value(b.drop_last());
        let p = pow10(b.drop_last().len());
        assert(b.last() == b[b.len() - 1]);
        assert(v * 10 + 9 < 10 * p) by (nonlinear_arith)
            requires
                v < p,
        ;
    }
}

proof fn lemma_digits_grow(b: Seq<u8>, j: int)
    requires
        0 <= j <= b.len(),
    ensures
        digits_value(b.take(j)) <= digits_value(b),
    decreases b.len() - j,
{
    if j < b.len() {
        lemma_digits_grow(b, j + 1);
        assert(b.take(j + 1).drop_last() =~= b.take(j));
    } else {
        assert(b.take(j) =~= b);
    }
}

proof fn lemma_dot_position(b: Seq<u8>)
    ensures
        0 <= dot_position(b) <= b.len(),
        forall|i: int| 0 <= i < dot_position(b) ==> #[trigger] b[i] != 46,
        dot_position(b) < b.len() ==> b[dot_position(b)] == 46,
    decreases b.len(),
{
    if b.len() > 0 {
        lemma_dot_position(b.drop_last());
        assert forall|i: int| 0 <= i < dot_position(b) implies #[trigger] b[i] != 46 by {
            if i < b.len() - 1 {
                assert(b[i] == b.drop_last()[i]);
            }
        }
    }
}

proof fn lemma_dot_prefix(t: Seq<u8>, m: int)
    requires
        0 <= m <= t.len(),
    ensures
        dot_position(t.take(m)) < m ==> dot_position(t) == dot_position(t.take(m)),
        dot_position(t.take(m)) >= m ==> dot_position(t) >= m,
    decreases t.len() - m,
{
    if m == t.len() {
        assert(t.take(m) =~= t);
    } else {
        lemma_dot_prefix(t, m + 1);
        assert(t.take(m + 1).drop_last() =~= t.take(m));
        lemma_dot_position(t.take(m));
    }
}

proof fn lemma_pow10_mono(a: nat, b: nat)
    requires
        a <= b,
    ensures
        pow10(a) <= pow10(b),
    decreases b,
{
    if a < b {
        lemma_pow10_mono(a, (b - 1) as nat);
    }
}

/// The first dot of `b[from..to]` as an offset from `from` (the length when
/// there is none), or `None` when some other byte is no digit.
fn find_dot(b: &[u8], from: usize, to: usize) -> (r: Option<usize>)
    requires
        from <= to <= b@.len(),
    ensures
        ({
            let t = b@.subrange(from as int, to as int);
            let k = dot_position(t);
            let shaped = forall|i: int| 0 <= i < t.len() && i != k ==> is_digit(#[trigger] t[i]);
            &&& r is Some <==> shaped
            &&& r matches Some(d) ==> d == k
        }),
{
    let ghost t = b@.subrange(from as int, to as int);
    let len: usize = to - from;
    let mut n: usize = 0;
    let mut dp: usize = 0;
    while n < len
        invariant
            len == to - from,
            from <= to <= b@.len(),
            t == b@.subrange(from as int, to as int),
            n <= len,
            dp == dot_position(t.take(n as int)),
            forall|q: int| 0 <= q < n && q != dp ==> is_digit(#[trigger] t[q]),
        decreases len - n,
    {
        let x = b[from + n];
        proof {
            assert(t[n as int] == x);
            assert(t.take(n + 1).drop_last() =~= t.take(n as int));
            lemma_dot_position(t.take(n as int));
            lemma_dot_position(t.take(n + 1));
        }
        let digit = 48 <= x && x <= 57;
        if dp < n {
            if !digit {
                proof {
                    lemma_dot_prefix(t, n + 1);
                }
                return None;
            }
        } else if x != 46 {
            if !digit {
                proof {
                    lemma_dot_prefix(t, n + 1);
                }
                return None;
            }
            dp = n + 1;
        }
        n += 1;
    }
    proof {
        assert(t.take(n as int) =~= t);
    }
    Some(dp)
}

/// Reads `b[from..to]` as a decimal number of `unit` milliseconds.
fn read_decimal(b: &[u8], from: usize, to: usize, unit: u64) -> (r: Reading)
    requires
        from <= to <= b@.len(),
        1 <= unit <= MILLIS_PER_HOUR,
    ensures
        r == reading_of(text_millis(b@.subrange(from as int, to as int), unit as nat)),
{
    let ghost t = b@.subrange(from as int, to as int);
    let dp = match find_dot(b, from, to) {
        None => return Reading::NotDecimal,
        Some(d) => d,
    };
    proof {
        lemma_dot_position(t);
    }
    let len: usize = to - from;
    let digits: usize = if dp < len { len - 1 } else { len };
    if digits == 0 {
        return Reading::NotDecimal;
    }
    // Whole part.
    let ghost w = t.take(dp as int);
    let mut whole: u64 = 0;
    let mut j: usize = 0;
    while j < dp
        invariant
            from <= to <= b@.len(),
            len == to - from,
            dp <= len,
            1 <= unit <= MILLIS_PER_HOUR,
            t == b@.subrange(from as int, to as int),
            w == t.take(dp as int),
            dp == dot_position(t),
            forall|i: int| 0 <= i < t.len() && i != dp ==> is_digit(#[trigger] t[i]),
            j <= dp,
            whole == digits_value(w.take(j as int)),
        decreases dp - j,
    {
        proof {
            assert(t[j as int] == b@[from + j]);
            assert(is_digit(t[j as int]));
        }
        let d = (b[from + j] - 48) as u64;
        proof {
            assert(w.take(j + 1).drop_last() =~= w.take(j as int));
            assert(w[j as int] == b@[from + j]);
        }
        if whole > (u64::MAX - d) / 10 {
            proof {
                lemma_digits_grow(w, j + 1);
                assert(digits_value(w.take(j + 1)) == whole * 10 + d);
                assert(whole * 10 + d > u64::MAX) by (nonlinear_arith)
                    requires
                        whole > (u64::MAX - d) / 10,
                        d <= 9,
                ;
                assert(t.take(dot_position(t)) == w);
                assert(digits_value(w) * unit >= digits_value(w)) by (nonlinear_arith)
                    requires
                        unit >= 1,
                ;
            }
            return Reading::TooLarge;
        }
        whole = whole * 10 + d;
        j += 1;
    }
    proof {
        assert(w.take(dp as int) =~= w);
    }
    // Fraction: the first six digits, padded with zeros.
    let ghost f = if dp < len { t.skip(dp + 1) } else { Seq::<u8>::empty() };
    let frac_start: usize = if dp < len { dp + 1 } else { len };
    let flen: usize = len - frac_start;
    let take: usize = if flen < 6 { flen } else { 6 };
    let mut micros: u64 = 0;
    let mut c: usize = 0;
    proof {
        lemma_pow10_six();
        assert forall|q: int| 0 <= q < f.len() implies is_digit(#[trigger] f[q]) && f[q] == b@[from + frac_start + q] by {
            assert(f[q] == t[frac_start + q]);
        }
    }
    while c < take
        invariant
            from <= to <= b@.len(),
            len == to - from,
            c <= take <= 6,
            take <= flen,
            frac_start + flen == len,
            f.len() == flen,
            forall|q: int| 0 <= q < f.len() ==> is_digit(#[trigger] f[q]) && f[q] == b@[from + frac_start + q],
            micros == digits_value(f.take(c as int)),
            micros < pow10(c as nat),
            pow10(6) == 1_000_000,
        decreases take - c,
    {
        proof {
            assert(is_digit(f[c as int]));
        }
        let d = (b[from + frac_start + c] - 48) as u64;
        proof {
            assert(f.take(c + 1).drop_last() =~= f.take(c as int));
            lemma_pow10_mono((c + 1) as nat, 6);
            assert(micros * 10 + d < 10 * pow10(c as nat)) by (nonlinear_arith)
                requires
                    micros < pow10(c as nat),
                    d <= 9,
            ;
        }
        micros = micros * 10 + d;
        c += 1;
    }
    let mut p: usize = c;
    proof {
        assert(pow10(0) == 1);
        assert(digits_value(f.take(c as int)) * pow10(0) == digits_value(f.take(c as int)));
        assert((p - c) as nat == 0);
    }
    while p < 6
        invariant
            c == take,
            c <= p <= 6,
            micros == digits_value(f.take(c as int)) * pow10((p - c) as nat),
            micros < pow10(p as nat),
            pow10(6) == 1_000_000,
        decreases 6 - p,
    {
        proof {
            assert(pow10((p + 1 - c) as nat) == 10 * pow10((p - c) as nat));
            assert(digits_value(f.take(c as int)) * (10 * pow10((p - c) as nat)) == 10 * (digits_value(
                f.take(c as int),
            ) * pow10((p - c) as nat))) by (nonlinear_arith);
            lemma_pow10_mono((p + 1) as nat, 6);
        }
        micros = micros * 10;
        p += 1;
    }
    proof {
        if flen >= 6 {
            assert(pow10(0) == 1);
        } else {
            assert(f.take(c as int) =~= f);
        }
        assert(micros * unit <= 1_000_000 * MILLIS_PER_HOUR) by (nonlinear_arith)
            requires
                micros < 1_000_000,
                unit <= MILLIS_PER_HOUR,
        ;
    }
    proof {
        assert(is_decimal(t));
        assert(fraction_micros(f) == micros);
        assert(digits_value(t.take(dot_position(t))) == whole);
        let sf = if dot_position(t) < t.len() { t.skip(dot_position(t) + 1) } else { Seq::<u8>::empty() };
        assert(sf == f);
    }
    let part: u64 = micros * unit / 1_000_000;
    let limit: u64 = (u64::MAX - part) / unit;
    if whole > limit {
        proof {
            assert(whole * unit + part > u64::MAX) by (nonlinear_arith)
                requires
                    whole > limit,
                    limit == (u64::MAX - part) as int / unit as int,
                    unit >= 1,
            ;
        }
        return Reading::TooLarge;
    }
    proof {
        assert(whole * unit + part <= u64::MAX) by (nonlinear_arith)
            requires
                whole <= limit,
                limit == (u64::MAX - part) as int / unit as int,
                unit >= 1,
        ;
    }
    Reading::Millis(whole * unit + part)
}

/// What reading an interval gives: refused when no number is read, or when
/// it does not fit in 64 bits of milliseconds.
pub open spec fn duration_result(v: Option<nat>) -> Result<u64, DurationError> {
    match v {
        None => Err(DurationError::Invalid),
        Some(n) => if n <= u64::MAX {
            Ok(n as u64)
        } else {
            Err(DurationError::TooLarge)
        },
    }
}

/// The milliseconds of one group of the composite form; `None` when they do
/// not fit in 64 bits.
fn span_reading(b: &[u8], g: Option<(usize, usize)>, unit: u64) -> (r: Option<u64>)
    requires
        1 <= unit <= MILLIS_PER_HOUR,
    ensures
        match r {
            Some(v) => v == span_millis(b@, g, unit as nat),
            None => span_millis(b@, g, unit as nat) > u64::MAX,
        },
{
    match g {
        None => Some(0),
        Some(s) => {
            if s.0 <= s.1 && s.1 <= b.len() {
                match read_decimal(b, s.0, s.1, unit) {
                    Reading::NotDecimal => Some(0),
                    Reading::Millis(v) => Some(v),
                    Reading::TooLarge => None,
                }
            } else {
                Some(0)
            }
        },
    }
}

fn group_of(c: &Vec<Option<(usize, usize)>>, k: usize) -> (r: Option<(usize, usize)>)
    ensures
        r == group(c@, k as int),
{
    if k < c.len() {
        c[k]
    } else {
        None
    }
}

/// Reads a watch interval in milliseconds: `<h>h<m>m<s>s`, any part left
/// out, when that reads a non-zero interval; otherwise the whole text as a
/// number of seconds. `0` turns watching off.
pub fn parse_watch_duration(src: &str) -> (r: Result<u64, DurationError>)
    ensures
        !regex_compiles(DURATION_PATTERN@) ==> r == Err::<u64, DurationError>(DurationError::BadPattern),
        regex_compiles(DURATION_PATTERN@) ==> r == duration_result(
            watch_millis_spec(src.spec_bytes(), regex_captures(DURATION_PATTERN@, src.spec_bytes())),
        ),
{
    let pattern = match Pattern::new(DURATION_PATTERN) {
        Ok(p) => p,
        Err(_) => return Err(DurationError::BadPattern),
    };
    let b = src.as_bytes();
    let caps = pattern.captures(src);
    proof {
        assert(b@.subrange(0, b@.len() as int) =~= b@);
    }
    let composite: Option<u64> = match &caps {
        None => Some(0),
        Some(c) => {
            let h = span_reading(b, group_of(c, 2), MILLIS_PER_HOUR);
            let m = span_reading(b, group_of(c, 4), MILLIS_PER_MINUTE);
            let s = span_reading(b, group_of(c, 6), MILLIS_PER_SECOND);
            match (h, m, s) {
                (Some(h), Some(m), Some(s)) => {
                    if h <= u64::MAX - m && h + m <= u64::MAX - s {
                        Some(h + m + s)
                    } else {
                        None
                    }
                },
                _ => None,
            }
        },
    };
    match composite {
        None => Err(DurationError::TooLarge),
        Some(total) => {
            if total != 0 {
                Ok(total)
            } else {
                match read_decimal(b, 0, b.len(), MILLIS_PER_SECOND) {
                    Reading::NotDecimal => Err(DurationError::Invalid),
                    Reading::Millis(v) => Ok(v),
                    Reading::TooLarge => Err(DurationError::TooLarge),
                }
            }
        },
    }
}

} // verus!
