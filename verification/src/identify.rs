//! Structured parsing of the raster engine's probe output: a line of
//! the form `<width> <height> [<x-density> [<unit-word>]]`, plus the
//! physical-size string the probe operation reports. The engine is
//! external; this parser is the verified boundary between its text
//! output and the rest of the system.

use vstd::prelude::*;
use vstd::string::StrSliceExecFns;
use vstd::string::StringExecFns;
use crate::dpi::Dpi;
use crate::dpi::ResolutionUnit;
use crate::dpi::DEFAULT_DPI;
use crate::numeric::spec_px_to_cm_tenths;
use crate::numeric::px_to_cm_tenths;
use crate::numeric::PX_MAX;
use crate::text::dec_digit;
use crate::text::spec_dec_rep;
use crate::text::push_dec_u128;

verus! {

pub open spec fn is_space(b: u8) -> bool {
    b == 0x20 || b == 0x09 || b == 0x0A || b == 0x0D
}

/// First non-whitespace position at or after `i`.
pub open spec fn skip_ws(s: Seq<u8>, i: int) -> int
    decreases s.len() - i,
{
    if i < 0 || i >= s.len() {
        s.len() as int
    } else if is_space(s[i]) {
        skip_ws(s, i + 1)
    } else {
        i
    }
}

/// First whitespace position at or after `i`.
pub open spec fn token_end(s: Seq<u8>, i: int) -> int
    decreases s.len() - i,
{
    if i < 0 || i >= s.len() {
        s.len() as int
    } else if !is_space(s[i]) {
        token_end(s, i + 1)
    } else {
        i
    }
}

fn skip_ws_exec(b: &[u8], i: usize) -> (r: usize)
    requires
        i <= b@.len(),
    ensures
        r == skip_ws(b@, i as int),
        i <= r <= b@.len(),
{
    let n = b.len();
    let mut p = i;
    while p < n && (b[p] == 0x20 || b[p] == 0x09 || b[p] == 0x0A || b[p] == 0x0D)
        invariant
            i <= p <= n,
            n == b@.len(),
            skip_ws(b@, i as int) == skip_ws(b@, p as int),
        decreases n - p,
    {
        p = p + 1;
    }
    p
}

fn token_end_exec(b: &[u8], i: usize) -> (r: usize)
    requires
        i <= b@.len(),
    ensures
        r == token_end(b@, i as int),
        i <= r <= b@.len(),
{
    let n = b.len();
    let mut p = i;
    while p < n && !(b[p] == 0x20 || b[p] == 0x09 || b[p] == 0x0A || b[p] == 0x0D)
        invariant
            i <= p <= n,
            n == b@.len(),
            token_end(b@, i as int) == token_end(b@, p as int),
        decreases n - p,
    {
        p = p + 1;
    }
    p
}

pub open spec fn is_digit(b: u8) -> bool {
    0x30 <= b <= 0x39
}

/// All bytes of `s[a..b)` are decimal digits.
pub open spec fn all_digits(s: Seq<u8>, a: int, b: int) -> bool {
    forall|j: int| a <= j < b ==> is_digit(#[trigger] s[j])
}

/// The value of the decimal digits `s[a..b)`, most significant
/// first.
pub open spec fn digits_value(s: Seq<u8>, a: int, b: int) -> int
    decreases b - a,
{
    if a >= b {
        0
    } else {
        digits_value(s, a, b - 1) * 10 + (s[b - 1] - 0x30)
    }
}

proof fn lemma_digits_value_bound(s: Seq<u8>, a: int, b: int, m: int)
    requires
        a <= b,
        all_digits(s, a, b),
        b - a <= m,
    ensures
        0 <= digits_value(s, a, b) < pow10(m),
    decreases b - a,
{
    lemma_pow10_pos(m);
    if a < b {
        lemma_digits_value_bound(s, a, b - 1, m - 1);
        assert(digits_value(s, a, b - 1) * 10 + (s[b - 1] - 0x30) < pow10(m)) by (nonlinear_arith)
            requires
                digits_value(s, a, b - 1) < pow10(m - 1),
                0 <= digits_value(s, a, b - 1),
                0 <= s[b - 1] - 0x30 <= 9,
                pow10(m) == 10 * pow10(m - 1),
        ;
    }
}

pub open spec fn pow10(i: int) -> int
    decreases i,
{
    if i <= 0 {
        1
    } else {
        10 * pow10(i - 1)
    }
}

proof fn lemma_pow10_pos(i: int)
    ensures
        pow10(i) >= 1,
        i >= 1 ==> pow10(i) == 10 * pow10(i - 1),
    decreases i,
{
    if i > 0 {
        lemma_pow10_pos(i - 1);
    }
}

proof fn lemma_pow10_le(i: int, j: int)
    requires
        i <= j,
    ensures
        pow10(i) <= pow10(j),
    decreases j - i,
{
    lemma_pow10_pos(i);
    if i < j {
        lemma_pow10_le(i, j - 1);
        lemma_pow10_pos(j);
    }
}

/// Parse the decimal digits `b[a..e)` into a number, at most 12
/// digits; `None` when empty, over-long, or holding a non-digit.
fn parse_digits(b: &[u8], a: usize, e: usize) -> (r: Option<u64>)
    requires
        a <= e <= b@.len(),
    ensures
        match r {
            Some(v) => all_digits(b@, a as int, e as int) && a < e && e - a <= 12 && v
                == digits_value(b@, a as int, e as int) && v < 1_000_000_000_000,
            None => !(all_digits(b@, a as int, e as int) && a < e && e - a <= 12),
        },
{
    if a == e || e - a > 12 {
        return None;
    }
    let mut v: u64 = 0;
    let mut j = a;
    while j < e
        invariant
            a <= j <= e <= b@.len(),
            e - a <= 12,
            all_digits(b@, a as int, j as int),
            v == digits_value(b@, a as int, j as int),
            v < 1_000_000_000_000,
        decreases e - j,
    {
        let c = b[j];
        if c < 0x30 || c > 0x39 {
            return None;
        }
        proof {
            lemma_digits_value_bound(b@, a as int, j + 1, 12);
            reveal_with_fuel(pow10, 13);
            assert(pow10(12) == 1_000_000_000_000);
        }
        v = v * 10 + ((c - 0x30) as u64);
        j = j + 1;
    }
    Some(v)
}

/// The resolution a density token denotes: `ip.fp` as an exact
/// rational, scaled by 254/100 when the unit is centimeters.
/// Fractions keep at most six digits and whole parts at most six, so
/// the rational stays well-formed; densities outside that range are
/// treated as absent, as is a zero density.
pub open spec fn density_rational(ip: int, fp: int, k: int, cm: bool) -> Dpi {
    let num = ip * pow10(k) + fp;
    let den = pow10(k);
    if cm {
        Dpi { num: (num * 254) as u64, den: (den * 100) as u64 }
    } else {
        Dpi { num: num as u64, den: den as u64 }
    }
}

/// A parsed probe line.
#[derive(Clone, Copy, PartialEq, Eq, Structural, Debug)]
pub struct ImageMeta {
    pub width_px: u64,
    pub height_px: u64,
    /// Normalized to pixels per inch; 300 when the engine reported
    /// nothing usable.
    pub dpi: Dpi,
    pub unit: ResolutionUnit,
}

/// First position of a dot in `s[a..e)`, or `e` when there is none.
pub open spec fn first_dot(s: Seq<u8>, a: int, e: int) -> int
    decreases e - a,
{
    if a < 0 || a >= e {
        e
    } else if s[a] == 0x2E {
        a
    } else {
        first_dot(s, a + 1, e)
    }
}

fn first_dot_exec(b: &[u8], a: usize, e: usize) -> (r: usize)
    requires
        a <= e <= b@.len(),
    ensures
        r == first_dot(b@, a as int, e as int),
        a <= r <= e,
{
    let mut p = a;
    while p < e && b[p] != 0x2E
        invariant
            a <= p <= e <= b@.len(),
            first_dot(b@, a as int, e as int) == first_dot(b@, p as int, e as int),
        decreases e - p,
    {
        p = p + 1;
    }
    p
}

/// The density token `s[a..e)` parsed as digits with an optional
/// fractional part, `Some((whole, fraction, fraction_width))`. At
/// most six digits on either side take part (the fraction is
/// truncated, longer whole parts are treated as absent), and an
/// all-zero density is absent: zero is not a valid resolution.
pub open spec fn spec_density(s: Seq<u8>, a: int, e: int) -> Option<(int, int, int)> {
    let dot = first_dot(s, a, e);
    if !(a < dot && dot - a <= 6 && all_digits(s, a, dot)) {
        None
    } else {
        let ip = digits_value(s, a, dot);
        if dot < e && dot + 1 < e {
            let fe = if e - (dot + 1) > 6 {
                dot + 7
            } else {
                e
            };
            if !all_digits(s, dot + 1, fe) {
                None
            } else {
                let fp = digits_value(s, dot + 1, fe);
                if ip == 0 && fp == 0 {
                    None
                } else {
                    Some((ip, fp, fe - (dot + 1)))
                }
            }
        } else {
            if ip == 0 {
                None
            } else {
                Some((ip, 0, 0))
            }
        }
    }
}

/// Parse the density token `b[a..e)` into its rational parts.
fn parse_density(b: &[u8], a: usize, e: usize) -> (r: Option<(u64, u64, usize)>)
    requires
        a <= e <= b@.len(),
    ensures
        match r {
            Some((ip, fp, k)) => spec_density(b@, a as int, e as int) == Some(
                (ip as int, fp as int, k as int),
            ) && ip < 1_000_000 && fp < pow10(k as int) && k <= 6 && ip + fp > 0,
            None => spec_density(b@, a as int, e as int) is None,
        },
{
    let dot = first_dot_exec(b, a, e);
    if dot - a > 6 {
        return None;
    }
    let ip = match parse_digits(b, a, dot) {
        Some(v) => v,
        None => {
            return None;
        },
    };
    proof {
        lemma_digits_value_bound(b@, a as int, dot as int, 6);
        reveal_with_fuel(pow10, 8);
        assert(pow10(6) == 1_000_000);
    }
    let (fp, k): (u64, usize) = if dot < e && dot + 1 < e {
        let fe = if e - (dot + 1) > 6 {
            dot + 7
        } else {
            e
        };
        match parse_digits(b, dot + 1, fe) {
            Some(v) => {
                proof {
                    lemma_digits_value_bound(b@, dot + 1, fe as int, fe - (dot + 1));
                }
                (v, fe - (dot + 1))
            },
            None => {
                return None;
            },
        }
    } else {
        (0, 0)
    };
    proof {
        lemma_pow10_le(k as int, 6);
    }
    if ip == 0 && fp == 0 {
        return None;
    }
    Some((ip, fp, k))
}

/// Whether the lowercased unit token contains the word
/// "centimeter".
pub open spec fn lower_byte(b: u8) -> u8 {
    if 0x41 <= b <= 0x5A {
        (b + 32) as u8
    } else {
        b
    }
}

pub open spec fn centimeter_word() -> Seq<u8> {
    seq![0x63, 0x65, 0x6E, 0x74, 0x69, 0x6D, 0x65, 0x74, 0x65, 0x72]
}

/// Whether the lowercasing of `s` matches `pat` at position `i`.
pub open spec fn matches_at(s: Seq<u8>, i: int, pat: Seq<u8>) -> bool {
    forall|j: int| 0 <= j < pat.len() ==> lower_byte(#[trigger] s[i + j]) == pat[j]
}

/// Whether `pat` occurs in the lowercasing of `s[a..e)`.
pub open spec fn contains_word(s: Seq<u8>, a: int, e: int, pat: Seq<u8>) -> bool {
    exists|i: int| a <= i && i + pat.len() <= e && #[trigger] matches_at(s, i, pat)
}

fn contains_word_exec(b: &[u8], a: usize, e: usize, pat: &[u8]) -> (r: bool)
    requires
        a <= e <= b@.len(),
        pat@.len() >= 1,
    ensures
        r == contains_word(b@, a as int, e as int, pat@),
{
    let plen = pat.len();
    if e - a < plen {
        proof {
            assert(!contains_word(b@, a as int, e as int, pat@));
        }
        return false;
    }
    let mut i = a;
    while plen <= e - i
        invariant
            a <= i,
            i <= e <= b@.len(),
            plen == pat@.len() >= 1,
            forall|i2: int| a <= i2 < i ==> !matches_at(b@, i2, pat@),
        decreases e - i,
    {
        let mut j: usize = 0;
        let mut ok = true;
        while j < plen
            invariant
                0 <= j <= plen,
                plen == pat@.len(),
                a <= i,
                i + plen <= e <= b@.len(),
                ok <==> (forall|j2: int|
                    0 <= j2 < j ==> lower_byte(#[trigger] b@[i + j2]) == pat@[j2]),
            decreases plen - j,
        {
            let c = b[i + j];
            let lc: u8 = if 0x41 <= c && c <= 0x5A {
                c + 32
            } else {
                c
            };
            if lc != pat[j] {
                proof {
                    assert(lower_byte(b@[i + j]) != pat@[j as int]);
                    assert(!matches_at(b@, i as int, pat@));
                }
                ok = false;
                j = plen;
            } else {
                j = j + 1;
            }
        }
        if ok {
            proof {
                assert(matches_at(b@, i as int, pat@));
                assert(contains_word(b@, a as int, e as int, pat@));
            }
            return true;
        }
        proof {
            assert(!matches_at(b@, i as int, pat@));
        }
        i = i + 1;
    }
    proof {
        assert forall|i2: int| a <= i2 && i2 + pat@.len() <= e implies !matches_at(
            b@,
            i2,
            pat@,
        ) by {
            assert(i2 < i);
        }
        assert(!contains_word(b@, a as int, e as int, pat@));
    }
    false
}

/// What parsing a probe line yields. The first two tokens must be
/// plain decimal pixel extents, else nothing is parsed. The third
/// token, when present and a usable decimal density, gives the
/// resolution, scaled by exactly 2.54 when the fourth token contains
/// the word "centimeter" in any case; otherwise the resolution falls
/// back to 300 pixels per inch. The reported unit is per-inch in
/// every case but a declared centimeter word: inches are the
/// canonical unit, and the fallback value is already inch-based.
pub open spec fn spec_parse_identify(s: Seq<u8>) -> Option<ImageMeta> {
    let a0 = skip_ws(s, 0);
    let e0 = token_end(s, a0);
    let a1 = skip_ws(s, e0);
    let e1 = token_end(s, a1);
    let a2 = skip_ws(s, e1);
    let e2 = token_end(s, a2);
    let a3 = skip_ws(s, e2);
    let e3 = token_end(s, a3);
    if !(a0 < e0 && e0 - a0 <= 12 && all_digits(s, a0, e0)) {
        None
    } else if !(a1 < e1 && e1 - a1 <= 12 && all_digits(s, a1, e1)) {
        None
    } else {
        let w = digits_value(s, a0, e0);
        let h = digits_value(s, a1, e1);
        match spec_density(s, a2, e2) {
            Some((ip, fp, k)) => {
                let cm = a3 < e3 && contains_word(s, a3, e3, centimeter_word());
                Some(
                    ImageMeta {
                        width_px: w as u64,
                        height_px: h as u64,
                        dpi: density_rational(ip, fp, k, cm),
                        unit: if cm {
                            ResolutionUnit::PerCentimeter
                        } else {
                            ResolutionUnit::PerInch
                        },
                    },
                )
            },
            None => Some(
                ImageMeta {
                    width_px: w as u64,
                    height_px: h as u64,
                    dpi: Dpi { num: DEFAULT_DPI as u64, den: 1 },
                    unit: ResolutionUnit::PerInch,
                },
            ),
        }
    }
}

/// Parse a probe line `<w> <h> [<density> [<unit>]]` into structured
/// metadata. `None` when the leading width and height are missing or
/// malformed; a missing or unusable density falls back to 300
/// pixels per inch.
pub fn parse_identify_line(b: &[u8]) -> (r: Option<ImageMeta>)
    ensures
        r == spec_parse_identify(b@),
        match r {
            Some(m) => m.dpi.wf() && m.width_px <= PX_MAX && m.height_px <= PX_MAX,
            None => true,
        },
{
    let n = b.len();
    let a0 = skip_ws_exec(b, 0);
    let e0 = token_end_exec(b, a0);
    let w = match parse_digits(b, a0, e0) {
        Some(v) => v,
        None => {
            return None;
        },
    };
    let a1 = skip_ws_exec(b, e0);
    let e1 = token_end_exec(b, a1);
    let h = match parse_digits(b, a1, e1) {
        Some(v) => v,
        None => {
            return None;
        },
    };
    let a2 = skip_ws_exec(b, e1);
    let e2 = token_end_exec(b, a2);
    let a3 = skip_ws_exec(b, e2);
    let e3 = token_end_exec(b, a3);

    let mut dpi = Dpi { num: DEFAULT_DPI, den: 1 };
    let mut unit = ResolutionUnit::PerInch;
    if a2 < e2 {
        match parse_density(b, a2, e2) {
            Some((ip, fp, k)) => {
                let mut num: u64 = ip;
                let mut den: u64 = 1;
                let mut kk = k;
                while kk > 0
                    invariant
                        den == pow10(k - kk),
                        kk <= k <= 6,
                        num == ip * pow10(k - kk),
                        ip < 1_000_000,
                        num < 1_000_000_000_000,
                        den <= 1_000_000,
                    decreases kk,
                {
                    proof {
                        lemma_pow10_pos(k - kk);
                        lemma_pow10_pos(k - kk + 1);
                        lemma_pow10_le(k - kk, 5);
                        lemma_pow10_le(k - kk + 1, 6);
                        reveal_with_fuel(pow10, 13);
                        assert(pow10(5) == 100_000);
                        assert(pow10(6) == 1_000_000);
                        assert(ip * pow10(k - kk + 1) == num * 10 && ip * pow10(k - kk + 1) < ip
                            * 1_000_000 + 1_000_000) by (nonlinear_arith)
                            requires
                                num == ip * pow10(k - kk),
                                pow10(k - kk + 1) == 10 * pow10(k - kk),
                                0 <= ip < 1_000_000,
                                1 <= pow10(k - kk) <= 100_000,
                                pow10(k - kk + 1) <= 1_000_000,
                        ;
                        assert(ip * 1_000_000 <= 1_000_000_000_000 - 1_000_000);
                    }
                    num = num * 10;
                    den = den * 10;
                    kk = kk - 1;
                }
                let num_full = num + fp;
                proof {
                    lemma_pow10_pos(k as int);
                    lemma_pow10_le(k as int, 6);
                    reveal_with_fuel(pow10, 8);
                    assert(pow10(6) == 1_000_000);
                    assert(ip * pow10(k as int) + fp > 0) by (nonlinear_arith)
                        requires
                            ip + fp > 0,
                            ip >= 0,
                            fp >= 0,
                            pow10(k as int) >= 1,
                    ;
                }
                let pat = centimeter_pattern();
                let cm = a3 < e3 && contains_word_exec(b, a3, e3, pat.as_slice());
                if cm {
                    dpi = Dpi { num: num_full * 254, den: den * 100 };
                    unit = ResolutionUnit::PerCentimeter;
                } else {
                    dpi = Dpi { num: num_full, den };
                }
            },
            None => {},
        }
    }
    Some(ImageMeta { width_px: w, height_px: h, dpi, unit })
}

/// The lowercase bytes of the word "centimeter".
fn centimeter_pattern() -> (r: Vec<u8>)
    ensures
        r@ == centimeter_word(),
{
    let mut v: Vec<u8> = Vec::new();
    v.push(0x63);
    v.push(0x65);
    v.push(0x6E);
    v.push(0x74);
    v.push(0x69);
    v.push(0x6D);
    v.push(0x65);
    v.push(0x74);
    v.push(0x65);
    v.push(0x72);
    proof {
        assert(v@ =~= centimeter_word());
    }
    v
}

/// Whether a bare density report (the engine asked for the density
/// alone) names a usable, nonzero resolution: its first token must
/// parse as a decimal density. Callers use this to decide whether a
/// file needs its resolution normalized before it ships.
pub open spec fn spec_density_usable(s: Seq<u8>) -> bool {
    let a = skip_ws(s, 0);
    let e = token_end(s, a);
    spec_density(s, a, e) is Some
}

pub fn density_usable(b: &[u8]) -> (r: bool)
    ensures
        r == spec_density_usable(b@),
{
    let a = skip_ws_exec(b, 0);
    let e = token_end_exec(b, a);
    parse_density(b, a, e).is_some()
}

/// The probe's size report: width and height in centimeters at one
/// decimal place, as `W.W x H.H cm`.
pub open spec fn spec_size_string(w: int, h: int, dpi: Dpi) -> Seq<char> {
    let tw = spec_px_to_cm_tenths(w, dpi);
    let th = spec_px_to_cm_tenths(h, dpi);
    spec_dec_rep(tw / 10) + seq!['.'] + seq![dec_digit(tw % 10)] + seq![' ', 'x', ' ']
        + spec_dec_rep(th / 10) + seq!['.'] + seq![dec_digit(th % 10)] + seq![' ', 'c', 'm']
}

/// Format the physical size of a `w` x `h` pixel image at the given
/// resolution.
pub fn format_size_cm(w: u64, h: u64, dpi: Dpi) -> (r: String)
    requires
        dpi.wf(),
        w <= PX_MAX,
        h <= PX_MAX,
    ensures
        r@ == spec_size_string(w as int, h as int, dpi),
{
    let tw = px_to_cm_tenths(w, dpi);
    let th = px_to_cm_tenths(h, dpi);
    let mut s = String::new();
    push_dec_u128(&mut s, tw / 10);
    s.append(".");
    push_dec_u128(&mut s, tw % 10);
    s.append(" x ");
    push_dec_u128(&mut s, th / 10);
    s.append(".");
    push_dec_u128(&mut s, th % 10);
    s.append(" cm");
    proof {
        reveal_strlit(".");
        reveal_strlit(" x ");
        reveal_strlit(" cm");
        assert(spec_dec_rep(tw as int % 10) =~= seq![dec_digit(tw as int % 10)]);
        assert(spec_dec_rep(th as int % 10) =~= seq![dec_digit(th as int % 10)]);
        assert(s@ =~= spec_size_string(w as int, h as int, dpi));
    }
    s
}

} // verus!
