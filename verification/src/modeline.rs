//! Parsing of custom modelines, as `xorg.conf` writes them: ten numeric
//! fields and two sync polarities, separated by ASCII whitespace. The pixel
//! clock is a decimal number of megahertz with up to three fractional
//! digits; it is held in kilohertz, exactly.

use vstd::prelude::*;
use vstd::string::StringSliceAdditionalSpecFns;

verus! {

/// A custom modeline.
#[derive(Clone, Copy, Debug, PartialEq, Eq, Hash, Default, Structural)]
pub struct Modeline {
    /// Pixel clock in kilohertz.
    pub clock_khz: u32,
    pub hdisplay: u32,
    pub hsync_start: u32,
    pub hsync_end: u32,
    pub htotal: u32,
    pub vdisplay: u32,
    pub vsync_start: u32,
    pub vsync_end: u32,
    pub vtotal: u32,
    /// Positive horizontal sync polarity.
    pub hsync: bool,
    /// Positive vertical sync polarity.
    pub vsync: bool,
}

/// Which part of a modeline failed to parse: each field can be missing or
/// malformed.
#[derive(Clone, Copy, Debug, PartialEq, Eq, Structural)]
pub enum ParseModelineErrorKind {
    NoClock,
    InvalidClock,
    NoHdisplay,
    InvalidHdisplay,
    NoHsyncStart,
    InvalidHsyncStart,
    NoHsyncEnd,
    InvalidHsyncEnd,
    NoHtotal,
    InvalidHtotal,
    NoVdisplay,
    InvalidVdisplay,
    NoVsyncStart,
    InvalidVsyncStart,
    NoVsyncEnd,
    InvalidVsyncEnd,
    NoVtotal,
    InvalidVtotal,
    NoHsync,
    InvalidHsync,
    NoVsync,
    InvalidVsync,
}

/// Why a modeline failed to parse.
#[derive(Clone, Copy, Debug, PartialEq, Eq, Structural)]
pub struct ParseModelineError(pub ParseModelineErrorKind);

/// ASCII whitespace, as the tokenizer splits on it.
pub open spec fn is_space(b: u8) -> bool {
    b == 32 || b == 9 || b == 10 || b == 11 || b == 12 || b == 13
}

/// An ASCII decimal digit.
pub open spec fn is_digit(b: u8) -> bool {
    48 <= b <= 57
}

/// The length of the leading run of non-whitespace bytes.
pub open spec fn spec_token_len(s: Seq<u8>) -> int
    decreases s.len(),
{
    if s.len() == 0 || is_space(s.first()) {
        0
    } else {
        1 + spec_token_len(s.drop_first())
    }
}

/// The leading non-whitespace run is never longer than the input.
pub proof fn lemma_token_len_bounds(s: Seq<u8>)
    ensures
        0 <= spec_token_len(s) <= s.len(),
    decreases s.len(),
{
    if s.len() > 0 && !is_space(s.first()) {
        lemma_token_len_bounds(s.drop_first());
    }
}

/// The maximal whitespace-separated tokens of `s`, in order.
pub open spec fn spec_tokens(s: Seq<u8>) -> Seq<Seq<u8>>
    decreases s.len() via spec_tokens_decreases
{
    if s.len() == 0 {
        Seq::empty()
    } else if is_space(s.first()) {
        spec_tokens(s.drop_first())
    } else {
        let t = spec_token_len(s);
        seq![s.take(t)] + spec_tokens(s.skip(t))
    }
}

#[via_fn]
proof fn spec_tokens_decreases(s: Seq<u8>) {
    if s.len() > 0 && !is_space(s.first()) {
        lemma_token_len_bounds(s);
        lemma_token_len_bounds(s.drop_first());
        assert(spec_token_len(s) >= 1);
    }
}

/// Splits a byte string on ASCII whitespace into its maximal tokens.
pub fn tokenize(s: &[u8]) -> (r: Vec<Vec<u8>>)
    ensures
        r@.map_values(|t: Vec<u8>| t@) == spec_tokens(s@),
{
    let n = s.len();
    let mut r: Vec<Vec<u8>> = Vec::new();
    let mut i: usize = 0;
    proof {
        assert(s@.skip(0) =~= s@);
        assert(r@.map_values(|t: Vec<u8>| t@) =~= Seq::<Seq<u8>>::empty());
    }
    while i < n
        invariant
            i <= n,
            n == s@.len(),
            spec_tokens(s@) == r@.map_values(|t: Vec<u8>| t@) + spec_tokens(s@.skip(i as int)),
        decreases n - i,
    {
        if is_space_byte(s[i]) {
            proof {
                assert(s@.skip(i as int).first() == s@[i as int]);
                assert(s@.skip(i as int).drop_first() =~= s@.skip(i as int + 1));
            }
            i = i + 1;
        } else {
            // scan the token
            let start = i;
            let mut tok: Vec<u8> = Vec::new();
            while i < n && !is_space_byte(s[i])
                invariant
                    start <= i <= n,
                    n == s@.len(),
                    tok@ =~= s@.subrange(start as int, i as int),
                    forall|k: int| start <= k < i ==> !is_space(#[trigger] s@[k]),
                decreases n - i,
            {
                tok.push(s[i]);
                proof {
                    assert(s@.subrange(start as int, i as int + 1) =~= s@.subrange(
                        start as int,
                        i as int,
                    ).push(s@[i as int]));
                }
                i = i + 1;
            }
            proof {
                let rem = s@.skip(start as int);
                lemma_token_len_run(rem, i - start as int);
                assert(rem.take(i - start as int) =~= s@.subrange(start as int, i as int));
                assert(rem.skip(i - start as int) =~= s@.skip(i as int));
            }
            let ghost prev = r@;
            r.push(tok);
            proof {
                let f = |t: Vec<u8>| t@;
                assert(r@.map_values(f) =~= prev.map_values(f).push(tok@));
                assert(spec_tokens(s@) =~= prev.map_values(f) + (seq![tok@] + spec_tokens(
                    s@.skip(i as int),
                )));
                assert(prev.map_values(f) + (seq![tok@] + spec_tokens(s@.skip(i as int)))
                    =~= prev.map_values(f).push(tok@) + spec_tokens(s@.skip(i as int)));
            }
        }
    }
    proof {
        assert(s@.skip(n as int) =~= Seq::<u8>::empty());
        assert(r@.map_values(|t: Vec<u8>| t@) + spec_tokens(s@.skip(n as int)) =~= r@.map_values(
            |t: Vec<u8>| t@,
        ));
    }
    r
}

/// A sequence whose first `t` bytes are non-whitespace, bounded by a
/// whitespace byte or the end, has token length exactly `t`.
proof fn lemma_token_len_run(s: Seq<u8>, t: int)
    requires
        0 <= t <= s.len(),
        forall|k: int| 0 <= k < t ==> !is_space(#[trigger] s[k]),
        t < s.len() ==> is_space(s[t]),
    ensures
        spec_token_len(s) == t,
    decreases t,
{
    if t == 0 {
    } else {
        assert(!is_space(s.first()));
        lemma_token_len_run(s.drop_first(), t - 1);
    }
}

/// Exec test for [`is_space`].
fn is_space_byte(b: u8) -> (r: bool)
    ensures
        r == is_space(b),
{
    b == 32 || b == 9 || b == 10 || b == 11 || b == 12 || b == 13
}

/// The value of a digit string, most significant first.
pub open spec fn spec_digits_val(t: Seq<u8>) -> int
    decreases t.len(),
{
    if t.len() == 0 {
        0
    } else {
        spec_digits_val(t.drop_last()) * 10 + (t.last() - 48)
    }
}

/// Every byte is a digit.
pub open spec fn all_digits(t: Seq<u8>) -> bool {
    forall|k: int| 0 <= k < t.len() ==> is_digit(#[trigger] t[k])
}

/// A token parses as an unsigned number iff it is a non-empty digit string
/// whose value fits.
pub open spec fn spec_parse_u32(t: Seq<u8>) -> Option<u32> {
    if t.len() > 0 && all_digits(t) && spec_digits_val(t) <= u32::MAX {
        Some(spec_digits_val(t) as u32)
    } else {
        None
    }
}

/// Digit-string values are never negative.
pub proof fn lemma_digits_val_nonneg(t: Seq<u8>)
    requires
        all_digits(t),
    ensures
        spec_digits_val(t) >= 0,
    decreases t.len(),
{
    if t.len() > 0 {
        assert(all_digits(t.drop_last())) by {
            assert(forall|k: int|
                0 <= k < t.len() - 1 ==> #[trigger] t.drop_last()[k] == t[k]);
        }
        lemma_digits_val_nonneg(t.drop_last());
    }
}

/// A digit string's value only grows as digits are appended.
pub proof fn lemma_digits_val_prefix(t: Seq<u8>, m: int)
    requires
        all_digits(t),
        0 <= m <= t.len(),
    ensures
        spec_digits_val(t.take(m)) <= spec_digits_val(t),
    decreases t.len() - m,
{
    if m == t.len() {
        assert(t.take(m) =~= t);
    } else {
        lemma_digits_val_prefix(t, m + 1);
        assert(t.take(m + 1).drop_last() =~= t.take(m));
        assert(all_digits(t.take(m))) by {
            assert(forall|k: int| 0 <= k < m ==> #[trigger] t.take(m)[k] == t[k]);
        }
        lemma_digits_val_nonneg(t.take(m));
        let v = spec_digits_val(t.take(m));
        assert(t.take(m + 1).last() == t[m]);
        assert(is_digit(t[m]));
        assert(spec_digits_val(t.take(m + 1)) == v * 10 + (t[m] - 48));
        assert(v * 10 >= v) by (nonlinear_arith)
            requires
                v >= 0,
        ;
        assert(spec_digits_val(t.take(m + 1)) >= v);
    }
}


/// Parses a decimal digit string; exact per [`spec_parse_u32`].
pub fn parse_u32(t: &Vec<u8>) -> (r: Option<u32>)
    ensures
        r == spec_parse_u32(t@),
{
    if t.len() == 0 {
        return None;
    }
    let mut val: u32 = 0;
    let mut i: usize = 0;
    while i < t.len()
        invariant
            i <= t@.len(),
            all_digits(t@.take(i as int)),
            val == spec_digits_val(t@.take(i as int)),
        decreases t@.len() - i,
    {
        let b = t[i];
        if b < 48 || b > 57 {
            proof {
                assert(!all_digits(t@)) by {
                    assert(0 <= i < t@.len() && !is_digit(t@[i as int]));
                }
            }
            return None;
        }
        let d = (b - 48) as u32;
        proof {
            assert(t@.take(i as int + 1).drop_last() =~= t@.take(i as int));
            assert(t@.take(i as int + 1).last() == t@[i as int]);
            assert(forall|k: int|
                0 <= k < i + 1 ==> is_digit(#[trigger] t@.take(i as int + 1)[k]));
        }
        if val > (u32::MAX - d) / 10 {
            // the value of the whole string can only be larger
            proof {
                assert(val * 10 + d > u32::MAX) by (nonlinear_arith)
                    requires
                        val > (u32::MAX - d) / 10,
                        0 <= d <= 9,
                        val >= 0,
                ;
                assert(spec_digits_val(t@.take(i as int + 1)) > u32::MAX);
                if all_digits(t@) {
                    lemma_digits_val_prefix(t@, i as int + 1);
                }
            }
            return None;
        }
        proof {
            assert(val * 10 + d <= u32::MAX) by (nonlinear_arith)
                requires
                    val <= (u32::MAX - d) / 10,
                    0 <= d <= 9,
                    val >= 0,
            ;
        }
        val = val * 10 + d;
        i = i + 1;
    }
    proof {
        assert(t@.take(t@.len() as int) =~= t@);
    }
    Some(val)
}

/// The index of the first dot in a token, or its length if none occurs.
pub open spec fn spec_dot_idx(t: Seq<u8>) -> int
    decreases t.len(),
{
    if t.len() == 0 {
        0
    } else if t.first() == 46 {
        0
    } else {
        1 + spec_dot_idx(t.drop_first())
    }
}

/// The dot index is within bounds, the bytes before it are not dots, and
/// it points at a dot unless no dot occurs.
pub proof fn lemma_dot_idx(t: Seq<u8>)
    ensures
        0 <= spec_dot_idx(t) <= t.len(),
        spec_dot_idx(t) < t.len() ==> t[spec_dot_idx(t)] == 46,
        forall|k: int| 0 <= k < spec_dot_idx(t) ==> #[trigger] t[k] != 46,
    decreases t.len(),
{
    if t.len() > 0 && t.first() != 46 {
        lemma_dot_idx(t.drop_first());
        assert(forall|k: int|
            1 <= k < spec_dot_idx(t) ==> #[trigger] t[k] == t.drop_first()[k - 1]);
    }
}

/// The first three fractional digits, padded with zeros to thousandths.
pub open spec fn spec_frac_thousandths(frac: Seq<u8>) -> int {
    if frac.len() >= 3 {
        spec_digits_val(frac.take(3))
    } else if frac.len() == 2 {
        spec_digits_val(frac) * 10
    } else if frac.len() == 1 {
        spec_digits_val(frac) * 100
    } else {
        0
    }
}

/// A clock token parses as kilohertz iff it is a non-empty digit string,
/// optionally followed by a dot and further digits; fractional megahertz
/// digits beyond the third are accepted and ignored.
pub open spec fn spec_parse_clock_khz(t: Seq<u8>) -> Option<u32> {
    let d = spec_dot_idx(t);
    let intpart = t.take(d);
    let frac = if d < t.len() {
        t.skip(d + 1)
    } else {
        Seq::empty()
    };
    if intpart.len() > 0 && all_digits(intpart) && all_digits(frac) && spec_digits_val(intpart)
        * 1000 + spec_frac_thousandths(frac) <= u32::MAX {
        Some((spec_digits_val(intpart) * 1000 + spec_frac_thousandths(frac)) as u32)
    } else {
        None
    }
}

/// Parses the pixel clock token into kilohertz; exact per
/// [`spec_parse_clock_khz`].
pub fn parse_clock_khz(t: &Vec<u8>) -> (r: Option<u32>)
    ensures
        r == spec_parse_clock_khz(t@),
{
    // find the dot
    let n = t.len();
    let mut d: usize = 0;
    while d < n && t[d] != 46
        invariant
            d <= n,
            n == t@.len(),
            forall|k: int| 0 <= k < d ==> #[trigger] t@[k] != 46,
        decreases n - d,
    {
        d = d + 1;
    }
    proof {
        lemma_dot_idx(t@);
        lemma_dot_run(t@, d as int);
    }
    // integer part
    let mut intval: u32 = 0;
    let mut i: usize = 0;
    if d == 0 {
        proof {
            assert(t@.take(0).len() == 0);
        }
        return None;
    }
    while i < d
        invariant
            i <= d <= n,
            0 < d,
            n == t@.len(),
            spec_dot_idx(t@) == d as int,
            all_digits(t@.take(d as int).take(i as int)),
            intval == spec_digits_val(t@.take(d as int).take(i as int)),
        decreases d - i,
    {
        let b = t[i];
        if b < 48 || b > 57 {
            proof {
                assert(!all_digits(t@.take(d as int))) by {
                    assert(t@.take(d as int)[i as int] == t@[i as int]);
                    assert(0 <= i < d && !is_digit(t@.take(d as int)[i as int]));
                }
            }
            return None;
        }
        let dv = (b - 48) as u32;
        proof {
            let ip = t@.take(d as int);
            assert(ip.take(i as int + 1).drop_last() =~= ip.take(i as int));
            assert(ip.take(i as int + 1).last() == ip[i as int]);
            assert(ip[i as int] == t@[i as int]);
            assert(forall|k: int|
                0 <= k < i + 1 ==> is_digit(#[trigger] ip.take(i as int + 1)[k]));
        }
        if intval > (u32::MAX - dv) / 10 {
            proof {
                let ip = t@.take(d as int);
                assert(intval * 10 + dv > u32::MAX) by (nonlinear_arith)
                    requires
                        intval > (u32::MAX - dv) / 10,
                        0 <= dv <= 9,
                        intval >= 0,
                ;
                assert(spec_digits_val(ip.take(i as int + 1)) > u32::MAX);
                if all_digits(ip) {
                    lemma_digits_val_prefix(ip, i as int + 1);
                    lemma_clock_overflow(t@, d as int);
                }
            }
            return None;
        }
        proof {
            assert(intval * 10 + dv <= u32::MAX) by (nonlinear_arith)
                requires
                    intval <= (u32::MAX - dv) / 10,
                    0 <= dv <= 9,
                    intval >= 0,
            ;
        }
        intval = intval * 10 + dv;
        i = i + 1;
    }
    proof {
        assert(t@.take(d as int).take(d as int) =~= t@.take(d as int));
    }
    // fractional part
    let mut frac3: u32 = 0;
    if d < n {
        let fstart = d + 1;
        let flen = n - fstart;
        // every fractional byte must be a digit
        let mut j: usize = 0;
        while j < flen
            invariant
                j <= flen,
                fstart == d + 1,
                flen == n - fstart,
                0 < d < n,
                n == t@.len(),
                spec_dot_idx(t@) == d as int,
                forall|k: int| 0 <= k < j ==> is_digit(#[trigger] t@.skip(d as int + 1)[k]),
            decreases flen - j,
        {
            let b = t[fstart + j];
            proof {
                assert(t@.skip(d as int + 1)[j as int] == t@[d as int + 1 + j]);
            }
            if b < 48 || b > 57 {
                proof {
                    assert(!all_digits(t@.skip(d as int + 1)));
                }
                return None;
            }
            j = j + 1;
        }
        // thousandths from the first three digits
        if flen >= 3 {
            proof {
                assert(t@.skip(d as int + 1)[0] == t@[d as int + 1]);
                assert(t@.skip(d as int + 1)[1] == t@[d as int + 2]);
                assert(t@.skip(d as int + 1)[2] == t@[d as int + 3]);
                assert(is_digit(t@[d as int + 1]));
                assert(is_digit(t@[d as int + 2]));
                assert(is_digit(t@[d as int + 3]));
            }
            let d0 = (t[fstart] - 48) as u32;
            let d1 = (t[fstart + 1] - 48) as u32;
            let d2 = (t[fstart + 2] - 48) as u32;
            frac3 = d0 * 100 + d1 * 10 + d2;
            proof {
                let f = t@.skip(d as int + 1);
                let f3 = f.take(3);
                assert(f3.len() == 3);
                assert(f3.last() == f[2] && f[2] == t@[d as int + 3]);
                assert(f3.drop_last() =~= f.take(2));
                assert(f.take(2).last() == f[1] && f[1] == t@[d as int + 2]);
                assert(f.take(2).drop_last() =~= f.take(1));
                assert(f.take(1).last() == f[0] && f[0] == t@[d as int + 1]);
                assert(f.take(1).drop_last() =~= Seq::<u8>::empty());
                assert(spec_digits_val(Seq::<u8>::empty()) == 0);
                assert(spec_digits_val(f.take(1)) == f[0] - 48);
                assert(spec_digits_val(f.take(2)) == (f[0] - 48) * 10 + (f[1] - 48));
                assert(spec_digits_val(f3) == ((f[0] - 48) * 10 + (f[1] - 48)) * 10 + (f[2]
                    - 48));
                assert(spec_frac_thousandths(f) == frac3);
            }
        } else if flen == 2 {
            proof {
                assert(t@.skip(d as int + 1)[0] == t@[d as int + 1]);
                assert(t@.skip(d as int + 1)[1] == t@[d as int + 2]);
                assert(is_digit(t@[d as int + 1]));
                assert(is_digit(t@[d as int + 2]));
            }
            let d0 = (t[fstart] - 48) as u32;
            let d1 = (t[fstart + 1] - 48) as u32;
            frac3 = (d0 * 10 + d1) * 10;
            proof {
                let f = t@.skip(d as int + 1);
                assert(f.len() == 2);
                assert(f.last() == f[1] && f[1] == t@[d as int + 2]);
                assert(f.drop_last() =~= f.take(1));
                assert(f.take(1).last() == f[0] && f[0] == t@[d as int + 1]);
                assert(f.take(1).drop_last() =~= Seq::<u8>::empty());
                assert(spec_digits_val(Seq::<u8>::empty()) == 0);
                assert(spec_digits_val(f.take(1)) == f[0] - 48);
                assert(spec_digits_val(f) == (f[0] - 48) * 10 + (f[1] - 48));
                assert(spec_frac_thousandths(f) == frac3);
            }
        } else if flen == 1 {
            proof {
                assert(t@.skip(d as int + 1)[0] == t@[d as int + 1]);
                assert(is_digit(t@[d as int + 1]));
            }
            let d0 = (t[fstart] - 48) as u32;
            frac3 = d0 * 100;
            proof {
                let f = t@.skip(d as int + 1);
                assert(f.len() == 1);
                assert(f.last() == f[0] && f[0] == t@[d as int + 1]);
                assert(f.drop_last() =~= Seq::<u8>::empty());
                assert(spec_digits_val(Seq::<u8>::empty()) == 0);
                assert(spec_digits_val(f) == f[0] - 48);
                assert(spec_frac_thousandths(f) == frac3);
            }
        } else {
            proof {
                assert(t@.skip(d as int + 1).len() == 0);
            }
        }
    } else {
        proof {
            assert(spec_frac_thousandths(Seq::<u8>::empty()) == 0);
        }
    }
    // combine; the clock must fit
    if intval > (u32::MAX - frac3) / 1000 {
        proof {
            assert(intval * 1000 + frac3 > u32::MAX) by (nonlinear_arith)
                requires
                    intval > (u32::MAX - frac3) / 1000,
                    0 <= frac3 <= 999,
            ;
        }
        return None;
    }
    proof {
        assert(intval * 1000 + frac3 <= u32::MAX) by (nonlinear_arith)
            requires
                intval <= (u32::MAX - frac3) / 1000,
                0 <= frac3 <= 999,
        ;
    }
    Some(intval * 1000 + frac3)
}

/// A dot-free prefix bounded by a dot or the end pins the dot index.
proof fn lemma_dot_run(t: Seq<u8>, d: int)
    requires
        0 <= d <= t.len(),
        forall|k: int| 0 <= k < d ==> #[trigger] t[k] != 46,
        d < t.len() ==> t[d] == 46,
    ensures
        spec_dot_idx(t) == d,
    decreases d,
{
    if d == 0 {
    } else {
        assert(t.first() != 46);
        lemma_dot_run(t.drop_first(), d - 1);
    }
}

/// If the integer part overflows, the whole clock does.
proof fn lemma_clock_overflow(t: Seq<u8>, d: int)
    requires
        0 <= d <= t.len(),
        all_digits(t.take(d)),
        spec_digits_val(t.take(d)) > u32::MAX,
    ensures
        spec_parse_clock_khz(t) is None || spec_dot_idx(t) != d,
{
    if spec_dot_idx(t) == d {
        let frac = if d < t.len() {
            t.skip(d + 1)
        } else {
            Seq::<u8>::empty()
        };
        if all_digits(frac) {
            assert(spec_frac_thousandths(frac) >= 0) by {
                if frac.len() >= 3 {
                    assert(all_digits(frac.take(3))) by {
                        assert(forall|k: int|
                            0 <= k < 3 ==> #[trigger] frac.take(3)[k] == frac[k]);
                    }
                    lemma_digits_val_nonneg(frac.take(3));
                } else {
                    lemma_digits_val_nonneg(frac);
                }
            }
            assert(spec_digits_val(t.take(d)) * 1000 > u32::MAX) by (nonlinear_arith)
                requires
                    spec_digits_val(t.take(d)) > u32::MAX,
            ;
        }
    }
}

/// An ASCII byte lowercased.
pub open spec fn spec_lower(b: u8) -> u8 {
    if 65 <= b <= 90 {
        (b + 32) as u8
    } else {
        b
    }
}

/// Whether a token reads as a sync polarity, ASCII case-insensitively:
/// a sign, then the axis key (`104` for horizontal, `118` for vertical),
/// then `sync`. The sign decides the polarity.
pub open spec fn spec_sync_polarity(t: Seq<u8>, key: u8) -> Option<bool> {
    if t.len() == 6 && spec_lower(t[1]) == key && spec_lower(t[2]) == 115 && spec_lower(t[3])
        == 121 && spec_lower(t[4]) == 110 && spec_lower(t[5]) == 99 {
        if t[0] == 43 {
            Some(true)
        } else if t[0] == 45 {
            Some(false)
        } else {
            None
        }
    } else {
        None
    }
}

/// Lowercases an ASCII byte.
fn lower_byte(b: u8) -> (r: u8)
    ensures
        r == spec_lower(b),
{
    if b >= 65 && b <= 90 {
        b + 32
    } else {
        b
    }
}

/// Reads a sync-polarity token; exact per [`spec_sync_polarity`].
fn parse_sync_polarity(t: &Vec<u8>, key: u8) -> (r: Option<bool>)
    ensures
        r == spec_sync_polarity(t@, key),
{
    if t.len() != 6 {
        return None;
    }
    if !(lower_byte(t[1]) == key && lower_byte(t[2]) == 115 && lower_byte(t[3]) == 121
        && lower_byte(t[4]) == 110 && lower_byte(t[5]) == 99) {
        return None;
    }
    if t[0] == 43 {
        Some(true)
    } else if t[0] == 45 {
        Some(false)
    } else {
        None
    }
}

/// What a token list parses to: the clock, then eight numeric fields, then
/// the two sync polarities; the first missing or malformed field names the
/// error. Tokens beyond the twelfth are ignored.
pub open spec fn spec_parse_modeline(toks: Seq<Seq<u8>>) -> Result<
    Modeline,
    ParseModelineErrorKind,
> {
    if toks.len() < 1 {
        Err(ParseModelineErrorKind::NoClock)
    } else if spec_parse_clock_khz(toks[0]) is None {
        Err(ParseModelineErrorKind::InvalidClock)
    } else if toks.len() < 2 {
        Err(ParseModelineErrorKind::NoHdisplay)
    } else if spec_parse_u32(toks[1]) is None {
        Err(ParseModelineErrorKind::InvalidHdisplay)
    } else if toks.len() < 3 {
        Err(ParseModelineErrorKind::NoHsyncStart)
    } else if spec_parse_u32(toks[2]) is None {
        Err(ParseModelineErrorKind::InvalidHsyncStart)
    } else if toks.len() < 4 {
        Err(ParseModelineErrorKind::NoHsyncEnd)
    } else if spec_parse_u32(toks[3]) is None {
        Err(ParseModelineErrorKind::InvalidHsyncEnd)
    } else if toks.len() < 5 {
        Err(ParseModelineErrorKind::NoHtotal)
    } else if spec_parse_u32(toks[4]) is None {
        Err(ParseModelineErrorKind::InvalidHtotal)
    } else if toks.len() < 6 {
        Err(ParseModelineErrorKind::NoVdisplay)
    } else if spec_parse_u32(toks[5]) is None {
        Err(ParseModelineErrorKind::InvalidVdisplay)
    } else if toks.len() < 7 {
        Err(ParseModelineErrorKind::NoVsyncStart)
    } else if spec_parse_u32(toks[6]) is None {
        Err(ParseModelineErrorKind::InvalidVsyncStart)
    } else if toks.len() < 8 {
        Err(ParseModelineErrorKind::NoVsyncEnd)
    } else if spec_parse_u32(toks[7]) is None {
        Err(ParseModelineErrorKind::InvalidVsyncEnd)
    } else if toks.len() < 9 {
        Err(ParseModelineErrorKind::NoVtotal)
    } else if spec_parse_u32(toks[8]) is None {
        Err(ParseModelineErrorKind::InvalidVtotal)
    } else if toks.len() < 10 {
        Err(ParseModelineErrorKind::NoHsync)
    } else if spec_sync_polarity(toks[9], 104) is None {
        Err(ParseModelineErrorKind::InvalidHsync)
    } else if toks.len() < 11 {
        Err(ParseModelineErrorKind::NoVsync)
    } else if spec_sync_polarity(toks[10], 118) is None {
        Err(ParseModelineErrorKind::InvalidVsync)
    } else {
        Ok(
            Modeline {
                clock_khz: spec_parse_clock_khz(toks[0])->0,
                hdisplay: spec_parse_u32(toks[1])->0,
                hsync_start: spec_parse_u32(toks[2])->0,
                hsync_end: spec_parse_u32(toks[3])->0,
                htotal: spec_parse_u32(toks[4])->0,
                vdisplay: spec_parse_u32(toks[5])->0,
                vsync_start: spec_parse_u32(toks[6])->0,
                vsync_end: spec_parse_u32(toks[7])->0,
                vtotal: spec_parse_u32(toks[8])->0,
                hsync: spec_sync_polarity(toks[9], 104)->0,
                vsync: spec_sync_polarity(toks[10], 118)->0,
            },
        )
    }
}

impl Modeline {
    /// Parses a modeline string of the form
    /// `<clock> <hdisplay> <hsync_start> <hsync_end> <htotal> <vdisplay>
    /// <vsync_start> <vsync_end> <vtotal> <sign>hsync <sign>vsync`,
    /// exactly per [`spec_parse_modeline`] over the string's whitespace
    /// tokens.
    pub fn parse(s: &str) -> (r: Result<Modeline, ParseModelineError>)
        ensures
            r == (match spec_parse_modeline(spec_tokens(s.spec_bytes())) {
                Ok(m) => Ok::<Modeline, ParseModelineError>(m),
                Err(k) => Err(ParseModelineError(k)),
            }),
    {
        let bytes = s.as_bytes();
        let tokens = tokenize(bytes);
        let ghost toks = spec_tokens(s.spec_bytes());
        proof {
            let f = |t: Vec<u8>| t@;
            assert(tokens@.map_values(f).len() == tokens@.len());
            assert forall|k: int| 0 <= k < tokens@.len() implies (#[trigger] tokens@[k])@
                == toks[k] by {
                assert(tokens@.map_values(f)[k] == f(tokens@[k]));
            }
        }
        if tokens.len() < 1 {
            return Err(ParseModelineError(ParseModelineErrorKind::NoClock));
        }
        let clock_khz = match parse_clock_khz(&tokens[0]) {
            Some(v) => v,
            None => {
                return Err(ParseModelineError(ParseModelineErrorKind::InvalidClock));
            },
        };
        if tokens.len() < 2 {
            return Err(ParseModelineError(ParseModelineErrorKind::NoHdisplay));
        }
        let hdisplay = match parse_u32(&tokens[1]) {
            Some(v) => v,
            None => {
                return Err(ParseModelineError(ParseModelineErrorKind::InvalidHdisplay));
            },
        };
        if tokens.len() < 3 {
            return Err(ParseModelineError(ParseModelineErrorKind::NoHsyncStart));
        }
        let hsync_start = match parse_u32(&tokens[2]) {
            Some(v) => v,
            None => {
                return Err(ParseModelineError(ParseModelineErrorKind::InvalidHsyncStart));
            },
        };
        if tokens.len() < 4 {
            return Err(ParseModelineError(ParseModelineErrorKind::NoHsyncEnd));
        }
        let hsync_end = match parse_u32(&tokens[3]) {
            Some(v) => v,
            None => {
                return Err(ParseModelineError(ParseModelineErrorKind::InvalidHsyncEnd));
            },
        };
        if tokens.len() < 5 {
            return Err(ParseModelineError(ParseModelineErrorKind::NoHtotal));
        }
        let htotal = match parse_u32(&tokens[4]) {
            Some(v) => v,
            None => {
                return Err(ParseModelineError(ParseModelineErrorKind::InvalidHtotal));
            },
        };
        if tokens.len() < 6 {
            return Err(ParseModelineError(ParseModelineErrorKind::NoVdisplay));
        }
        let vdisplay = match parse_u32(&tokens[5]) {
            Some(v) => v,
            None => {
                return Err(ParseModelineError(ParseModelineErrorKind::InvalidVdisplay));
            },
        };
        if tokens.len() < 7 {
            return Err(ParseModelineError(ParseModelineErrorKind::NoVsyncStart));
        }
        let vsync_start = match parse_u32(&tokens[6]) {
            Some(v) => v,
            None => {
                return Err(ParseModelineError(ParseModelineErrorKind::InvalidVsyncStart));
            },
        };
        if tokens.len() < 8 {
            return Err(ParseModelineError(ParseModelineErrorKind::NoVsyncEnd));
        }
        let vsync_end = match parse_u32(&tokens[7]) {
            Some(v) => v,
            None => {
                return Err(ParseModelineError(ParseModelineErrorKind::InvalidVsyncEnd));
            },
        };
        if tokens.len() < 9 {
            return Err(ParseModelineError(ParseModelineErrorKind::NoVtotal));
        }
        let vtotal = match parse_u32(&tokens[8]) {
            Some(v) => v,
            None => {
                return Err(ParseModelineError(ParseModelineErrorKind::InvalidVtotal));
            },
        };
        if tokens.len() < 10 {
            return Err(ParseModelineError(ParseModelineErrorKind::NoHsync));
        }
        let hsync = match parse_sync_polarity(&tokens[9], 104) {
            Some(v) => v,
            None => {
                return Err(ParseModelineError(ParseModelineErrorKind::InvalidHsync));
            },
        };
        if tokens.len() < 11 {
            return Err(ParseModelineError(ParseModelineErrorKind::NoVsync));
        }
        let vsync = match parse_sync_polarity(&tokens[10], 118) {
            Some(v) => v,
            None => {
                return Err(ParseModelineError(ParseModelineErrorKind::InvalidVsync));
            },
        };
        Ok(
            Modeline {
                clock_khz,
                hdisplay,
                hsync_start,
                hsync_end,
                htotal,
                vdisplay,
                vsync_start,
                vsync_end,
                vtotal,
                hsync,
                vsync,
            },
        )
    }
}

} // verus!
