use vstd::prelude::*;
use crate::error::Error;
use crate::text::{
    all_digits, append_decimal, char_vec, decimal, digit_value, digits_value, find_char, find_from,
    is_digit, lemma_decimal, lemma_find_from, lemma_find_from_bound, parse_u64, parse_u64_at,
};

verus! {

broadcast use vstd::string::group_string_axioms;

pub open spec fn pow10(k: nat) -> nat
    decreases k,
{
    if k == 0 {
        1
    } else {
        10 * pow10((k - 1) as nat)
    }
}

pub open spec fn zeros(k: nat) -> Seq<char> {
    Seq::new(k, |i: int| '0')
}

/// `s` without its trailing zeros.
pub open spec fn strip_zeros(s: Seq<char>) -> Seq<char>
    decreases s.len(),
{
    if s.len() > 0 && s.last() == '0' {
        strip_zeros(s.drop_last())
    } else {
        s
    }
}

/// `n` as nine digits, with leading zeros.
pub open spec fn pad9(n: nat) -> Seq<char> {
    zeros((9 - decimal(n).len()) as nat) + decimal(n)
}

/// The first nine digits of a fraction, padded with zeros where it is shorter.
pub open spec fn nine(f: Seq<char>) -> Seq<char> {
    if f.len() >= 9 {
        f.take(9)
    } else {
        f + zeros((9 - f.len()) as nat)
    }
}

pub proof fn lemma_digits_value_bound(s: Seq<char>)
    requires
        all_digits(s),
    ensures
        digits_value(s) < pow10(s.len()),
    decreases s.len(),
{
    if s.len() > 0 {
        let t = s.drop_last();
        assert(all_digits(t)) by {
            assert forall|i: int| 0 <= i < t.len() implies is_digit(#[trigger] t[i]) by {
                assert(t[i] == s[i]);
            }
        }
        lemma_digits_value_bound(t);
        assert(is_digit(s[s.len() - 1]));
        let a = digits_value(t);
        let d = digit_value(s.last());
        let p = pow10(t.len());
        assert(a * 10 + d < 10 * p) by (nonlinear_arith)
            requires
                a < p,
                d < 10,
        ;
    }
}

pub proof fn lemma_zeros_value(k: nat)
    ensures
        all_digits(zeros(k)),
        digits_value(zeros(k)) == 0,
    decreases k,
{
    if k > 0 {
        lemma_zeros_value((k - 1) as nat);
        assert(zeros(k).drop_last() =~= zeros((k - 1) as nat));
    }
}

pub proof fn lemma_leading_zeros(k: nat, s: Seq<char>)
    ensures
        digits_value(zeros(k) + s) == digits_value(s),
    decreases s.len(),
{
    if s.len() == 0 {
        lemma_zeros_value(k);
        assert(zeros(k) + s =~= zeros(k));
    } else {
        lemma_leading_zeros(k, s.drop_last());
        assert((zeros(k) + s).drop_last() =~= zeros(k) + s.drop_last());
    }
}

pub proof fn lemma_trailing_zero(s: Seq<char>, k: nat)
    ensures
        digits_value(s + zeros(k + 1)) == digits_value(s + zeros(k)) * 10,
{
    let t = s + zeros(k + 1);
    assert(t.drop_last() =~= s + zeros(k));
}

pub proof fn lemma_decimal_len(n: nat, k: nat)
    requires
        k >= 1,
        n < pow10(k),
    ensures
        decimal(n).len() <= k,
    decreases n,
{
    if n >= 10 {
        if k == 1 {
            assert(pow10(1) == 10 * pow10(0));
        } else {
            let p = pow10((k - 1) as nat);
            assert(n / 10 < p) by (nonlinear_arith)
                requires
                    n < 10 * p,
            ;
            lemma_decimal_len(n / 10, (k - 1) as nat);
        }
    }
}

pub proof fn lemma_strip_zeros(s: Seq<char>)
    ensures
        strip_zeros(s).len() <= s.len(),
        s == strip_zeros(s) + zeros((s.len() - strip_zeros(s).len()) as nat),
        strip_zeros(s).len() > 0 ==> strip_zeros(s).last() != '0',
    decreases s.len(),
{
    if s.len() > 0 && s.last() == '0' {
        let t = s.drop_last();
        lemma_strip_zeros(t);
        let u = strip_zeros(t);
        let k = (t.len() - u.len()) as nat;
        assert(s =~= t.push('0'));
        assert(zeros(k + 1) =~= zeros(k).push('0'));
        assert(s =~= u + zeros((s.len() - u.len()) as nat));
    } else {
        assert(s =~= s + zeros(0));
    }
}

pub proof fn lemma_pad9(n: nat)
    requires
        n < 1_000_000_000,
    ensures
        pad9(n).len() == 9,
        all_digits(pad9(n)),
        digits_value(pad9(n)) == n,
{
    reveal_with_fuel(pow10, 10);
    lemma_decimal(n);
    lemma_decimal_len(n, 9);
    lemma_leading_zeros((9 - decimal(n).len()) as nat, decimal(n));
    lemma_zeros_value((9 - decimal(n).len()) as nat);
    let p = pad9(n);
    let z = zeros((9 - decimal(n).len()) as nat);
    assert forall|i: int| 0 <= i < p.len() implies is_digit(#[trigger] p[i]) by {
        if i >= z.len() {
            assert(p[i] == decimal(n)[i - z.len()]);
        }
    }
}

/// The fraction digits written for `nanos` nanoseconds: nine digits without trailing zeros.
pub open spec fn fraction_text(nanos: nat) -> Seq<char> {
    strip_zeros(pad9(nanos))
}

pub proof fn lemma_fraction(n: nat)
    requires
        0 < n < 1_000_000_000,
    ensures
        fraction_text(n).len() > 0,
        fraction_text(n).len() <= 9,
        all_digits(fraction_text(n)),
        nine(fraction_text(n)) == pad9(n),
        digits_value(nine(fraction_text(n))) == n,
{
    lemma_pad9(n);
    lemma_strip_zeros(pad9(n));
    let f = fraction_text(n);
    let p = pad9(n);
    if f.len() == 0 {
        assert(p =~= zeros(9));
        lemma_zeros_value(9);
    }
    assert forall|i: int| 0 <= i < f.len() implies is_digit(#[trigger] f[i]) by {
        assert(f[i] == p[i]);
    }
    if f.len() == 9 {
        assert(f.take(9) =~= f);
        assert(p =~= f);
    }
}

/// A decimal number: digits, then optionally a point and one or more digits.
/// The fraction is kept to nine places; further digits are cut off.
pub open spec fn parse_float(s: Seq<char>) -> Option<DecimalFloatingPoint> {
    let dot = find_from(s, '.', 0);
    match parse_u64(s.take(dot)) {
        None => None,
        Some(secs) => if dot == s.len() {
            Some(DecimalFloatingPoint { secs, nanos: 0 })
        } else {
            let f = s.skip(dot + 1);
            if f.len() > 0 && all_digits(f) {
                Some(DecimalFloatingPoint { secs, nanos: digits_value(nine(f)) as u32 })
            } else {
                None
            }
        },
    }
}

/// The whole part, then a point and the fraction only where it is not zero.
pub open spec fn float_text(v: DecimalFloatingPoint) -> Seq<char> {
    if v.nanos == 0 {
        decimal(v.secs as nat)
    } else {
        decimal(v.secs as nat) + seq!['.'] + fraction_text(v.nanos as nat)
    }
}

pub proof fn lemma_float_round_trip(v: DecimalFloatingPoint)
    requires
        v.wf(),
    ensures
        parse_float(float_text(v)) == Some(v),
{
    let t = float_text(v);
    let d = decimal(v.secs as nat);
    lemma_decimal(v.secs as nat);
    assert forall|k: int| 0 <= k < d.len() implies t[k] != '.' by {
        assert(t[k] == d[k]);
        assert(is_digit(d[k]));
    }
    lemma_find_from(t, '.', 0, d.len() as int);
    assert(t.take(d.len() as int) =~= d);
    if v.nanos != 0 {
        lemma_fraction(v.nanos as nat);
        assert(t.skip(d.len() as int + 1) =~= fraction_text(v.nanos as nat));
    }
}

pub proof fn lemma_parsed_float_wf(s: Seq<char>)
    requires
        parse_float(s) is Some,
    ensures
        parse_float(s)->0.wf(),
{
    let dot = find_from(s, '.', 0);
    if dot < s.len() {
        let f = s.skip(dot + 1);
        let g = nine(f);
        if f.len() >= 9 {
            assert forall|i: int| 0 <= i < g.len() implies is_digit(#[trigger] g[i]) by {
                assert(g[i] == f[i]);
            }
        } else {
            lemma_zeros_value((9 - f.len()) as nat);
            let z = zeros((9 - f.len()) as nat);
            assert forall|i: int| 0 <= i < g.len() implies is_digit(#[trigger] g[i]) by {
                if i < f.len() {
                    assert(g[i] == f[i]);
                } else {
                    assert(g[i] == z[i - f.len()]);
                }
            }
        }
        lemma_digits_value_bound(g);
        reveal_with_fuel(pow10, 10);
        assert(g.len() == 9);
        assert(digits_value(g) < 1_000_000_000);
        if f.len() > 0 && all_digits(f) {
            assert(parse_float(s)->0.nanos == digits_value(g));
        }
        assert(parse_float(s)->0.wf());
    } else {
        lemma_find_from_bound(s, '.', 0);
    }
}

/// A span of time: whole seconds and the nanoseconds beyond them.
#[derive(Debug, Clone, Copy, PartialEq, Eq, Structural)]
pub struct Duration {
    pub secs: u64,
    pub nanos: u32,
}

impl Duration {
    pub open spec fn wf(&self) -> bool {
        self.nanos < 1_000_000_000
    }

    pub fn new(secs: u64, nanos: u32) -> (r: Duration)
        requires
            nanos < 1_000_000_000,
        ensures
            r.secs == secs,
            r.nanos == nanos,
    {
        Duration { secs, nanos }
    }

    pub fn from_secs(secs: u64) -> (r: Duration)
        ensures
            r.secs == secs,
            r.nanos == 0,
    {
        Duration { secs, nanos: 0 }
    }

    pub fn as_secs(&self) -> (r: u64)
        ensures
            r == self.secs,
    {
        self.secs
    }

    pub fn subsec_nanos(&self) -> (r: u32)
        ensures
            r == self.nanos,
    {
        self.nanos
    }
}

/// A non-negative decimal number, held to the nanosecond: whole part and
/// nine places of fraction.
#[derive(Debug, Clone, Copy, PartialEq, Eq, Structural)]
pub struct DecimalFloatingPoint {
    pub secs: u64,
    pub nanos: u32,
}

fn decimal_len(n: u64) -> (r: usize)
    ensures
        r == decimal(n as nat).len(),
        r <= 20,
    decreases n,
{
    proof {
        reveal_with_fuel(pow10, 21);
        lemma_decimal_len(n as nat, 20);
    }
    if n < 10 {
        1
    } else {
        decimal_len(n / 10) + 1
    }
}

impl DecimalFloatingPoint {
    pub open spec fn wf(&self) -> bool {
        self.nanos < 1_000_000_000
    }

    pub fn new(secs: u64, nanos: u32) -> (r: DecimalFloatingPoint)
        requires
            nanos < 1_000_000_000,
        ensures
            r.secs == secs,
            r.nanos == nanos,
    {
        DecimalFloatingPoint { secs, nanos }
    }

    pub fn from_duration(d: Duration) -> (r: DecimalFloatingPoint)
        ensures
            r.secs == d.secs,
            r.nanos == d.nanos,
    {
        DecimalFloatingPoint { secs: d.secs, nanos: d.nanos }
    }

    pub fn to_duration(&self) -> (r: Duration)
        ensures
            r.secs == self.secs,
            r.nanos == self.nanos,
    {
        Duration { secs: self.secs, nanos: self.nanos }
    }

    pub fn from_str(s: &str) -> (r: Result<DecimalFloatingPoint, Error>)
        ensures
            match r {
                Ok(v) => parse_float(s@) == Some(v) && v.wf(),
                Err(_) => parse_float(s@) is None,
            },
    {
        let cs = char_vec(s);
        let n = cs.len();
        let dot = find_char(&cs, '.', 0);
        assert(cs@.subrange(0, dot as int) =~= s@.take(dot as int));
        let secs = match parse_u64_at(&cs, 0, dot) {
            Some(v) => v,
            None => {
                return Err(Error::invalid_input(s));
            },
        };
        if dot == n {
            return Ok(DecimalFloatingPoint { secs, nanos: 0 });
        }
        let ghost f = s@.skip(dot + 1);
        if dot + 1 == n {
            assert(f.len() == 0);
            return Err(Error::invalid_input(s));
        }
        let mut nanos: u64 = 0;
        let mut i: usize = dot + 1;
        while i < n
            invariant
                cs@ == s@,
                n == cs@.len(),
                dot < n,
                f == s@.skip(dot + 1),
                dot as int == find_from(s@, '.', 0),
                parse_u64(s@.take(dot as int)) == Some(secs),
                dot + 1 <= i <= n,
                all_digits(f.take(i - dot - 1)),
                nanos == digits_value(
                    f.take(if i - dot - 1 < 9 {
                        i - dot - 1
                    } else {
                        9
                    }),
                ),
            decreases n - i,
        {
            let ghost j = (i - dot - 1) as int;
            assert(f[j] == cs@[i as int]);
            let c = cs[i];
            if !('0' <= c && c <= '9') {
                return Err(Error::invalid_input(s));
            }
            proof {
                assert forall|k: int| 0 <= k < j + 1 implies is_digit(#[trigger] f.take(j + 1)[k]) by {
                    if k < j {
                        assert(f.take(j + 1)[k] == f.take(j)[k]);
                    }
                }
            }
            if i - dot - 1 < 9 {
                proof {
                    lemma_digits_value_bound(f.take(j));
                    reveal_with_fuel(pow10, 10);
                    assert(f.take(j + 1).drop_last() =~= f.take(j));
                }
                nanos = nanos * 10 + (c as u32 - '0' as u32) as u64;
            }
            i = i + 1;
        }
        let ghost m = if f.len() < 9 {
            f.len() as int
        } else {
            9
        };
        assert(f.take(f.len() as int) =~= f);
        proof {
            lemma_digits_value_bound(f.take(m));
            reveal_with_fuel(pow10, 10);
            assert(f.take(m) + zeros(0) =~= f.take(m));
        }
        let mut count: usize = if n - dot - 1 < 9 {
            n - dot - 1
        } else {
            9
        };
        while count < 9
            invariant
                m <= count <= 9,
                f == s@.skip(dot + 1),
                f.len() > 0,
                all_digits(f),
                dot as int == find_from(s@, '.', 0),
                dot < s@.len(),
                parse_u64(s@.take(dot as int)) == Some(secs),
                m == if f.len() < 9 {
                    f.len() as int
                } else {
                    9
                },
                all_digits(f.take(m)),
                nanos == digits_value(f.take(m) + zeros((count - m) as nat)),
                nanos < pow10(count as nat),
            decreases 9 - count,
        {
            proof {
                lemma_trailing_zero(f.take(m), (count - m) as nat);
                assert((count + 1 - m) as nat == (count - m) as nat + 1);
                reveal_with_fuel(pow10, 10);
            }
            nanos = nanos * 10;
            count = count + 1;
        }
        proof {
            reveal_with_fuel(pow10, 10);
            if f.len() < 9 {
                assert(f.take(m) =~= f);
            } else {
                assert(f.take(m) + zeros(0) =~= f.take(9));
            }
        }
        Ok(DecimalFloatingPoint { secs, nanos: nanos as u32 })
    }

    /// Appends the decimal text of this number.
    pub fn write_to(&self, out: &mut String)
        requires
            self.wf(),
        ensures
            final(out)@ == old(out)@ + float_text(*self),
    {
        append_decimal(out, self.secs);
        if self.nanos == 0 {
            return;
        }
        proof {
            reveal_strlit(".");
            reveal_with_fuel(pow10, 10);
            lemma_decimal_len(self.nanos as nat, 9);
            lemma_pad9(self.nanos as nat);
        }
        out.append(".");
        let len = decimal_len(self.nanos as u64);
        let mut digits = String::new();
        let mut k: usize = 0;
        proof {
            reveal_strlit("0");
        }
        while k < 9 - len
            invariant
                len <= 9,
                0 <= k <= 9 - len,
                digits@ == zeros(k as nat),
            decreases 9 - len - k,
        {
            proof {
                reveal_strlit("0");
            }
            digits.append("0");
            k = k + 1;
            assert(digits@ =~= zeros(k as nat));
        }
        append_decimal(&mut digits, self.nanos as u64);
        assert(digits@ =~= pad9(self.nanos as nat));
        let cd = char_vec(digits.as_str());
        let mut end: usize = 9;
        assert(cd@.take(9) =~= cd@);
        while end > 0 && cd[end - 1] == '0'
            invariant
                cd@ == digits@,
                cd@.len() == 9,
                end <= 9,
                strip_zeros(cd@) == strip_zeros(cd@.take(end as int)),
            decreases end,
        {
            assert(cd@.take(end as int).drop_last() =~= cd@.take(end - 1));
            end = end - 1;
        }
        let frac = digits.as_str().substring_char(0, end);
        assert(frac@ =~= cd@.take(end as int));
        out.append(frac);
        assert(out@ =~= old(out)@ + float_text(*self));
    }

    pub fn to_string(&self) -> (r: String)
        requires
            self.wf(),
        ensures
            r@ == float_text(*self),
    {
        let mut out = String::new();
        self.write_to(&mut out);
        assert(out@ =~= float_text(*self));
        out
    }
}

/// A decimal number that may carry a minus sign.
#[derive(Debug, Clone, Copy, PartialEq, Eq, Structural)]
pub struct SignedDecimalFloatingPoint {
    pub negative: bool,
    pub magnitude: DecimalFloatingPoint,
}

pub open spec fn is_zero(v: DecimalFloatingPoint) -> bool {
    v.secs == 0 && v.nanos == 0
}

/// An optional minus sign, then a decimal number. Minus zero reads as zero.
pub open spec fn parse_signed_float(s: Seq<char>) -> Option<SignedDecimalFloatingPoint> {
    if s.len() > 0 && s[0] == '-' {
        match parse_float(s.skip(1)) {
            Some(m) => Some(SignedDecimalFloatingPoint { negative: !is_zero(m), magnitude: m }),
            None => None,
        }
    } else {
        match parse_float(s) {
            Some(m) => Some(SignedDecimalFloatingPoint { negative: false, magnitude: m }),
            None => None,
        }
    }
}

pub open spec fn signed_float_text(v: SignedDecimalFloatingPoint) -> Seq<char> {
    if v.negative {
        seq!['-'] + float_text(v.magnitude)
    } else {
        float_text(v.magnitude)
    }
}

pub proof fn lemma_float_text_start(v: DecimalFloatingPoint)
    ensures
        float_text(v).len() > 0,
        is_digit(float_text(v)[0]),
{
    lemma_decimal(v.secs as nat);
    assert(float_text(v)[0] == decimal(v.secs as nat)[0]);
}

pub proof fn lemma_signed_float_round_trip(v: SignedDecimalFloatingPoint)
    requires
        v.wf(),
    ensures
        parse_signed_float(signed_float_text(v)) == Some(v),
{
    lemma_float_round_trip(v.magnitude);
    lemma_float_text_start(v.magnitude);
    let t = signed_float_text(v);
    if v.negative {
        assert(t.skip(1) =~= float_text(v.magnitude));
    }
}

impl SignedDecimalFloatingPoint {
    pub open spec fn wf(&self) -> bool {
        self.magnitude.wf() && (self.negative ==> !is_zero(self.magnitude))
    }

    pub fn from_str(s: &str) -> (r: Result<SignedDecimalFloatingPoint, Error>)
        ensures
            match r {
                Ok(v) => parse_signed_float(s@) == Some(v) && v.wf(),
                Err(_) => parse_signed_float(s@) is None,
            },
    {
        let cs = char_vec(s);
        let n = cs.len();
        if n > 0 && cs[0] == '-' {
            let rest = s.substring_char(1, n);
            assert(rest@ =~= s@.skip(1));
            let m = DecimalFloatingPoint::from_str(rest)?;
            let negative = !(m.secs == 0 && m.nanos == 0);
            Ok(SignedDecimalFloatingPoint { negative, magnitude: m })
        } else {
            let m = DecimalFloatingPoint::from_str(s)?;
            Ok(SignedDecimalFloatingPoint { negative: false, magnitude: m })
        }
    }

    pub fn to_string(&self) -> (r: String)
        requires
            self.wf(),
        ensures
            r@ == signed_float_text(*self),
    {
        proof {
            reveal_strlit("-");
        }
        let mut out = String::new();
        if self.negative {
            out.append("-");
        }
        self.magnitude.write_to(&mut out);
        assert(out@ =~= signed_float_text(*self));
        out
    }
}

/// The first index at or after `i` that holds `x` or `X`, or the length of `s`.
pub open spec fn find_x(s: Seq<char>, i: int) -> int
    decreases s.len() - i,
{
    if i >= s.len() {
        s.len() as int
    } else if s[i] == 'x' || s[i] == 'X' {
        i
    } else {
        find_x(s, i + 1)
    }
}

proof fn lemma_find_x(s: Seq<char>, i: int, j: int)
    requires
        0 <= i <= j <= s.len(),
        j < s.len() ==> (s[j] == 'x' || s[j] == 'X'),
        forall|k: int| i <= k < j ==> s[k] != 'x' && s[k] != 'X',
    ensures
        find_x(s, i) == j,
    decreases j - i,
{
    if i < j {
        lemma_find_x(s, i + 1, j);
    }
}

/// A width and a height, in pixels.
#[derive(Debug, Clone, Copy, PartialEq, Eq, Structural)]
pub struct DecimalResolution {
    pub width: usize,
    pub height: usize,
}

/// Two positive decimal integers, parted by the first `x` or `X`.
pub open spec fn parse_resolution(s: Seq<char>) -> Option<DecimalResolution> {
    let i = find_x(s, 0);
    if i < s.len() {
        match (parse_u64(s.take(i)), parse_u64(s.skip(i + 1))) {
            (Some(w), Some(h)) => if 0 < w && w <= usize::MAX && 0 < h && h <= usize::MAX {
                Some(DecimalResolution { width: w as usize, height: h as usize })
            } else {
                None
            },
            _ => None,
        }
    } else {
        None
    }
}

pub open spec fn resolution_text(v: DecimalResolution) -> Seq<char> {
    decimal(v.width as nat) + seq!['x'] + decimal(v.height as nat)
}

pub proof fn lemma_resolution_round_trip(v: DecimalResolution)
    requires
        v.wf(),
    ensures
        parse_resolution(resolution_text(v)) == Some(v),
{
    let t = resolution_text(v);
    let w = decimal(v.width as nat);
    lemma_decimal(v.width as nat);
    lemma_decimal(v.height as nat);
    assert forall|k: int| 0 <= k < w.len() implies t[k] != 'x' && t[k] != 'X' by {
        assert(t[k] == w[k]);
        assert(is_digit(w[k]));
    }
    lemma_find_x(t, 0, w.len() as int);
    assert(t.take(w.len() as int) =~= w);
    assert(t.skip(w.len() as int + 1) =~= decimal(v.height as nat));
}

impl DecimalResolution {
    pub open spec fn wf(&self) -> bool {
        self.width > 0 && self.height > 0
    }

    pub fn from_str(s: &str) -> (r: Result<DecimalResolution, Error>)
        ensures
            match r {
                Ok(v) => parse_resolution(s@) == Some(v) && v.wf(),
                Err(_) => parse_resolution(s@) is None,
            },
    {
        let cs = char_vec(s);
        let n = cs.len();
        let mut i: usize = 0;
        while i < n && cs[i] != 'x' && cs[i] != 'X'
            invariant
                n == cs@.len(),
                i <= n,
                forall|k: int| 0 <= k < i ==> cs@[k] != 'x' && cs@[k] != 'X',
            decreases n - i,
        {
            i = i + 1;
        }
        proof {
            lemma_find_x(s@, 0, i as int);
        }
        if i == n {
            return Err(Error::invalid_input(s));
        }
        assert(cs@.subrange(0, i as int) =~= s@.take(i as int));
        assert(cs@.subrange(i + 1, n as int) =~= s@.skip(i + 1));
        let w = parse_u64_at(&cs, 0, i);
        let h = parse_u64_at(&cs, i + 1, n);
        match (w, h) {
            (Some(w), Some(h)) => {
                if 0 < w && w <= usize::MAX as u64 && 0 < h && h <= usize::MAX as u64 {
                    Ok(DecimalResolution { width: w as usize, height: h as usize })
                } else {
                    Err(Error::invalid_input(s))
                }
            },
            _ => Err(Error::invalid_input(s)),
        }
    }

    pub fn to_string(&self) -> (r: String)
        ensures
            r@ == resolution_text(*self),
    {
        proof {
            reveal_strlit("x");
        }
        let mut out = String::new();
        append_decimal(&mut out, self.width as u64);
        out.append("x");
        append_decimal(&mut out, self.height as u64);
        assert(out@ =~= resolution_text(*self));
        out
    }
}

/// A duration written as a decimal number of seconds.
pub open spec fn parse_duration(s: Seq<char>) -> Option<Duration> {
    match parse_float(s) {
        Some(f) => Some(Duration { secs: f.secs, nanos: f.nanos }),
        None => None,
    }
}

pub open spec fn duration_text(d: Duration) -> Seq<char> {
    float_text(DecimalFloatingPoint { secs: d.secs, nanos: d.nanos })
}

/// Reads a duration written as a decimal number of seconds.
pub fn parse_duration_exec(s: &str) -> (r: Result<Duration, Error>)
    ensures
        match r {
            Ok(d) => parse_duration(s@) == Some(d) && d.wf(),
            Err(_) => parse_duration(s@) is None,
        },
{
    let f = DecimalFloatingPoint::from_str(s)?;
    Ok(f.to_duration())
}

/// A duration as a decimal number of seconds.
pub fn duration_string(d: Duration) -> (r: String)
    requires
        d.wf(),
    ensures
        r@ == duration_text(d),
{
    DecimalFloatingPoint::from_duration(d).to_string()
}

} // verus!
