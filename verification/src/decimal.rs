//! Exact decimal quantities (percentages, milliseconds, probabilities).
//!
//! A `Decimal` is `units / 10^scale` with `scale <= 18`. It is what traffic
//! control parameters are written in: `tc` reads them as decimal text, and
//! the text this type renders is the shortest decimal spelling of the value
//! (no trailing fractional zeros, no trailing dot), so `2.50` renders as
//! `2.5` and `100.0` as `100`.
use vstd::prelude::*;
use crate::text::{
    all_digits, chars_of, concat_vec, digit_to_char, digits_value, digits_value_u64, find_char,
    find_first, nat_digits, push_char, push_chars, subvec, vec_all_digits,
};

verus! {

/// Largest number of fractional digits a `Decimal` carries.
pub const MAX_SCALE: u8 = 18;

/// `10^n`.
pub open spec fn pow10(n: nat) -> nat
    decreases n,
{
    if n == 0 {
        1
    } else {
        10 * pow10((n - 1) as nat)
    }
}

/// `10^n` is positive and grows with `n`.
pub proof fn lemma_pow10_bounds(a: nat, b: nat)
    requires
        a <= b,
    ensures
        1 <= pow10(a) <= pow10(b),
    decreases b,
{
    if b > a {
        lemma_pow10_bounds(a, (b - 1) as nat);
    } else if a > 0 {
        lemma_pow10_bounds((a - 1) as nat, (a - 1) as nat);
    }
}

/// The parts of a decimal built from units and a scale.
pub proof fn lemma_of(units: i64, scale: u8)
    ensures
        Decimal::of(units, scale).num() == units,
        Decimal::of(units, scale).exp() == scale,
{
}

/// Truncating a decimal gives at most its units.
pub proof fn lemma_trunc_le_units(d: Decimal)
    ensures
        d.trunc_nat() <= i64::MAX,
        d.exp() == 0 ==> d.trunc_nat() == (if d.num() <= 0 {
            0
        } else {
            d.num()
        }),
{
    lemma_pow10_bounds(0, d.exp());
    if d.num() > 0 {
        let n = d.num();
        let p = pow10(d.exp()) as int;
        assert(n / p <= n) by (nonlinear_arith)
            requires
                n > 0,
                p >= 1,
        ;
        assert(d.exp() == 0 ==> p == 1);
    }
}

proof fn lemma_pow10_18()
    ensures
        pow10(18) == 1_000_000_000_000_000_000,
{
    reveal_with_fuel(pow10, 19);
}

/// Absolute value of an integer.
pub open spec fn abs_int(n: int) -> nat {
    if n < 0 {
        (-n) as nat
    } else {
        n as nat
    }
}

/// Removes trailing fractional zeros: `(250, 2)` becomes `(25, 1)`.
pub open spec fn strip_zeros(n: nat, s: nat) -> (nat, nat)
    decreases s,
{
    if s > 0 && n % 10 == 0 {
        strip_zeros(n / 10, (s - 1) as nat)
    } else {
        (n, s)
    }
}

/// `d` left-padded with zeros to width `w`.
pub open spec fn zero_pad(d: Seq<char>, w: nat) -> Seq<char> {
    if d.len() < w {
        Seq::new((w - d.len()) as nat, |_i: int| '0') + d
    } else {
        d
    }
}

/// Text of the non-negative fixed-point number `n / 10^s`.
pub open spec fn unsigned_text(n: nat, s: nat) -> Seq<char> {
    if s == 0 {
        nat_digits(n)
    } else {
        nat_digits(n / pow10(s)) + seq!['.'] + zero_pad(nat_digits(n % pow10(s)), s)
    }
}

/// Shortest decimal text of `num / 10^exp`: a minus sign for negative
/// values, then the digits with trailing fractional zeros removed.
pub open spec fn decimal_text(num: int, exp: nat) -> Seq<char> {
    let (n, s) = strip_zeros(abs_int(num), exp);
    let sign = if num < 0 {
        seq!['-']
    } else {
        Seq::<char>::empty()
    };
    sign + unsigned_text(n, s)
}

/// The sign of a numeric literal and the rest of it.
pub open spec fn split_sign(t: Seq<char>) -> (bool, Seq<char>) {
    if t.len() > 0 && t[0] == '-' {
        (true, t.drop_first())
    } else if t.len() > 0 && t[0] == '+' {
        (false, t.drop_first())
    } else {
        (false, t)
    }
}

/// The integer digits and the fractional digits of an unsigned literal.
pub open spec fn split_point(body: Seq<char>) -> (Seq<char>, Seq<char>) {
    let d = find_char(body, '.');
    if d < body.len() {
        (body.subrange(0, d as int), body.subrange(d as int + 1, body.len() as int))
    } else {
        (body, Seq::<char>::empty())
    }
}

/// What `Decimal::parse` accepts and returns, as `(units, scale)`: an
/// optional sign, integer digits, optionally a point and fractional digits,
/// at least one digit in all, at most 18 fractional digits, and a value
/// whose units fit in an `i64`.
pub open spec fn parse_decimal_spec(t: Seq<char>) -> Option<(int, nat)> {
    let (neg, body) = split_sign(t);
    let (ip, fp) = split_point(body);
    let mag = digits_value(ip + fp);
    let units = if neg {
        -mag
    } else {
        mag as int
    };
    if all_digits(ip) && all_digits(fp) && ip.len() + fp.len() > 0 && fp.len() <= 18
        && i64::MIN <= units <= i64::MAX {
        Some((units, fp.len()))
    } else {
        None
    }
}

/// An exact decimal number `units / 10^scale`.
#[derive(Clone, Copy, Debug)]
pub struct Decimal {
    units: i64,
    scale: u8,
}

impl Decimal {
    #[verifier::type_invariant]
    spec fn scale_bounded(self) -> bool {
        self.scale <= MAX_SCALE
    }

    /// The numerator of the value.
    pub closed spec fn num(self) -> int {
        self.units as int
    }

    /// The power of ten the numerator is divided by.
    pub closed spec fn exp(self) -> nat {
        self.scale as nat
    }

    /// `self < other` as numbers.
    pub open spec fn value_lt(self, other: Decimal) -> bool {
        self.num() * pow10(other.exp()) < other.num() * pow10(self.exp())
    }

    /// `self == other` as numbers.
    pub open spec fn value_eq(self, other: Decimal) -> bool {
        self.num() * pow10(other.exp()) == other.num() * pow10(self.exp())
    }

    /// `self <= other` as numbers.
    pub open spec fn value_le(self, other: Decimal) -> bool {
        self.num() * pow10(other.exp()) <= other.num() * pow10(self.exp())
    }

    /// The value is strictly positive.
    pub open spec fn is_pos(self) -> bool {
        self.num() > 0
    }

    /// The value is strictly negative.
    pub open spec fn is_neg(self) -> bool {
        self.num() < 0
    }

    /// The value lies in the closed range `0..=100`.
    pub open spec fn is_percent(self) -> bool {
        0 <= self.num() <= 100 * pow10(self.exp())
    }

    /// Shortest decimal text of the value.
    pub open spec fn text(self) -> Seq<char> {
        decimal_text(self.num(), self.exp())
    }

    /// The value truncated toward zero, with negative values giving 0.
    pub open spec fn trunc_nat(self) -> nat {
        if self.num() <= 0 {
            0
        } else {
            (self.num() / pow10(self.exp()) as int) as nat
        }
    }

    /// The decimal `units / 10^scale`, as a value in specifications.
    pub closed spec fn of(units: i64, scale: u8) -> Decimal {
        Decimal { units, scale }
    }

    /// `units / 10^scale`.
    pub fn new(units: i64, scale: u8) -> (d: Decimal)
        requires
            scale <= MAX_SCALE,
        ensures
            d.num() == units,
            d.exp() == scale,
            d == Decimal::of(units, scale),
    {
        Decimal { units, scale }
    }

    /// The integer `n`.
    pub fn from_int(n: i64) -> (d: Decimal)
        ensures
            d.num() == n,
            d.exp() == 0,
            d == Decimal::of(n, 0),
    {
        Decimal { units: n, scale: 0 }
    }

    /// Zero.
    pub fn zero() -> (d: Decimal)
        ensures
            d.num() == 0,
            d.exp() == 0,
    {
        Decimal { units: 0, scale: 0 }
    }

    /// The numerator.
    pub fn units(&self) -> (r: i64)
        ensures
            r == self.num(),
    {
        self.units
    }

    /// The number of fractional digits.
    pub fn scale(&self) -> (r: u8)
        ensures
            r == self.exp(),
    {
        self.scale
    }

    /// Whether the value is strictly positive.
    pub fn is_positive(&self) -> (r: bool)
        ensures
            r == self.is_pos(),
    {
        self.units > 0
    }

    /// Whether the value is strictly negative.
    pub fn is_negative(&self) -> (r: bool)
        ensures
            r == self.is_neg(),
    {
        self.units < 0
    }

    /// `self * 10^other.scale` and `other * 10^self.scale`, the two sides of
    /// every comparison.
    fn cross(&self, other: &Decimal) -> (r: (i128, i128))
        ensures
            r.0 == self.num() * pow10(other.exp()),
            r.1 == other.num() * pow10(self.exp()),
    {
        proof {
            use_type_invariant(self);
            use_type_invariant(other);
        }
        let pa = pow10_u64(other.scale);
        let pb = pow10_u64(self.scale);
        proof {
            lemma_pow10_bounds(other.scale as nat, 18);
            lemma_pow10_bounds(self.scale as nat, 18);
            lemma_pow10_18();
            let a = self.units as int;
            let b = other.units as int;
            let x = pa as int;
            let y = pb as int;
            assert(-9_223_372_036_854_775_808 <= a <= 9_223_372_036_854_775_807);
            assert(1 <= x <= 1_000_000_000_000_000_000);
            assert(-9_223_372_036_854_775_808_000_000_000_000_000_000 <= a * x
                <= 9_223_372_036_854_775_807_000_000_000_000_000_000) by (nonlinear_arith)
                requires
                    -9_223_372_036_854_775_808 <= a <= 9_223_372_036_854_775_807,
                    1 <= x <= 1_000_000_000_000_000_000,
            ;
            assert(-9_223_372_036_854_775_808_000_000_000_000_000_000 <= b * y
                <= 9_223_372_036_854_775_807_000_000_000_000_000_000) by (nonlinear_arith)
                requires
                    -9_223_372_036_854_775_808 <= b <= 9_223_372_036_854_775_807,
                    1 <= y <= 1_000_000_000_000_000_000,
            ;
        }
        let a = (self.units as i128) * (pa as i128);
        let b = (other.units as i128) * (pb as i128);
        (a, b)
    }

    /// `self < other` as numbers.
    pub fn less_than(&self, other: &Decimal) -> (r: bool)
        ensures
            r == self.value_lt(*other),
    {
        let (a, b) = self.cross(other);
        a < b
    }

    /// `self <= other` as numbers.
    pub fn at_most(&self, other: &Decimal) -> (r: bool)
        ensures
            r == self.value_le(*other),
    {
        let (a, b) = self.cross(other);
        a <= b
    }

    /// `self == other` as numbers.
    pub fn same_value(&self, other: &Decimal) -> (r: bool)
        ensures
            r == self.value_eq(*other),
    {
        let (a, b) = self.cross(other);
        a == b
    }

    /// Whether `0 <= self <= 100`.
    pub fn is_percentage(&self) -> (r: bool)
        ensures
            r == self.is_percent(),
    {
        proof {
            use_type_invariant(self);
            lemma_pow10_bounds(self.scale as nat, 18);
            lemma_pow10_18();
        }
        if self.units < 0 {
            return false;
        }
        let p = pow10_u64(self.scale);
        let u = self.units as u128;
        u <= 100u128 * (p as u128)
    }

    /// The value truncated toward zero; negative values give 0.
    pub fn trunc_u64(&self) -> (r: u64)
        ensures
            r == self.trunc_nat(),
    {
        proof {
            use_type_invariant(self);
        }
        if self.units <= 0 {
            return 0;
        }
        let p = pow10_u64(self.scale);
        proof {
            lemma_pow10_bounds(self.scale as nat, 18);
        }
        (self.units as u64) / p
    }

    /// Shortest decimal text of the value, as `{}` prints a number.
    pub fn to_string(&self) -> (s: String)
        ensures
            s@ == self.text(),
    {
        let mut s = String::new();
        self.write_to(&mut s);
        assert(s@ == Seq::<char>::empty() + self.text());
        s
    }

    /// Appends the text of the value to `out`.
    pub fn write_to(&self, out: &mut String)
        ensures
            final(out)@ == old(out)@ + self.text(),
    {
        proof {
            use_type_invariant(self);
        }
        let neg = self.units < 0;
        let a: u64 = if neg {
            ((-(self.units + 1)) as u64) + 1
        } else {
            self.units as u64
        };
        assert(a == abs_int(self.num()));
        let mut n = a;
        let mut s = self.scale;
        while s > 0 && n % 10 == 0
            invariant
                s <= MAX_SCALE,
                strip_zeros(n as nat, s as nat) == strip_zeros(a as nat, self.scale as nat),
            decreases s,
        {
            n = n / 10;
            s = s - 1;
        }
        let ghost start = out@;
        if neg {
            push_char(out, '-');
        }
        let ghost signed = out@;
        proof {
            lemma_pow10_bounds(s as nat, 18);
            lemma_pow10_18();
        }
        if s == 0 {
            crate::text::push_u64(out, n);
        } else {
            let p = pow10_u64(s);
            crate::text::push_u64(out, n / p);
            push_char(out, '.');
            let frac = digits_vec(n % p);
            let mut k: usize = frac.len();
            while k < s as usize
                invariant
                    frac.len() <= k <= s as usize || (k == frac.len() && frac.len() >= s),
                    out@ == signed + nat_digits((n / p) as nat) + seq!['.'] + Seq::new(
                        (k - frac.len()) as nat,
                        |_i: int| '0',
                    ),
                decreases s as usize - k,
            {
                let ghost before = out@;
                push_char(out, '0');
                k = k + 1;
                assert(Seq::new((k - frac.len()) as nat, |_i: int| '0') =~= Seq::new(
                    (k - 1 - frac.len()) as nat,
                    |_i: int| '0',
                ).push('0'));
            }
            push_chars(out, &frac);
            proof {
                if frac.len() < s as nat {
                    assert(k == s as usize);
                } else {
                    assert(Seq::new((k - frac.len()) as nat, |_i: int| '0') =~= Seq::<
                        char,
                    >::empty());
                }
            }
        }
        proof {
            let sign = if self.num() < 0 {
                seq!['-']
            } else {
                Seq::<char>::empty()
            };
            assert(signed == start + sign);
            assert(strip_zeros(abs_int(self.num()), self.exp()) == (n as nat, s as nat));
        }
    }

    /// Reads a decimal literal: optional sign, digits, optional point and
    /// fractional digits (at most 18), as `parse_decimal_spec` describes.
    pub fn parse(t: &str) -> (r: Option<Decimal>)
        ensures
            match parse_decimal_spec(t@) {
                Some((u, s)) => r matches Some(d) && d.num() == u && d.exp() == s,
                None => r is None,
            },
    {
        let v = chars_of(t);
        let mut neg = false;
        let mut start: usize = 0;
        if v.len() > 0 && v[0] == '-' {
            neg = true;
            start = 1;
        } else if v.len() > 0 && v[0] == '+' {
            start = 1;
        }
        let body = subvec(&v, start, v.len());
        assert(split_sign(t@) == (neg, body@)) by {
            if start == 1 {
                assert(body@ =~= t@.drop_first());
            } else {
                assert(body@ =~= t@);
            }
        }
        let d = find_first(&body, '.');
        let ip = subvec(&body, 0, d);
        let fp = if d < body.len() {
            subvec(&body, d + 1, body.len())
        } else {
            Vec::new()
        };
        assert(split_point(body@) == (ip@, fp@)) by {
            if d >= body.len() {
                assert(ip@ =~= body@);
                assert(fp@ =~= Seq::<char>::empty());
            }
        }
        if !vec_all_digits(&ip) || !vec_all_digits(&fp) {
            return None;
        }
        if ip.len() == 0 && fp.len() == 0 {
            return None;
        }
        if fp.len() > 18 {
            return None;
        }
        let joined = concat_vec(&ip, &fp);
        let mag = match digits_value_u64(&joined) {
            Some(m) => m,
            None => {
                return None;
            },
        };
        if neg {
            if mag > 9_223_372_036_854_775_808u64 {
                return None;
            }
            let units: i64 = if mag == 9_223_372_036_854_775_808u64 {
                i64::MIN
            } else {
                -(mag as i64)
            };
            Some(Decimal { units, scale: fp.len() as u8 })
        } else {
            if mag > 9_223_372_036_854_775_807u64 {
                return None;
            }
            Some(Decimal { units: mag as i64, scale: fp.len() as u8 })
        }
    }
}

/// `10^n` for `n <= 19`.
pub fn pow10_u64(n: u8) -> (r: u64)
    requires
        n <= 19,
    ensures
        r == pow10(n as nat),
{
    let mut r: u64 = 1;
    let mut i: u8 = 0;
    proof {
        reveal_with_fuel(pow10, 20);
    }
    while i < n
        invariant
            i <= n <= 19,
            r == pow10(i as nat),
        decreases n - i,
    {
        proof {
            lemma_pow10_bounds((i + 1) as nat, 19);
            assert(pow10(19) == 10_000_000_000_000_000_000nat) by {
                reveal_with_fuel(pow10, 20);
            }
            assert(pow10((i + 1) as nat) == 10 * pow10(i as nat));
        }
        r = r * 10;
        i = i + 1;
    }
    r
}

/// The decimal digits of `n`.
pub fn digits_vec(n: u64) -> (v: Vec<char>)
    ensures
        v@ == nat_digits(n as nat),
    decreases n,
{
    let mut v = if n >= 10 {
        digits_vec(n / 10)
    } else {
        Vec::new()
    };
    v.push(digit_to_char(n % 10));
    v
}

} // verus!
