use vstd::prelude::*;

use crate::error::ParseError;

verus! {

/// Largest magnitude (exclusive) of a decimal's significand.
pub const MANTISSA_LIMIT: i64 = 1_000_000_000_000_000_000;

/// Bound (exclusive) on the exponent digits and fraction length that number text may hold.
pub const TEXT_EXPONENT_LIMIT: u64 = 1_000_000_000;

/// An exact decimal number `mantissa * 10^exponent`, kept in its shortest form, so that two
/// decimals are equal exactly when their values are.
#[derive(Debug, Clone, Copy, PartialEq, Eq, Structural)]
pub struct Decimal {
    mantissa: i64,
    exponent: i64,
}

pub open spec fn abs(x: int) -> nat {
    if x < 0 {
        (-x) as nat
    } else {
        x as nat
    }
}

/// Removes trailing decimal zeros from a magnitude, raising the exponent for each.
pub open spec fn strip_zeros(m: nat, e: int) -> (nat, int)
    decreases m,
{
    if m != 0 && m % 10 == 0 {
        strip_zeros(m / 10, e + 1)
    } else {
        (m, e)
    }
}

/// The shortest form of `m * 10^e`; zero has exponent zero.
pub open spec fn normal_form(m: int, e: int) -> (int, int) {
    if m == 0 {
        (0, 0)
    } else {
        let (a, f) = strip_zeros(abs(m), e);
        (if m < 0 {
            -a
        } else {
            a as int
        }, f)
    }
}

impl Decimal {
    pub closed spec fn spec_mantissa(self) -> int {
        self.mantissa as int
    }

    pub closed spec fn spec_exponent(self) -> int {
        self.exponent as int
    }

    /// The representation is the shortest one and its significand is in range.
    pub open spec fn wf(self) -> bool {
        &&& abs(self.spec_mantissa()) < MANTISSA_LIMIT
        &&& (self.spec_mantissa() == 0 ==> self.spec_exponent() == 0)
        &&& (self.spec_mantissa() != 0 ==> self.spec_mantissa() % 10 != 0)
    }

    /// The same value with its decimal point moved `k` places to the right.
    pub open spec fn shifted(self, k: int) -> (int, int) {
        if self.spec_mantissa() == 0 {
            (0, 0)
        } else {
            (self.spec_mantissa(), self.spec_exponent() + k)
        }
    }

    /// The decimal `mantissa * 10^exponent`, brought to its shortest form.
    pub fn new(mantissa: i64, exponent: i64) -> (r: Decimal)
        requires
            abs(mantissa as int) < MANTISSA_LIMIT,
            exponent <= i64::MAX - MANTISSA_LIMIT,
        ensures
            (r.spec_mantissa(), r.spec_exponent()) == normal_form(mantissa as int, exponent as int),
            r.wf(),
            mantissa != 0 ==> exponent <= r.spec_exponent() < exponent + MANTISSA_LIMIT,
    {
        if mantissa == 0 {
            return Decimal { mantissa: 0, exponent: 0 };
        }
        let negative = mantissa < 0;
        let mut mag: i64 = if negative {
            -mantissa
        } else {
            mantissa
        };
        let mut e: i64 = exponent;
        while mag % 10 == 0
            invariant
                0 < mag < MANTISSA_LIMIT,
                abs(mantissa as int) < MANTISSA_LIMIT,
                exponent <= e,
                e - exponent <= abs(mantissa as int) - mag,
                exponent <= i64::MAX - MANTISSA_LIMIT,
                strip_zeros(mag as nat, e as int) == strip_zeros(
                    abs(mantissa as int),
                    exponent as int,
                ),
            decreases mag,
        {
            mag = mag / 10;
            e = e + 1;
        }
        let m = if negative {
            -mag
        } else {
            mag
        };
        Decimal { mantissa: m, exponent: e }
    }

    pub fn mantissa(&self) -> (r: i64)
        ensures
            r == self.spec_mantissa(),
    {
        self.mantissa
    }

    pub fn exponent(&self) -> (r: i64)
        ensures
            r == self.spec_exponent(),
    {
        self.exponent
    }

    /// The same value with its decimal point moved `k` places to the right.
    fn shift(&self, k: i64) -> (r: Decimal)
        requires
            self.wf(),
            -MANTISSA_LIMIT <= k <= MANTISSA_LIMIT,
            i64::MIN + MANTISSA_LIMIT <= self.spec_exponent() <= i64::MAX - MANTISSA_LIMIT,
        ensures
            (r.spec_mantissa(), r.spec_exponent()) == self.shifted(k as int),
            r.wf(),
    {
        if self.mantissa == 0 {
            *self
        } else {
            Decimal { mantissa: self.mantissa, exponent: self.exponent + k }
        }
    }
}


pub open spec fn is_digit(c: char) -> bool {
    '0' <= c && c <= '9'
}

/// The number that a run of decimal digits spells.
pub open spec fn digits_value(s: Seq<char>) -> int
    decreases s.len(),
{
    if s.len() == 0 {
        0
    } else {
        digits_value(s.drop_last()) * 10 + (s.last() as int - '0' as int)
    }
}

/// Where the run of digits that starts at `i` ends.
pub open spec fn run_end(s: Seq<char>, i: int) -> int
    decreases s.len() - i,
{
    if 0 <= i < s.len() && is_digit(s[i]) {
        run_end(s, i + 1)
    } else {
        i
    }
}

pub open spec fn cap(x: int) -> int {
    if x < MANTISSA_LIMIT {
        x
    } else {
        MANTISSA_LIMIT as int
    }
}

/// The value of a JSON number literal, `-?D+(.D+)?([eE][+-]?D+)?`: its digits without the
/// point make the significand, the fraction length lowers the exponent. No value where the
/// text deviates, where the significand digits reach `MANTISSA_LIMIT`, or where the exponent
/// digits or the fraction length reach `TEXT_EXPONENT_LIMIT`.
pub open spec fn decimal_of_text(s: Seq<char>) -> Option<(int, int)> {
    let start: int = if s.len() > 0 && s[0] == '-' {
        1
    } else {
        0
    };
    let int_end = run_end(s, start);
    let has_frac = int_end < s.len() && s[int_end] == '.';
    let frac_start = if has_frac {
        int_end + 1
    } else {
        int_end
    };
    let frac_end = run_end(s, frac_start);
    let has_exp = frac_end < s.len() && (s[frac_end] == 'e' || s[frac_end] == 'E');
    let exp_signed = has_exp && frac_end + 1 < s.len() && (s[frac_end + 1] == '+' || s[frac_end
        + 1] == '-');
    let exp_negative = exp_signed && s[frac_end + 1] == '-';
    let exp_start = if !has_exp {
        frac_end
    } else if exp_signed {
        frac_end + 2
    } else {
        frac_end + 1
    };
    let exp_end = run_end(s, exp_start);
    let magnitude = digits_value(s.subrange(start, int_end) + s.subrange(frac_start, frac_end));
    let exp_magnitude = digits_value(s.subrange(exp_start, exp_end));
    let frac_len = frac_end - frac_start;
    if int_end == start || (has_frac && frac_len == 0) || (has_exp && exp_end == exp_start)
        || exp_end != s.len() || magnitude >= MANTISSA_LIMIT || exp_magnitude
        >= TEXT_EXPONENT_LIMIT || frac_len >= TEXT_EXPONENT_LIMIT {
        None
    } else {
        Some(
            normal_form(
                if start == 1 {
                    -magnitude
                } else {
                    magnitude
                },
                (if exp_negative {
                    -exp_magnitude
                } else {
                    exp_magnitude
                }) - frac_len,
            ),
        )
    }
}

proof fn lemma_digits_push(p: Seq<char>, t: Seq<char>, c: char)
    ensures
        digits_value(p + t.push(c)) == digits_value(p + t) * 10 + (c as int - '0' as int),
{
    assert((p + t.push(c)).drop_last() =~= p + t);
}

proof fn lemma_digits_nonneg(s: Seq<char>)
    requires
        forall|i: int| 0 <= i < s.len() ==> is_digit(s[i]),
    ensures
        digits_value(s) >= 0,
    decreases s.len(),
{
    if s.len() > 0 {
        lemma_digits_nonneg(s.drop_last());
    }
}

/// Finds where the run of digits that starts at `i` ends.
fn scan_digits(s: &str, n: usize, i: usize) -> (r: usize)
    requires
        n == s@.len(),
        i <= n,
    ensures
        r as int == run_end(s@, i as int),
        i <= r <= n,
        forall|j: int| i <= j < r ==> is_digit(#[trigger] s@[j]),
{
    let mut j: usize = i;
    while j < n
        invariant
            n == s@.len(),
            i <= j <= n,
            run_end(s@, j as int) == run_end(s@, i as int),
            forall|k: int| i <= k < j ==> is_digit(#[trigger] s@[k]),
        decreases n - j,
    {
        let c = s.get_char(j);
        if !('0' <= c && c <= '9') {
            assert(run_end(s@, j as int) == j);
            return j;
        }
        j = j + 1;
    }
    assert(run_end(s@, j as int) == j);
    j
}

/// Extends a capped digit value by the digits of `s[from..to]`.
fn accumulate(
    s: &str,
    from: usize,
    to: usize,
    acc: u64,
    Ghost(prefix): Ghost<Seq<char>>,
) -> (r: u64)
    requires
        from <= to <= s@.len(),
        forall|j: int| from <= j < to ==> is_digit(#[trigger] s@[j]),
        forall|j: int| 0 <= j < prefix.len() ==> is_digit(#[trigger] prefix[j]),
        acc == cap(digits_value(prefix)),
    ensures
        r == cap(digits_value(prefix + s@.subrange(from as int, to as int))),
{
    let mut a: u64 = acc;
    let mut k: usize = from;
    while k < to
        invariant
            from <= k <= to <= s@.len(),
            forall|j: int| from <= j < to ==> is_digit(#[trigger] s@[j]),
            forall|j: int| 0 <= j < prefix.len() ==> is_digit(#[trigger] prefix[j]),
            a == cap(digits_value(prefix + s@.subrange(from as int, k as int))),
        decreases to - k,
    {
        let c = s.get_char(k);
        let d = (c as u32 - '0' as u32) as u64;
        proof {
            let t = s@.subrange(from as int, k as int);
            assert(s@.subrange(from as int, k + 1) =~= t.push(c));
            lemma_digits_push(prefix, t, c);
            assert forall|j: int| 0 <= j < (prefix + t).len() implies is_digit(
                #[trigger] (prefix + t)[j],
            ) by {
                if j >= prefix.len() {
                    assert((prefix + t)[j] == s@[from + j - prefix.len()]);
                }
            }
            lemma_digits_nonneg(prefix + t);
        }
        let next = a * 10 + d;
        a = if next < MANTISSA_LIMIT as u64 {
            next
        } else {
            MANTISSA_LIMIT as u64
        };
        k = k + 1;
    }
    a
}

impl Decimal {
    /// Reads a JSON number literal exactly, e.g. `1.9191678E7` or `-0.5`.
    #[verifier::rlimit(40)]
    pub fn parse(s: &str) -> (r: Result<Decimal, ParseError>)
        ensures
            match decimal_of_text(s@) {
                Some(v) => r matches Ok(d) && d.wf() && shiftable(d) && (d.spec_mantissa(),
                    d.spec_exponent()) == v,
                None => r == Err::<Decimal, ParseError>(ParseError::InvalidNumber),
            },
    {
        let n = s.unicode_len();
        let start: usize = if n > 0 && s.get_char(0) == '-' {
            1
        } else {
            0
        };
        let int_end = scan_digits(s, n, start);
        let has_frac = int_end < n && s.get_char(int_end) == '.';
        let frac_start = if has_frac {
            int_end + 1
        } else {
            int_end
        };
        let frac_end = scan_digits(s, n, frac_start);
        let has_exp = frac_end < n && (s.get_char(frac_end) == 'e' || s.get_char(frac_end) == 'E');
        let exp_signed = has_exp && frac_end + 1 < n && (s.get_char(frac_end + 1) == '+'
            || s.get_char(frac_end + 1) == '-');
        let exp_negative = exp_signed && s.get_char(frac_end + 1) == '-';
        let exp_start = if !has_exp {
            frac_end
        } else if exp_signed {
            frac_end + 2
        } else {
            frac_end + 1
        };
        let exp_end = scan_digits(s, n, exp_start);
        let frac_len = frac_end - frac_start;
        if int_end == start || (has_frac && frac_len == 0) || (has_exp && exp_end == exp_start)
            || exp_end != n || frac_len as u64 >= TEXT_EXPONENT_LIMIT {
            return Err(ParseError::InvalidNumber);
        }
        proof {
            assert(Seq::<char>::empty() + s@.subrange(start as int, int_end as int)
                =~= s@.subrange(start as int, int_end as int));
        }
        let int_part = accumulate(s, start, int_end, 0, Ghost(Seq::empty()));
        let magnitude = accumulate(
            s,
            frac_start,
            frac_end,
            int_part,
            Ghost(s@.subrange(start as int, int_end as int)),
        );
        proof {
            assert(Seq::<char>::empty() + s@.subrange(exp_start as int, exp_end as int)
                =~= s@.subrange(exp_start as int, exp_end as int));
        }
        let exp_magnitude = accumulate(s, exp_start, exp_end, 0, Ghost(Seq::empty()));
        if magnitude >= MANTISSA_LIMIT as u64 || exp_magnitude >= TEXT_EXPONENT_LIMIT {
            return Err(ParseError::InvalidNumber);
        }
        let m: i64 = if start == 1 {
            -(magnitude as i64)
        } else {
            magnitude as i64
        };
        let e0: i64 = if exp_negative {
            -(exp_magnitude as i64)
        } else {
            exp_magnitude as i64
        };
        let d = Decimal::new(m, e0 - frac_len as i64);
        assert(shiftable(d));
        Ok(d)
    }
}


/// A power, held in watts.
#[derive(Debug, Clone, Copy, PartialEq, Eq, Structural)]
pub struct Power {
    pub watts: Decimal,
}

/// An energy, held in watt-hours.
#[derive(Debug, Clone, Copy, PartialEq, Eq, Structural)]
pub struct Energy {
    pub watt_hours: Decimal,
}

/// The exponents that a unit conversion may move without leaving `i64`.
pub open spec fn shiftable(d: Decimal) -> bool {
    i64::MIN + MANTISSA_LIMIT <= d.spec_exponent() <= i64::MAX - MANTISSA_LIMIT
}

impl Power {
    pub open spec fn wf(self) -> bool {
        self.watts.wf()
    }

    pub fn from_watts(w: Decimal) -> (r: Power)
        ensures
            r.watts == w,
    {
        Power { watts: w }
    }

    /// A power given in kilowatts: the watt value is a thousand times larger.
    pub fn from_kilowatts(kw: Decimal) -> (r: Power)
        requires
            kw.wf(),
            shiftable(kw),
        ensures
            (r.watts.spec_mantissa(), r.watts.spec_exponent()) == kw.shifted(3),
            r.wf(),
    {
        Power { watts: kw.shift(3) }
    }

    /// The value in kilowatts.
    pub fn kilowatts(&self) -> (r: Decimal)
        requires
            self.wf(),
            shiftable(self.watts),
        ensures
            (r.spec_mantissa(), r.spec_exponent()) == self.watts.shifted(-3),
            r.wf(),
    {
        self.watts.shift(-3)
    }
}

impl Energy {
    pub open spec fn wf(self) -> bool {
        self.watt_hours.wf()
    }

    pub fn from_watt_hours(wh: Decimal) -> (r: Energy)
        ensures
            r.watt_hours == wh,
    {
        Energy { watt_hours: wh }
    }

    /// The value in kilowatt-hours.
    pub fn kilowatt_hours(&self) -> (r: Decimal)
        requires
            self.wf(),
            shiftable(self.watt_hours),
        ensures
            (r.spec_mantissa(), r.spec_exponent()) == self.watt_hours.shifted(-3),
            r.wf(),
    {
        self.watt_hours.shift(-3)
    }

    /// The value in megawatt-hours.
    pub fn megawatt_hours(&self) -> (r: Decimal)
        requires
            self.wf(),
            shiftable(self.watt_hours),
        ensures
            (r.spec_mantissa(), r.spec_exponent()) == self.watt_hours.shifted(-6),
            r.wf(),
    {
        self.watt_hours.shift(-6)
    }
}

/// Reads a power field that the service gives in kilowatts.
pub fn parse_power_kw(s: &str) -> (r: Result<Power, ParseError>)
    ensures
        match decimal_of_text(s@) {
            Some(v) => r matches Ok(p) && p.wf() && (p.watts.spec_mantissa(),
                p.watts.spec_exponent()) == (if v.0 == 0 {
                (0, 0)
            } else {
                (v.0, v.1 + 3)
            }),
            None => r == Err::<Power, ParseError>(ParseError::InvalidNumber),
        },
{
    let kw = Decimal::parse(s)?;
    Ok(Power::from_kilowatts(kw))
}

/// Reads an energy field that the service gives in watt-hours.
pub fn parse_energy_wh(s: &str) -> (r: Result<Energy, ParseError>)
    ensures
        match decimal_of_text(s@) {
            Some(v) => r matches Ok(en) && en.wf() && (en.watt_hours.spec_mantissa(),
                en.watt_hours.spec_exponent()) == v,
            None => r == Err::<Energy, ParseError>(ParseError::InvalidNumber),
        },
{
    let wh = Decimal::parse(s)?;
    Ok(Energy::from_watt_hours(wh))
}

} // verus!
