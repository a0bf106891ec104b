use vstd::prelude::*;

verus! {

/// The text of a single decimal digit.
pub open spec fn digit_text(d: nat) -> Seq<char> {
    if d == 0 {
        "0"@
    } else if d == 1 {
        "1"@
    } else if d == 2 {
        "2"@
    } else if d == 3 {
        "3"@
    } else if d == 4 {
        "4"@
    } else if d == 5 {
        "5"@
    } else if d == 6 {
        "6"@
    } else if d == 7 {
        "7"@
    } else if d == 8 {
        "8"@
    } else {
        "9"@
    }
}

/// The decimal digits of `n`, most significant first, with no leading zeros
/// (zero itself is written `0`).
pub open spec fn int_text(n: nat) -> Seq<char>
    decreases n,
{
    if n < 10 {
        digit_text(n)
    } else {
        int_text(n / 10) + digit_text(n % 10)
    }
}

/// The lowest `k` decimal digits of `n`, most significant first, padded with zeros.
pub open spec fn low_digits(n: nat, k: nat) -> Seq<char>
    decreases k,
{
    if k == 0 {
        Seq::empty()
    } else {
        low_digits(n / 10, (k - 1) as nat) + digit_text(n % 10)
    }
}

/// `n` with its lowest `k` decimal digits dropped.
pub open spec fn drop_digits(n: nat, k: nat) -> nat
    decreases k,
{
    if k == 0 {
        n
    } else {
        drop_digits(n / 10, (k - 1) as nat)
    }
}

/// `n / 10^k` with trailing zeros of the fraction removed: the same value
/// written with as few fraction digits as possible.
pub open spec fn trim_zeros(n: nat, k: nat) -> (nat, nat)
    decreases k,
{
    if k > 0 && n % 10 == 0 {
        trim_zeros(n / 10, (k - 1) as nat)
    } else {
        (n, k)
    }
}

/// The shortest decimal text of the non-negative number `n / 10^k`.
pub open spec fn unsigned_text(n: nat, k: nat) -> Seq<char> {
    let (m, j) = trim_zeros(n, k);
    if j == 0 {
        int_text(m)
    } else {
        int_text(drop_digits(m, j)) + "."@ + low_digits(m, j)
    }
}

/// A decimal number: `magnitude / 10^scale`, negated when `negative` holds.
///
/// Coordinates, radii and line widths are held as such numbers so that the
/// text a backend writes for them is exact.
#[derive(PartialEq, Eq, Structural, Hash, Clone, Copy, Debug)]
pub struct Decimal {
    pub negative: bool,
    pub magnitude: u64,
    pub scale: u32,
}

impl Decimal {
    /// The value as a fraction: numerator over `10^scale`.
    pub open spec fn numerator(self) -> int {
        if self.negative {
            -(self.magnitude as int)
        } else {
            self.magnitude as int
        }
    }

    /// The text of the number: a minus sign for negative non-zero values,
    /// the integer digits, and, where the value is not whole, a point and
    /// the fraction digits without trailing zeros.
    pub open spec fn text(self) -> Seq<char> {
        if self.negative && self.magnitude != 0 {
            "-"@ + unsigned_text(self.magnitude as nat, self.scale as nat)
        } else {
            unsigned_text(self.magnitude as nat, self.scale as nat)
        }
    }

    /// The number `mantissa / 10^scale`.
    pub fn new(mantissa: i64, scale: u32) -> (r: Self)
        ensures
            r.numerator() == mantissa as int,
            r.scale == scale,
            r.negative == (mantissa < 0),
    {
        if mantissa < 0 {
            let m: i64 = -(mantissa + 1);
            Decimal { negative: true, magnitude: (m as u64) + 1, scale }
        } else {
            Decimal { negative: false, magnitude: mantissa as u64, scale }
        }
    }

    /// The whole number `value`.
    pub fn from_int(value: i64) -> (r: Self)
        ensures
            r.numerator() == value as int,
            r.scale == 0,
            r.negative == (value < 0),
    {
        Self::new(value, 0)
    }

    /// Appends the text of the number to `out`.
    pub fn write_to(&self, out: &mut String)
        ensures
            final(out)@ == old(out)@ + self.text(),
    {
        if self.negative && self.magnitude != 0 {
            out.append("-");
        }
        let (m, j) = trim_exec(self.magnitude, self.scale);
        if j == 0 {
            push_int(out, m);
        } else {
            push_int(out, drop_exec(m, j));
            out.append(".");
            push_low(out, m, j);
        }
        assert(final(out)@ =~= old(out)@ + self.text());
    }

    /// The text of the number.
    pub fn to_text(&self) -> (r: String)
        ensures
            r@ == self.text(),
    {
        let mut s = String::new();
        self.write_to(&mut s);
        assert(s@ =~= self.text());
        s
    }
}

impl Default for Decimal {
    /// Zero.
    fn default() -> (r: Self)
        ensures
            r.numerator() == 0,
            r.scale == 0,
    {
        Decimal { negative: false, magnitude: 0, scale: 0 }
    }
}

/// The literal text of the digit `d`.
fn digit_str(d: u64) -> (r: &'static str)
    requires
        d < 10,
    ensures
        r@ == digit_text(d as nat),
{
    if d == 0 {
        "0"
    } else if d == 1 {
        "1"
    } else if d == 2 {
        "2"
    } else if d == 3 {
        "3"
    } else if d == 4 {
        "4"
    } else if d == 5 {
        "5"
    } else if d == 6 {
        "6"
    } else if d == 7 {
        "7"
    } else if d == 8 {
        "8"
    } else {
        "9"
    }
}

/// Appends the decimal digits of `n` to `out`.
pub fn push_int(out: &mut String, n: u64)
    ensures
        final(out)@ == old(out)@ + int_text(n as nat),
    decreases n,
{
    if n >= 10 {
        push_int(out, n / 10);
    }
    out.append(digit_str(n % 10));
    assert(final(out)@ =~= old(out)@ + int_text(n as nat));
}

/// Appends the lowest `k` digits of `n` to `out`, padded with zeros.
fn push_low(out: &mut String, n: u64, k: u32)
    ensures
        final(out)@ == old(out)@ + low_digits(n as nat, k as nat),
    decreases k,
{
    if k > 0 {
        push_low(out, n / 10, k - 1);
        out.append(digit_str(n % 10));
    }
    assert(final(out)@ =~= old(out)@ + low_digits(n as nat, k as nat));
}

/// `n` with its lowest `k` digits dropped.
fn drop_exec(n: u64, k: u32) -> (r: u64)
    ensures
        r as nat == drop_digits(n as nat, k as nat),
    decreases k,
{
    if k == 0 {
        n
    } else {
        drop_exec(n / 10, k - 1)
    }
}

/// Removes trailing zeros from the fraction of `n / 10^k`.
fn trim_exec(n: u64, k: u32) -> (r: (u64, u32))
    ensures
        (r.0 as nat, r.1 as nat) == trim_zeros(n as nat, k as nat),
    decreases k,
{
    if k > 0 && n % 10 == 0 {
        trim_exec(n / 10, k - 1)
    } else {
        (n, k)
    }
}

} // verus!
