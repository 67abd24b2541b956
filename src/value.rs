//! Literal values and their canonical text.
use vstd::prelude::*;

verus! {

/// The character of a decimal digit `d < 10`.
pub open spec fn digit_char(d: nat) -> char {
    if d == 0 {
        '0'
    } else if d == 1 {
        '1'
    } else if d == 2 {
        '2'
    } else if d == 3 {
        '3'
    } else if d == 4 {
        '4'
    } else if d == 5 {
        '5'
    } else if d == 6 {
        '6'
    } else if d == 7 {
        '7'
    } else if d == 8 {
        '8'
    } else {
        '9'
    }
}

/// Decimal digits of `n`, most significant first, without leading zeros ("0" for zero).
pub open spec fn digits_of(n: nat) -> Seq<char>
    decreases n,
{
    if n < 10 {
        seq![digit_char(n)]
    } else {
        digits_of(n / 10).push(digit_char(n % 10))
    }
}

/// Decimal text of an integer, with a leading `-` when it is negative.
pub open spec fn int_text(i: int) -> Seq<char> {
    if i < 0 {
        seq!['-'] + digits_of((-i) as nat)
    } else {
        digits_of(i as nat)
    }
}

fn digit_str(d: u64) -> (r: &'static str)
    requires
        d < 10,
    ensures
        r@ == seq![digit_char(d as nat)],
{
    proof {
        reveal_strlit("0");
        reveal_strlit("1");
        reveal_strlit("2");
        reveal_strlit("3");
        reveal_strlit("4");
        reveal_strlit("5");
        reveal_strlit("6");
        reveal_strlit("7");
        reveal_strlit("8");
        reveal_strlit("9");
    }
    if d == 0 {
        "0"
    } else if d == 1 {
        "1"
    } else if d == 2 {
        "2"
    } else if d == 3 {
        "3"
    } else if d == 4 {
        "4"
    } else if d == 5 {
        "5"
    } else if d == 6 {
        "6"
    } else if d == 7 {
        "7"
    } else if d == 8 {
        "8"
    } else {
        "9"
    }
}

/// Appends the decimal digits of `n`.
pub fn write_nat(out: &mut String, n: u64)
    ensures
        final(out)@ == old(out)@ + digits_of(n as nat),
    decreases n,
{
    if n >= 10 {
        write_nat(out, n / 10);
    }
    out.append(digit_str(n % 10));
    proof {
        assert(final(out)@ =~= old(out)@ + digits_of(n as nat));
    }
}

/// Appends the decimal text of `i`.
pub fn write_int(out: &mut String, i: i64)
    ensures
        final(out)@ == old(out)@ + int_text(i as int),
{
    if i < 0 {
        proof {
            reveal_strlit("-");
        }
        out.append("-");
        let m: u64 = (0i128 - i as i128) as u64;
        write_nat(out, m);
        proof {
            assert(final(out)@ =~= old(out)@ + int_text(i as int));
        }
    } else {
        write_nat(out, i as u64);
    }
}

/// The integer part of `n / 10^s`.
pub open spec fn shifted(n: nat, s: nat) -> nat
    decreases s,
{
    if s == 0 {
        n
    } else {
        shifted(n / 10, (s - 1) as nat)
    }
}

/// The `s` lowest decimal digits of `n`, zero-padded, most significant first.
pub open spec fn low_digits(n: nat, s: nat) -> Seq<char>
    decreases s,
{
    if s == 0 {
        Seq::empty()
    } else {
        low_digits(n / 10, (s - 1) as nat).push(digit_char(n % 10))
    }
}

/// The number of fraction digits left once trailing zeros are dropped from
/// `n / 10^s`.
pub open spec fn trimmed_scale(n: nat, s: nat) -> nat
    decreases s,
{
    if s > 0 && n % 10 == 0 {
        trimmed_scale(n / 10, (s - 1) as nat)
    } else {
        s
    }
}

/// The magnitude left once trailing zeros are dropped from `n / 10^s`.
pub open spec fn trimmed_magnitude(n: nat, s: nat) -> nat
    decreases s,
{
    if s > 0 && n % 10 == 0 {
        trimmed_magnitude(n / 10, (s - 1) as nat)
    } else {
        n
    }
}

/// Text of the non-negative number `n / 10^s` with exactly `s` fraction digits.
pub open spec fn fixed_point_text(n: nat, s: nat) -> Seq<char> {
    if s == 0 {
        digits_of(n)
    } else {
        digits_of(shifted(n, s)) + seq!['.'] + low_digits(n, s)
    }
}

/// Text of the decimal `m / 10^s`: a `-` when it is negative, the integer part,
/// then a point and the fraction digits, trailing zeros of the fraction
/// dropped (and the point with them when none remain).
pub open spec fn decimal_text(m: int, s: nat) -> Seq<char> {
    let n: nat = if m < 0 { (-m) as nat } else { m as nat };
    let t = fixed_point_text(trimmed_magnitude(n, s), trimmed_scale(n, s));
    if m < 0 { seq!['-'] + t } else { t }
}

/// A decimal number `mantissa / 10^scale`: the form in which a non-integer
/// number enters a query.
#[derive(Debug, Clone, Copy, PartialEq, Eq)]
pub struct Decimal {
    pub mantissa: i64,
    pub scale: u8,
}

impl Decimal {
    /// The number `mantissa / 10^scale`.
    pub fn new(mantissa: i64, scale: u8) -> (r: Decimal)
        ensures
            r.mantissa == mantissa,
            r.scale == scale,
    {
        Decimal { mantissa, scale }
    }

    /// The canonical text of this number.
    pub open spec fn text(self) -> Seq<char> {
        decimal_text(self.mantissa as int, self.scale as nat)
    }

    /// Appends the canonical text of this number.
    pub fn write_to(&self, out: &mut String)
        ensures
            final(out)@ == old(out)@ + self.text(),
    {
        let neg = self.mantissa < 0;
        let mut n: u64 = if neg { (0i128 - self.mantissa as i128) as u64 } else { self.mantissa as u64 };
        let mut s: u8 = self.scale;
        let ghost n0: nat = n as nat;
        while s > 0 && n % 10 == 0
            invariant
                trimmed_scale(n0, self.scale as nat) == trimmed_scale(n as nat, s as nat),
                trimmed_magnitude(n0, self.scale as nat) == trimmed_magnitude(n as nat, s as nat),
            decreases s,
        {
            n = n / 10;
            s = s - 1;
        }
        if neg {
            proof {
                reveal_strlit("-");
            }
            out.append("-");
        }
        write_fixed_point(out, n, s);
        proof {
            assert(final(out)@ =~= old(out)@ + self.text());
        }
    }
}

/// Appends `n / 10^s` with exactly `s` fraction digits.
fn write_fixed_point(out: &mut String, n: u64, s: u8)
    ensures
        final(out)@ == old(out)@ + fixed_point_text(n as nat, s as nat),
{
    if s == 0 {
        write_nat(out, n);
    } else {
        let mut high: u64 = n;
        let mut i: u8 = 0;
        while i < s
            invariant
                i <= s,
                shifted(n as nat, s as nat) == shifted(high as nat, (s - i) as nat),
            decreases s - i,
        {
            high = high / 10;
            i = i + 1;
        }
        write_nat(out, high);
        proof {
            reveal_strlit(".");
        }
        out.append(".");
        write_low_digits(out, n, s);
        proof {
            assert(final(out)@ =~= old(out)@ + fixed_point_text(n as nat, s as nat));
        }
    }
}

/// Appends the `s` lowest decimal digits of `n`, zero-padded.
fn write_low_digits(out: &mut String, n: u64, s: u8)
    ensures
        final(out)@ == old(out)@ + low_digits(n as nat, s as nat),
    decreases s,
{
    if s > 0 {
        write_low_digits(out, n / 10, s - 1);
        out.append(digit_str(n % 10));
        proof {
            assert(final(out)@ =~= old(out)@ + low_digits(n as nat, s as nat));
        }
    }
}

/// A scalar literal of a query.
#[derive(Debug, Clone, Copy)]
pub enum Value<'a> {
    Str(&'a str),
    Int(i32),
    Float(Decimal),
    Bool(bool),
}

/// The literal text of a value: text in double quotes, verbatim (nothing is
/// escaped); numbers in decimal; `true` or `false`.
pub open spec fn value_text(v: Value) -> Seq<char> {
    match v {
        Value::Str(s) => seq!['"'] + s@ + seq!['"'],
        Value::Int(i) => int_text(i as int),
        Value::Float(d) => d.text(),
        Value::Bool(b) => if b { "true"@ } else { "false"@ },
    }
}

impl<'a> Value<'a> {
    /// The literal text of this value.
    pub open spec fn text(self) -> Seq<char> {
        value_text(self)
    }

    /// Appends the literal text of this value.
    pub fn write_to(&self, out: &mut String)
        ensures
            final(out)@ == old(out)@ + self.text(),
    {
        match self {
            Value::Str(s) => {
                proof {
                    reveal_strlit("\"");
                }
                out.append("\"");
                out.append(s);
                out.append("\"");
                proof {
                    assert(final(out)@ =~= old(out)@ + self.text());
                }
            },
            Value::Int(i) => write_int(out, *i as i64),
            Value::Float(d) => d.write_to(out),
            Value::Bool(b) => {
                if *b {
                    out.append("true");
                } else {
                    out.append("false");
                }
            },
        }
    }

    /// The literal text of this value.
    pub fn to_string(&self) -> (r: String)
        ensures
            r@ == self.text(),
    {
        let mut out = String::new();
        self.write_to(&mut out);
        out
    }
}

impl<'a> From<&'a str> for Value<'a> {
    fn from(v: &'a str) -> (r: Value<'a>)
        ensures
            r == Value::Str(v),
    {
        Value::Str(v)
    }
}

impl<'a> vstd::std_specs::convert::FromSpecImpl<&'a str> for Value<'a> {
    open spec fn obeys_from_spec() -> bool {
        true
    }

    open spec fn from_spec(v: &'a str) -> Value<'a> {
        Value::Str(v)
    }
}

impl<'a> From<i32> for Value<'a> {
    fn from(v: i32) -> (r: Value<'a>)
        ensures
            r == Value::Int(v),
    {
        Value::Int(v)
    }
}

impl<'a> vstd::std_specs::convert::FromSpecImpl<i32> for Value<'a> {
    open spec fn obeys_from_spec() -> bool {
        true
    }

    open spec fn from_spec(v: i32) -> Value<'a> {
        Value::Int(v)
    }
}

impl<'a> From<Decimal> for Value<'a> {
    fn from(v: Decimal) -> (r: Value<'a>)
        ensures
            r == Value::Float(v),
    {
        Value::Float(v)
    }
}

impl<'a> vstd::std_specs::convert::FromSpecImpl<Decimal> for Value<'a> {
    open spec fn obeys_from_spec() -> bool {
        true
    }

    open spec fn from_spec(v: Decimal) -> Value<'a> {
        Value::Float(v)
    }
}

impl<'a> From<bool> for Value<'a> {
    fn from(v: bool) -> (r: Value<'a>)
        ensures
            r == Value::Bool(v),
    {
        Value::Bool(v)
    }
}

impl<'a> vstd::std_specs::convert::FromSpecImpl<bool> for Value<'a> {
    open spec fn obeys_from_spec() -> bool {
        true
    }

    open spec fn from_spec(v: bool) -> Value<'a> {
        Value::Bool(v)
    }
}

/// Comma-joined literal texts of a sequence of values (empty for none).
pub open spec fn list_text(vs: Seq<Value>) -> Seq<char>
    decreases vs.len(),
{
    if vs.len() == 0 {
        Seq::empty()
    } else if vs.len() == 1 {
        value_text(vs[0])
    } else {
        list_text(vs.drop_last()) + seq![','] + value_text(vs.last())
    }
}

/// A borrowed list of values, the operand of a set condition.
#[derive(Debug, Clone, Copy)]
pub struct ValueSlice<'a>(pub &'a [Value<'a>]);

impl<'a> ValueSlice<'a> {
    /// The values of the list, in order.
    pub open spec fn values(self) -> Seq<Value<'a>> {
        self.0@
    }

    /// The comma-joined literal texts of the values.
    pub open spec fn text(self) -> Seq<char> {
        list_text(self.values())
    }

    /// Appends the comma-joined literal texts of the values.
    pub fn write_to(&self, out: &mut String)
        ensures
            final(out)@ == old(out)@ + self.text(),
    {
        let vs = self.0;
        let mut i: usize = 0;
        while i < vs.len()
            invariant
                i <= vs@.len(),
                vs@ == self.values(),
                out@ == old(out)@ + list_text(vs@.subrange(0, i as int)),
            decreases vs@.len() - i,
        {
            let ghost before = out@;
            if i > 0 {
                out.append(",");
            }
            vs[i].write_to(out);
            proof {
                let sub = vs@.subrange(0, i as int + 1);
                assert(sub.drop_last() =~= vs@.subrange(0, i as int));
                assert(sub.last() == vs@[i as int]);
                if i == 0 {
                    assert(out@ =~= old(out)@ + list_text(sub));
                } else {
                    reveal_strlit(",");
                    assert(","@ =~= seq![',']);
                    assert(list_text(sub) == list_text(sub.drop_last()) + seq![','] + value_text(sub.last()));
                    assert(out@ =~= before + seq![','] + value_text(vs@[i as int]));
                    assert(out@ =~= old(out)@ + list_text(sub));
                }
            }
            i = i + 1;
        }
        proof {
            assert(vs@.subrange(0, vs@.len() as int) =~= vs@);
        }
    }

    /// The comma-joined literal texts of the values.
    pub fn to_string(&self) -> (r: String)
        ensures
            r@ == self.text(),
    {
        let mut out = String::new();
        self.write_to(&mut out);
        out
    }
}

impl<'a> From<&'a [Value<'a>]> for ValueSlice<'a> {
    fn from(v: &'a [Value<'a>]) -> (r: ValueSlice<'a>)
        ensures
            r.values() == v@,
    {
        ValueSlice(v)
    }
}

impl<'a> vstd::std_specs::convert::FromSpecImpl<&'a [Value<'a>]> for ValueSlice<'a> {
    open spec fn obeys_from_spec() -> bool {
        true
    }

    open spec fn from_spec(v: &'a [Value<'a>]) -> ValueSlice<'a> {
        ValueSlice(v)
    }
}

} // verus!
