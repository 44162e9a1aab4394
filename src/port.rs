//! Serial port settings written `NAME:SPEED-DATABITS-PARITY-STOPBITS`,
//! for instance `/dev/ttyUSB0:9600-8-N-1`. The data bits must be present
//! but are left to the driver's default.
use vstd::prelude::*;
use vstd::string::{StrSliceExecFns, StringExecFns};

verus! {

/// Parity of a serial line.
#[derive(Debug, Clone, Copy, PartialEq, Eq, Structural)]
pub enum Parity {
    NoParity,
    Even,
    Odd,
}

/// Stop bits of a serial line.
#[derive(Debug, Clone, Copy, PartialEq, Eq, Structural)]
pub enum StopBits {
    One,
    Two,
}

/// Why a port description was refused.
#[derive(Debug, Clone, Copy, PartialEq, Eq, Structural)]
pub enum PortSettingsError {
    NameTooShort,
    NotEnoughParameters,
    InvalidSpeed,
    InvalidParity,
    InvalidStopBits,
}

/// The settings of a serial port.
#[derive(Debug)]
pub struct PortSettings {
    pub name: String,
    pub speed: u32,
    pub parity: Parity,
    pub stop_bits: StopBits,
}

/// The first position at or after `start` that holds `c`, or the length of
/// `s` if there is none.
pub open spec fn first_from(s: Seq<char>, c: char, start: int) -> int
    decreases s.len() - start,
{
    if start >= s.len() {
        s.len() as int
    } else if s[start] == c {
        start
    } else {
        first_from(s, c, start + 1)
    }
}

/// Value of a decimal digit.
pub open spec fn digit_value(c: char) -> int {
    c as int - '0' as int
}

pub open spec fn is_digit(c: char) -> bool {
    '0' <= c <= '9'
}

/// Value of a run of decimal digits.
pub open spec fn decimal_value(s: Seq<char>) -> int
    decreases s.len(),
{
    if s.len() == 0 {
        0
    } else {
        10 * decimal_value(s.drop_last()) + digit_value(s.last())
    }
}

/// Every character is a decimal digit.
pub open spec fn all_digits(d: Seq<char>) -> bool {
    forall|i: int| 0 <= i < d.len() ==> is_digit(#[trigger] d[i])
}

/// The digits of a number, after an optional leading `+`.
pub open spec fn digits_of(s: Seq<char>) -> Seq<char> {
    if s.len() > 0 && s[0] == '+' {
        s.skip(1)
    } else {
        s
    }
}

/// An unsigned decimal number as `u32` reads it: an optional `+`, then at
/// least one digit, and a value that fits.
pub open spec fn u32_of(s: Seq<char>) -> Option<u32> {
    let d = digits_of(s);
    if d.len() > 0 && all_digits(d) && decimal_value(d) <= u32::MAX {
        Some(decimal_value(d) as u32)
    } else {
        None
    }
}

/// The settings that `s` describes: the name is what precedes the first
/// colon, and what follows it is split at dashes into speed, data bits,
/// parity and stop bits; any further fields are ignored.
pub open spec fn port_settings_of(s: Seq<char>) -> Result<
    (Seq<char>, u32, Parity, StopBits),
    PortSettingsError,
> {
    let k0 = first_from(s, ':', 0);
    let k1 = first_from(s, '-', k0 + 1);
    let k2 = first_from(s, '-', k1 + 1);
    let k3 = first_from(s, '-', k2 + 1);
    let k4 = first_from(s, '-', k3 + 1);
    let speed = u32_of(s.subrange(k0 + 1, k1));
    let parity = s.subrange(k2 + 1, k3);
    let stop = s.subrange(k3 + 1, k4);
    if k0 < 4 {
        Err(PortSettingsError::NameTooShort)
    } else if k0 >= s.len() || k3 >= s.len() {
        Err(PortSettingsError::NotEnoughParameters)
    } else if speed is None {
        Err(PortSettingsError::InvalidSpeed)
    } else if !(parity == seq!['N'] || parity == seq!['E'] || parity == seq!['O']) {
        Err(PortSettingsError::InvalidParity)
    } else if !(stop == seq!['1'] || stop == seq!['2']) {
        Err(PortSettingsError::InvalidStopBits)
    } else {
        Ok(
            (
                s.take(k0),
                speed->Some_0,
                if parity == seq!['N'] {
                    Parity::NoParity
                } else if parity == seq!['E'] {
                    Parity::Even
                } else {
                    Parity::Odd
                },
                if stop == seq!['1'] {
                    StopBits::One
                } else {
                    StopBits::Two
                },
            ),
        )
    }
}

/// The characters of `s`.
fn chars_of(s: &str) -> (r: Vec<char>)
    ensures
        r@ == s@,
{
    let n = s.unicode_len();
    let mut out: Vec<char> = Vec::new();
    let mut i: usize = 0;
    while i < n
        invariant
            i <= n,
            n == s@.len(),
            out@ == s@.take(i as int),
        decreases n - i,
    {
        out.push(s.get_char(i));
        i = i + 1;
        assert(out@ =~= s@.take(i as int));
    }
    assert(s@.take(n as int) =~= s@);
    out
}

proof fn lemma_first_from_range(s: Seq<char>, c: char, start: int)
    requires
        0 <= start,
    ensures
        start <= s.len() ==> start <= first_from(s, c, start) <= s.len(),
        start > s.len() ==> first_from(s, c, start) == s.len(),
    decreases s.len() - start,
{
    if start < s.len() && s[start] != c {
        lemma_first_from_range(s, c, start + 1);
    }
}

/// The first position at or after `start` that holds `c`.
fn find_from(s: &Vec<char>, c: char, start: usize) -> (r: usize)
    ensures
        r == first_from(s@, c, start as int),
        start <= s@.len() ==> start <= r <= s@.len(),
        start > s@.len() ==> r == s@.len(),
{
    proof {
        lemma_first_from_range(s@, c, start as int);
    }
    let mut i = start;
    if i >= s.len() {
        return s.len();
    }
    while i < s.len()
        invariant
            start <= i <= s@.len(),
            first_from(s@, c, start as int) == first_from(s@, c, i as int),
        decreases s@.len() - i,
    {
        if s[i] == c {
            return i;
        }
        i = i + 1;
    }
    i
}

/// The characters of `s` from `from` up to `to`.
fn slice_chars(s: &Vec<char>, from: usize, to: usize) -> (r: Vec<char>)
    requires
        from <= to <= s@.len(),
    ensures
        r@ == s@.subrange(from as int, to as int),
{
    let mut out: Vec<char> = Vec::new();
    let mut i = from;
    while i < to
        invariant
            from <= i <= to,
            to <= s@.len(),
            out@ == s@.subrange(from as int, i as int),
        decreases to - i,
    {
        out.push(s[i]);
        i = i + 1;
        assert(out@ =~= s@.subrange(from as int, i as int));
    }
    out
}

proof fn lemma_decimal_push(s: Seq<char>, c: char)
    ensures
        decimal_value(s.push(c)) == 10 * decimal_value(s) + digit_value(c),
{
    assert(s.push(c).drop_last() =~= s);
}

proof fn lemma_decimal_nonneg(s: Seq<char>)
    requires
        forall|i: int| 0 <= i < s.len() ==> is_digit(#[trigger] s[i]),
    ensures
        decimal_value(s) >= 0,
    decreases s.len(),
{
    if s.len() > 0 {
        assert forall|i: int| 0 <= i < s.drop_last().len() implies is_digit(
            #[trigger] s.drop_last()[i],
        ) by {
            assert(s.drop_last()[i] == s[i]);
        }
        lemma_decimal_nonneg(s.drop_last());
    }
}

/// Reads an unsigned decimal number that fits in `u32`.
fn parse_u32(s: &Vec<char>) -> (r: Option<u32>)
    ensures
        r == u32_of(s@),
{
    let start: usize = if s.len() > 0 && s[0] == '+' {
        1
    } else {
        0
    };
    let ghost d = digits_of(s@);
    assert(d =~= s@.skip(start as int));
    if start >= s.len() {
        return None;
    }
    let big: u64 = 0x1_0000_0000;
    let mut acc: u64 = 0;
    let mut i = start;
    while i < s.len()
        invariant
            start <= i <= s@.len(),
            d == s@.skip(start as int),
            d == digits_of(s@),
            big == 0x1_0000_0000,
            forall|j: int| 0 <= j < i - start ==> is_digit(#[trigger] d[j]),
            acc as int == if decimal_value(d.take(i - start)) < big {
                decimal_value(d.take(i - start))
            } else {
                big as int
            },
        decreases s@.len() - i,
    {
        let c = s[i];
        assert(d[i - start] == c);
        if !('0' <= c && c <= '9') {
            assert(!is_digit(d[i - start]));
            assert(!all_digits(d));
            return None;
        }
        let digit = (c as u32 - '0' as u32) as u64;
        proof {
            let p = d.take(i - start);
            assert(d.take(i - start + 1) =~= p.push(c));
            lemma_decimal_push(p, c);
            assert(forall|j: int| 0 <= j < p.len() ==> is_digit(#[trigger] p[j]));
            lemma_decimal_nonneg(p);
        }
        let next = acc * 10 + digit;
        acc = if next < big {
            next
        } else {
            big
        };
        proof {
            let p = d.take(i - start);
            let v = decimal_value(p);
            let dv = digit_value(c);
            assert(0 <= dv <= 9);
            if v >= big {
                assert(10 * v + dv >= big) by (nonlinear_arith)
                    requires v >= big, dv >= 0, big > 0;
            }
        }
        i = i + 1;
    }
    assert(d.take(i - start) =~= d);
    if acc < big {
        Some(acc as u32)
    } else {
        None
    }
}

impl PortSettings {
    /// Reads a port description.
    pub fn parse(s: &str) -> (r: Result<PortSettings, PortSettingsError>)
        ensures
            match port_settings_of(s@) {
                Ok(v) => r is Ok && r->Ok_0.name@ == v.0 && r->Ok_0.speed == v.1
                    && r->Ok_0.parity == v.2 && r->Ok_0.stop_bits == v.3,
                Err(e) => r == Err::<PortSettings, PortSettingsError>(e),
            },
    {
        let chars = chars_of(s);
        let n = chars.len();
        let k0 = find_from(&chars, ':', 0);
        if k0 < 4 {
            return Err(PortSettingsError::NameTooShort);
        }
        if k0 >= n {
            return Err(PortSettingsError::NotEnoughParameters);
        }
        let k1 = find_from(&chars, '-', k0 + 1);
        if k1 >= n {
            return Err(PortSettingsError::NotEnoughParameters);
        }
        let k2 = find_from(&chars, '-', k1 + 1);
        if k2 >= n {
            return Err(PortSettingsError::NotEnoughParameters);
        }
        let k3 = find_from(&chars, '-', k2 + 1);
        if k3 >= n {
            return Err(PortSettingsError::NotEnoughParameters);
        }
        let k4 = find_from(&chars, '-', k3 + 1);
        let speed = match parse_u32(&slice_chars(&chars, k0 + 1, k1)) {
            Some(v) => v,
            None => {
                return Err(PortSettingsError::InvalidSpeed);
            },
        };
        let pfield = slice_chars(&chars, k2 + 1, k3);
        let parity = if pfield.len() == 1 && pfield[0] == 'N' {
            assert(pfield@ =~= seq!['N']);
            Parity::NoParity
        } else if pfield.len() == 1 && pfield[0] == 'E' {
            assert(pfield@ =~= seq!['E']);
            assert(pfield@ != seq!['N']);
            Parity::Even
        } else if pfield.len() == 1 && pfield[0] == 'O' {
            assert(pfield@ =~= seq!['O']);
            assert(pfield@ != seq!['N'] && pfield@ != seq!['E']);
            Parity::Odd
        } else {
            assert(!(pfield@ =~= seq!['N'] || pfield@ =~= seq!['E'] || pfield@ =~= seq!['O']));
            return Err(PortSettingsError::InvalidParity);
        };
        let stop = slice_chars(&chars, k3 + 1, k4);
        let stop_bits = if stop.len() == 1 && stop[0] == '1' {
            assert(stop@ =~= seq!['1']);
            StopBits::One
        } else if stop.len() == 1 && stop[0] == '2' {
            assert(stop@ =~= seq!['2']);
            assert(stop@ != seq!['1']);
            StopBits::Two
        } else {
            assert(!(stop@ =~= seq!['1'] || stop@ =~= seq!['2']));
            return Err(PortSettingsError::InvalidStopBits);
        };
        let name = String::from_str(s.substring_char(0, k0));
        assert(s@.subrange(0, k0 as int) =~= s@.take(k0 as int));
        Ok(PortSettings { name, speed, parity, stop_bits })
    }
}

impl std::str::FromStr for PortSettings {
    type Err = PortSettingsError;

    fn from_str(s: &str) -> Result<Self, Self::Err> {
        PortSettings::parse(s)
    }
}

} // verus!
