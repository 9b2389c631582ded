//! Values whose admissible range is part of their type.
use vstd::prelude::*;

verus! {

/// Decimal text of a natural number, most significant digit first.
pub open spec fn decimal(n: nat) -> Seq<char>
    decreases n,
{
    if n < 10 {
        seq![digit_char(n)]
    } else {
        decimal(n / 10).push(digit_char(n % 10))
    }
}

pub open spec fn digit_char(d: nat) -> char {
    if d == 0 { '0' }
    else if d == 1 { '1' }
    else if d == 2 { '2' }
    else if d == 3 { '3' }
    else if d == 4 { '4' }
    else if d == 5 { '5' }
    else if d == 6 { '6' }
    else if d == 7 { '7' }
    else if d == 8 { '8' }
    else { '9' }
}

/// Relies on std's `ToString` for `u64`: plain decimal digits, no sign, no padding.
#[verifier::external_body]
pub(crate) fn decimal_text(n: u64) -> (r: String)
    ensures
        r@ == decimal(n as nat),
{
    n.to_string()
}

/// Number of bytes in the UTF-8 encoding of `s`, as `str::len` reports it.
pub open spec fn byte_len(s: Seq<char>) -> usize {
    vstd::utf8::encode_utf8(s).len() as usize
}

pub open spec fn too_long_message(s: Seq<char>, max: nat) -> Seq<char> {
    "Provided string '"@ + s + "' of length "@ + decimal(byte_len(s) as nat) + " exceeds max length of "@
        + decimal(max)
}

/// A string of at most `N` bytes (UTF-8).
#[derive(Debug, Clone, Default)]
pub struct MaxLenString<const N: usize>(pub String);

impl<const N: usize> MaxLenString<N> {
    pub open spec fn valid(&self) -> bool {
        byte_len(self.0@) <= N
    }

    /// Accepts `s` when its byte length is at most `N`.
    pub fn try_from(s: String) -> (r: Result<Self, String>)
        ensures
            byte_len(s@) <= N ==> (r matches Ok(v) && v.0@ == s@),
            byte_len(s@) > N ==> (r matches Err(e) && e@ == too_long_message(s@, N as nat)),
    {
        let len = s.as_str().len();
        if len > N {
            let mut e = String::from_str("Provided string '");
            e.append(s.as_str());
            e.append("' of length ");
            e.append(decimal_text(len as u64).as_str());
            e.append(" exceeds max length of ");
            e.append(decimal_text(N as u64).as_str());
            Err(e)
        } else {
            Ok(MaxLenString(s))
        }
    }
}


pub open spec fn above_max_message(v: nat, max: nat) -> Seq<char> {
    "Provided int "@ + decimal(v) + " exceeds maximum value: "@ + decimal(max)
}

pub open spec fn below_min_message(v: nat, min: nat) -> Seq<char> {
    "Provided int "@ + decimal(v) + " is smaller than allowed: "@ + decimal(min)
}

pub open spec fn invalid_ttl_message(v: nat) -> Seq<char> {
    "Invalid TTL int: "@ + decimal(v)
}

/// Error text for a value outside `[min, max]`; the upper bound is checked first.
fn range_error(v: u64, min: u64, max: u64) -> (e: String)
    ensures
        v > max ==> e@ == above_max_message(v as nat, max as nat),
        v <= max ==> e@ == below_min_message(v as nat, min as nat),
{
    let mut e = String::from_str("Provided int ");
    e.append(decimal_text(v).as_str());
    if v > max {
        e.append(" exceeds maximum value: ");
        e.append(decimal_text(max).as_str());
    } else {
        e.append(" is smaller than allowed: ");
        e.append(decimal_text(min).as_str());
    }
    e
}

/// A `u16` within `MIN..=MAX`.
#[derive(Debug, Clone, Copy, Default)]
pub struct MinMaxValueU16<const MIN: u16, const MAX: u16>(pub u16);

impl<const MIN: u16, const MAX: u16> MinMaxValueU16<MIN, MAX> {
    pub open spec fn valid(&self) -> bool {
        MIN <= self.0 <= MAX
    }

    /// Accepts `i` when `MIN <= i <= MAX`; a value above `MAX` is reported as such
    /// even when it is also below `MIN`.
    pub fn try_from(i: u16) -> (r: Result<Self, String>)
        ensures
            MIN <= i <= MAX ==> r == Ok::<Self, String>(MinMaxValueU16(i)),
            i > MAX ==> (r matches Err(e) && e@ == above_max_message(i as nat, MAX as nat)),
            MAX >= i && i < MIN ==> (r matches Err(e) && e@ == below_min_message(
                i as nat,
                MIN as nat,
            )),
    {
        if i > MAX || i < MIN {
            Err(range_error(i as u64, MIN as u64, MAX as u64))
        } else {
            Ok(MinMaxValueU16(i))
        }
    }
}

/// A `u32` within `MIN..=MAX`.
#[derive(Debug, Clone, Copy, Default)]
pub struct MinMaxValueU32<const MIN: u32, const MAX: u32>(pub u32);

impl<const MIN: u32, const MAX: u32> MinMaxValueU32<MIN, MAX> {
    pub open spec fn valid(&self) -> bool {
        MIN <= self.0 <= MAX
    }

    /// Accepts `i` when `MIN <= i <= MAX`; a value above `MAX` is reported as such
    /// even when it is also below `MIN`.
    pub fn try_from(i: u32) -> (r: Result<Self, String>)
        ensures
            MIN <= i <= MAX ==> r == Ok::<Self, String>(MinMaxValueU32(i)),
            i > MAX ==> (r matches Err(e) && e@ == above_max_message(i as nat, MAX as nat)),
            MAX >= i && i < MIN ==> (r matches Err(e) && e@ == below_min_message(
                i as nat,
                MIN as nat,
            )),
    {
        if i > MAX || i < MIN {
            Err(range_error(i as u64, MIN as u64, MAX as u64))
        } else {
            Ok(MinMaxValueU32(i))
        }
    }
}

/// Whether `v` is an admissible record TTL: 1 ("automatic"), or 60 to 86400 seconds.
pub open spec fn ttl_valid(v: u32) -> bool {
    v == 1 || (60 <= v && v <= 86400)
}

/// A record TTL in seconds; 1 stands for "automatic".
#[derive(Debug, Clone, Copy, Default)]
pub struct TTLU32(pub u32);

impl TTLU32 {
    pub open spec fn valid(&self) -> bool {
        ttl_valid(self.0)
    }

    /// Accepts exactly the values of `ttl_valid`.
    pub fn try_from(v: u32) -> (r: Result<Self, String>)
        ensures
            ttl_valid(v) ==> r == Ok::<Self, String>(TTLU32(v)),
            !ttl_valid(v) ==> (r matches Err(e) && e@ == invalid_ttl_message(v as nat)),
    {
        if v == 1 || (v >= 60 && v <= 86400) {
            Ok(TTLU32(v))
        } else {
            let mut e = String::from_str("Invalid TTL int: ");
            e.append(decimal_text(v as u64).as_str());
            Err(e)
        }
    }
}

} // verus!
