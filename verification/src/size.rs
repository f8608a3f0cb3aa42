use vstd::prelude::*;

verus! {

/// The character for a single decimal digit.
pub open spec fn spec_digit_char(d: int) -> char {
    if d == 0 {
        '0'
    } else if d == 1 {
        '1'
    } else if d == 2 {
        '2'
    } else if d == 3 {
        '3'
    } else if d == 4 {
        '4'
    } else if d == 5 {
        '5'
    } else if d == 6 {
        '6'
    } else if d == 7 {
        '7'
    } else if d == 8 {
        '8'
    } else {
        '9'
    }
}

/// The decimal rendering of a non-negative number, most significant digit
/// first, with no leading zeros except for the number zero itself.
pub open spec fn spec_decimal(n: int) -> Seq<char>
    decreases n,
{
    if n < 10 {
        seq![spec_digit_char(n)]
    } else {
        spec_decimal(n / 10).push(spec_digit_char(n % 10))
    }
}

/// The one-character string for a single decimal digit.
fn digit_str(d: u32) -> (r: &'static str)
    requires
        d < 10,
    ensures
        r@ == seq![spec_digit_char(d as int)],
{
    proof {
        reveal_strlit("0");
        reveal_strlit("1");
        reveal_strlit("2");
        reveal_strlit("3");
        reveal_strlit("4");
        reveal_strlit("5");
        reveal_strlit("6");
        reveal_strlit("7");
        reveal_strlit("8");
        reveal_strlit("9");
    }
    let r = if d == 0 {
        "0"
    } else if d == 1 {
        "1"
    } else if d == 2 {
        "2"
    } else if d == 3 {
        "3"
    } else if d == 4 {
        "4"
    } else if d == 5 {
        "5"
    } else if d == 6 {
        "6"
    } else if d == 7 {
        "7"
    } else if d == 8 {
        "8"
    } else {
        "9"
    };
    proof {
        assert(r@ =~= seq![spec_digit_char(d as int)]);
    }
    r
}

/// The decimal rendering of a number as an owned string.
fn decimal_string(n: u32) -> (r: String)
    ensures
        r@ == spec_decimal(n as int),
    decreases n,
{
    if n < 10 {
        String::from_str(digit_str(n))
    } else {
        let mut s = decimal_string(n / 10);
        s.append(digit_str(n % 10));
        proof {
            assert(s@ =~= spec_decimal(n as int));
        }
        s
    }
}

/// An offset into a text buffer: an unsigned 32-bit value.
///
/// The maximum representable value is reserved as a sentinel meaning
/// "unbounded"; it is strictly greater than every finite offset and is never
/// a valid position itself.
#[derive(Copy, Clone, PartialEq, Eq, Structural, Hash, Debug)]
pub struct TextSize {
    /// The raw numeric value; `u32::MAX` is the sentinel.
    pub raw: u32,
}

impl TextSize {
    /// True iff this offset is the "unbounded" sentinel.
    pub open spec fn spec_is_inf(self) -> bool {
        self.raw == u32::MAX
    }

    /// The offset with the given raw numeric value.
    pub open spec fn spec_new(raw: u32) -> TextSize {
        TextSize { raw }
    }

    /// The sentinel offset.
    pub open spec fn spec_inf() -> TextSize {
        TextSize { raw: u32::MAX }
    }

    /// Wraps a raw numeric value as an offset.
    #[verifier::when_used_as_spec(spec_new)]
    pub fn new(raw: u32) -> (r: TextSize)
        ensures
            r.raw == raw,
    {
        TextSize { raw }
    }

    /// The zero offset.
    pub fn zero() -> (r: TextSize)
        ensures
            r.raw == 0,
    {
        TextSize { raw: 0 }
    }

    /// The sentinel offset, strictly greater than every finite offset.
    #[verifier::when_used_as_spec(spec_inf)]
    pub fn inf() -> (r: TextSize)
        ensures
            r.spec_is_inf(),
    {
        TextSize { raw: u32::MAX }
    }

    /// True iff this offset is the "unbounded" sentinel.
    #[verifier::when_used_as_spec(spec_is_inf)]
    pub fn is_inf(self) -> (r: bool)
        ensures
            r == self.spec_is_inf(),
    {
        self.raw == u32::MAX
    }

    /// This offset as the platform's native index type.
    pub fn as_usize(self) -> (r: usize)
        ensures
            r == self.raw as usize,
            r == self.raw as int,
    {
        self.raw as usize
    }

    /// The debug rendering of this offset: its raw value in decimal.
    pub fn to_debug_string(self) -> (r: String)
        ensures
            r@ == spec_decimal(self.raw as int),
    {
        decimal_string(self.raw)
    }

    /// An offset from the platform's native index type; the value must be
    /// representable in 32 bits.
    pub fn from_usize(n: usize) -> (r: TextSize)
        requires
            n <= u32::MAX,
        ensures
            r.raw == n,
    {
        TextSize { raw: n as u32 }
    }
}

} // verus!
