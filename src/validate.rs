//! Validation of a trip creation request.
use vstd::prelude::*;

verus! {

/// A field of the creation request.
#[derive(Clone, Copy, Debug, PartialEq, Eq, Structural)]
pub enum Field {
    Destination,
    Days,
}

/// A creation request that the caller can correct.
#[derive(Clone, Copy, Debug, PartialEq, Eq, Structural)]
pub enum ValidationError {
    /// The field is absent, or present but empty.
    Missing(Field),
    /// `days` is not a positive number of days that fits in 32 bits.
    Malformed(Field),
}

impl ValidationError {
    /// The message shown to the caller.
    pub fn message(&self) -> (r: String)
        ensures
            *self == ValidationError::Missing(Field::Destination) ==> r@
                == "Missing field: destination"@,
            *self == ValidationError::Missing(Field::Days) ==> r@ == "Missing field: days"@,
            *self == ValidationError::Malformed(Field::Destination) ==> r@
                == "destination is malformed"@,
            *self == ValidationError::Malformed(Field::Days) ==> r@
                == "days must be a positive number"@,
    {
        let s = match self {
            ValidationError::Missing(Field::Destination) => "Missing field: destination",
            ValidationError::Missing(Field::Days) => "Missing field: days",
            ValidationError::Malformed(Field::Destination) => "destination is malformed",
            ValidationError::Malformed(Field::Days) => "days must be a positive number",
        };
        String::from_str(s)
    }
}

pub open spec fn is_digit(c: char) -> bool {
    '0' <= c && c <= '9'
}

pub open spec fn digit_value(c: char) -> nat {
    (c as nat - '0' as nat) as nat
}

pub open spec fn all_digits(s: Seq<char>) -> bool {
    forall|i: int| 0 <= i < s.len() ==> is_digit(#[trigger] s[i])
}

/// The number that a string of decimal digits denotes.
pub open spec fn decimal_value(s: Seq<char>) -> nat
    decreases s.len(),
{
    if s.len() == 0 {
        0
    } else {
        decimal_value(s.drop_last()) * 10 + digit_value(s.last())
    }
}

/// The digits of an unsigned decimal: the text with an optional leading `+`
/// taken off.
pub open spec fn unsigned_digits(s: Seq<char>) -> Seq<char> {
    if s.len() > 0 && s[0] == '+' {
        s.drop_first()
    } else {
        s
    }
}

/// The value of `s` read as a `u32` in decimal: an optional `+`, one digit
/// or more, and a value that fits.
pub open spec fn parsed_u32(s: Seq<char>) -> Option<u32> {
    let d = unsigned_digits(s);
    if d.len() > 0 && all_digits(d) && decimal_value(d) <= u32::MAX {
        Some(decimal_value(d) as u32)
    } else {
        None
    }
}

/// The number of days that the creation request asks for, or why not.
pub open spec fn days_of(text: Seq<char>) -> Result<u32, ValidationError> {
    match parsed_u32(text) {
        Some(n) => if n >= 1 {
            Ok(n)
        } else {
            Err(ValidationError::Malformed(Field::Days))
        },
        None => Err(ValidationError::Malformed(Field::Days)),
    }
}

/// What a creation request with these form fields is validated to.
pub open spec fn creation_input(destination: Option<String>, days: Option<String>) -> Result<
    (String, u32),
    ValidationError,
> {
    match destination {
        None => Err(ValidationError::Missing(Field::Destination)),
        Some(d) => if d@.len() == 0 {
            Err(ValidationError::Missing(Field::Destination))
        } else {
            match days {
                None => Err(ValidationError::Missing(Field::Days)),
                Some(t) => if t@.len() == 0 {
                    Err(ValidationError::Missing(Field::Days))
                } else {
                    match days_of(t@) {
                        Ok(n) => Ok((d, n)),
                        Err(e) => Err(e),
                    }
                },
            }
        },
    }
}

proof fn lemma_decimal_grows(s: Seq<char>)
    requires
        s.len() > 0,
    ensures
        decimal_value(s) >= decimal_value(s.drop_last()) * 10,
{
}

/// Reads `text` as a `u32` in decimal, as `str::parse::<u32>` does.
pub fn parse_u32(text: &str) -> (r: Option<u32>)
    ensures
        r == parsed_u32(text@),
{
    let len = text.unicode_len();
    let mut start: usize = 0;
    if len > 0 && text.get_char(0) == '+' {
        start = 1;
    }
    let ghost d = unsigned_digits(text@);
    assert(d =~= text@.subrange(start as int, len as int));
    if start == len {
        return None;
    }
    let mut value: u64 = 0;
    let mut over = false;
    let mut i: usize = start;
    while i < len
        invariant
            start <= i <= len,
            len == text@.len(),
            d == unsigned_digits(text@),
            d =~= text@.subrange(start as int, len as int),
            all_digits(d.subrange(0, i - start)),
            !over ==> value == decimal_value(d.subrange(0, i - start)),
            !over ==> value <= u32::MAX,
            over ==> decimal_value(d.subrange(0, i - start)) > u32::MAX,
        decreases len - i,
    {
        let c = text.get_char(i);
        if !('0' <= c && c <= '9') {
            assert(!is_digit(d[i - start]));
            assert(!all_digits(d));
            return None;
        }
        let ghost p = d.subrange(0, i - start + 1);
        assert(p.drop_last() =~= d.subrange(0, i - start));
        assert(all_digits(p));
        proof {
            lemma_decimal_grows(p);
        }
        if !over {
            value = value * 10 + (c as u64 - '0' as u64);
            if value > u32::MAX as u64 {
                over = true;
            }
        } else {
            assert(decimal_value(p) > u32::MAX) by (nonlinear_arith)
                requires
                    decimal_value(p) >= decimal_value(p.drop_last()) * 10,
                    decimal_value(p.drop_last()) > u32::MAX,
            ;
        }
        i = i + 1;
    }
    assert(d.subrange(0, len - start) =~= d);
    if over {
        None
    } else {
        Some(value as u32)
    }
}

/// Checks the creation request's fields: a non-empty destination and a
/// positive whole number of days.
pub fn validate_creation(destination: Option<String>, days: Option<String>) -> (r: Result<
    (String, u32),
    ValidationError,
>)
    ensures
        r == creation_input(destination, days),
{
    let ghost (d0, t0) = (destination, days);
    let destination = match destination {
        None => return Err(ValidationError::Missing(Field::Destination)),
        Some(d) => d,
    };
    if destination.as_str().unicode_len() == 0 {
        return Err(ValidationError::Missing(Field::Destination));
    }
    let days = match days {
        None => return Err(ValidationError::Missing(Field::Days)),
        Some(t) => t,
    };
    if days.as_str().unicode_len() == 0 {
        return Err(ValidationError::Missing(Field::Days));
    }
    match parse_u32(days.as_str()) {
        Some(n) => if n >= 1 {
            Ok((destination, n))
        } else {
            Err(ValidationError::Malformed(Field::Days))
        },
        None => Err(ValidationError::Malformed(Field::Days)),
    }
}

} // verus!
