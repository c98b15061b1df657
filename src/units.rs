//! Signed unit amounts: the sign gives the trade direction, the magnitude
//! gives the number of units.
use vstd::prelude::*;

verus! {

/// A decimal digit of ASCII.
pub open spec fn is_digit(c: char) -> bool {
    '0' <= c && c <= '9'
}

/// The value of a non-empty run of decimal digits.
pub open spec fn digits_value(s: Seq<char>) -> int
    decreases s.len(),
{
    if s.len() == 0 {
        0
    } else {
        10 * digits_value(s.drop_last()) + (s.last() as int - '0' as int)
    }
}

/// The digits that follow an optional leading sign.
pub open spec fn unsigned_part(s: Seq<char>) -> Seq<char> {
    if s.len() > 0 && (s[0] == '-' || s[0] == '+') {
        s.drop_first()
    } else {
        s
    }
}

/// The integer that a decimal numeral with an optional `+` or `-` denotes,
/// or `None` where the text is not such a numeral.
pub open spec fn decimal_int(s: Seq<char>) -> Option<int> {
    let body = unsigned_part(s);
    if body.len() > 0 && forall|i: int| 0 <= i < body.len() ==> is_digit(#[trigger] body[i]) {
        if s[0] == '-' {
            Some(-digits_value(body))
        } else {
            Some(digits_value(body))
        }
    } else {
        None
    }
}

/// The `i64` that `s` denotes, where it denotes one.
pub open spec fn decimal_i64(s: Seq<char>) -> Option<int> {
    match decimal_int(s) {
        Some(v) => if i64::MIN <= v <= i64::MAX {
            Some(v)
        } else {
            None
        },
        None => None,
    }
}

/// The `u64` that `s` denotes, where it denotes one (no minus sign).
pub open spec fn decimal_u64(s: Seq<char>) -> Option<int> {
    match decimal_int(s) {
        Some(v) => if s[0] != '-' && v <= u64::MAX {
            Some(v)
        } else {
            None
        },
        None => None,
    }
}

/// Relies on `str::parse::<i64>`: an optional sign and decimal digits, in range.
#[verifier::external_body]
fn parse_i64(s: &str) -> (r: Option<i64>)
    ensures
        r matches Some(v) <==> decimal_i64(s@) is Some,
        r matches Some(v) ==> v as int == decimal_i64(s@)->0,
{
    s.parse::<i64>().ok()
}

/// Relies on `str::parse::<u64>`: an optional `+` and decimal digits, in range.
#[verifier::external_body]
fn parse_u64(s: &str) -> (r: Option<u64>)
    ensures
        r matches Some(v) <==> decimal_u64(s@) is Some,
        r matches Some(v) ==> v as int == decimal_u64(s@)->0,
{
    s.parse::<u64>().ok()
}

/// Why a unit amount was refused.
#[derive(Clone, Copy, Debug, PartialEq, Eq, Structural)]
pub enum UnitsError {
    /// The text is not a decimal `i64`.
    NotAnInteger,
    /// The amount is zero, so it has no direction.
    Zero,
}

impl UnitsError {
    /// The text of [`UnitsError::message`].
    pub open spec fn message_spec(&self) -> Seq<char> {
        match self {
            UnitsError::NotAnInteger => "Units must be a signed integer."@,
            UnitsError::Zero => "Units can't be zero."@,
        }
    }

    /// A one-line description of the error.
    pub fn message(&self) -> (r: String)
        ensures
            r@ == self.message_spec(),
    {
        match self {
            UnitsError::NotAnInteger => "Units must be a signed integer.".to_string(),
            UnitsError::Zero => "Units can't be zero.".to_string(),
        }
    }
}

/// The absolute value of an integer.
pub open spec fn abs(v: int) -> int {
    if v < 0 {
        -v
    } else {
        v
    }
}

/// A non-zero amount splits into its direction (positive is a buy) and its
/// magnitude; zero is refused.
pub fn signed_units(v: i64) -> (r: Result<(bool, u64), UnitsError>)
    ensures
        v == 0 ==> r == Err::<(bool, u64), UnitsError>(UnitsError::Zero),
        v != 0 ==> (r matches Ok((buy, n)) && buy == (v > 0) && n as int == abs(v as int)),
{
    if v == 0 {
        Err(UnitsError::Zero)
    } else if v > 0 {
        Ok((true, v as u64))
    } else if v == i64::MIN {
        Ok((false, 9223372036854775808u64))
    } else {
        Ok((false, (-v) as u64))
    }
}

/// Reads a signed unit amount from its decimal text.
pub fn parse(s: &str) -> (r: Result<(bool, u64), UnitsError>)
    ensures
        decimal_i64(s@) is None ==> r == Err::<(bool, u64), UnitsError>(UnitsError::NotAnInteger),
        decimal_i64(s@) == Some(0int) ==> r == Err::<(bool, u64), UnitsError>(UnitsError::Zero),
        (decimal_i64(s@) is Some && decimal_i64(s@)->0 != 0) ==> (r matches Ok((buy, n)) && buy
            == (decimal_i64(s@)->0 > 0) && n as int == abs(decimal_i64(s@)->0)),
{
    match parse_i64(s) {
        Some(v) => signed_units(v),
        None => Err(UnitsError::NotAnInteger),
    }
}

/// Reads a token balance, as the ledger reports it, from its decimal text.
pub fn parse_amount(s: &str) -> (r: Option<u64>)
    ensures
        r matches Some(v) <==> decimal_u64(s@) is Some,
        r matches Some(v) ==> v as int == decimal_u64(s@)->0,
{
    parse_u64(s)
}

} // verus!
