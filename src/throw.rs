//! A single dart throw and its point value.
use vstd::prelude::*;
use vstd::string::StrSliceExecFns;

verus! {

/// Represents the score multiplier region of a [Throw]
#[derive(Debug, PartialEq, Eq, Clone, Copy, Structural)]
pub enum Multiplier {
    Single,
    Double,
    Triple,
}

impl Multiplier {
    /// The number the hit region is multiplied with.
    pub open spec fn spec_factor(self) -> nat {
        match self {
            Multiplier::Single => 1,
            Multiplier::Double => 2,
            Multiplier::Triple => 3,
        }
    }

    /// Get the actual number to multiply the thrown number with
    fn factor(&self) -> (r: u8)
        ensures
            r == self.spec_factor(),
    {
        match self {
            Multiplier::Single => 1,
            Multiplier::Double => 2,
            Multiplier::Triple => 3,
        }
    }
}

/// An error that might occur when using any of the methods to create a throw
#[derive(Debug, PartialEq, Eq, Clone)]
pub enum InvalidThrowError {
    /// Triple for bullseye are not valid
    BullseyeTriple,
    /// Valid numbers are 1-20 inclusive
    InvalidNumber(u8),
    /// The text given to [Throw::from_str] is no throw notation
    Unparseable(String),
}

/// Return value of the various creation methods of throws
pub type ThrowResult = Result<Throw, InvalidThrowError>;

/// Represents a single throw on the dart board
#[derive(PartialEq, Eq, Debug, Clone, Copy, Structural)]
pub enum Throw {
    /// The inner two rings of the dartboard, Multiplier indicates inner or outer bullseye
    Bullseye(Multiplier),
    /// One of the twenty numbers with multiplier
    Number(Multiplier, u8),
    /// Didn't hit any scoring region or the board at all
    Miss,
}

/// What [Throw::bullseye] returns for a multiplier.
pub open spec fn bullseye_result(multiplier: Multiplier) -> ThrowResult {
    if multiplier == Multiplier::Triple {
        Err(InvalidThrowError::BullseyeTriple)
    } else {
        Ok(Throw::Bullseye(multiplier))
    }
}

/// What [Throw::number] returns for a multiplier and a number.
pub open spec fn number_result(multiplier: Multiplier, number: u8) -> ThrowResult {
    if 1 <= number <= 20 {
        Ok(Throw::Number(multiplier, number))
    } else {
        Err(InvalidThrowError::InvalidNumber(number))
    }
}

/// The multiplier that a leading character of a throw notation names.
pub open spec fn notation_multiplier(c: char) -> Option<Multiplier> {
    if c == 'd' || c == 'D' {
        Some(Multiplier::Double)
    } else if c == 't' || c == 'T' {
        Some(Multiplier::Triple)
    } else {
        None
    }
}

/// The multiplier of a throw notation and the text that follows it.
pub open spec fn notation_parts(s: Seq<char>) -> (Multiplier, Seq<char>) {
    if s.len() > 0 && notation_multiplier(s[0]) is Some {
        (notation_multiplier(s[0])->0, s.drop_first())
    } else {
        (Multiplier::Single, s)
    }
}

pub open spec fn is_decimal_digit(c: char) -> bool {
    '0' <= c && c <= '9'
}

/// The value of a string of decimal digits.
pub open spec fn decimal_value(s: Seq<char>) -> int
    decreases s.len(),
{
    if s.len() == 0 {
        0
    } else {
        decimal_value(s.drop_last()) * 10 + (s.last() as int - '0' as int)
    }
}

/// The digits of an unsigned decimal number: the text after an optional `+`.
pub open spec fn unsigned_digits(s: Seq<char>) -> Seq<char> {
    if s.len() > 0 && s[0] == '+' {
        s.drop_first()
    } else {
        s
    }
}

pub open spec fn all_decimal_digits(s: Seq<char>) -> bool {
    forall|i: int| 0 <= i < s.len() ==> is_decimal_digit(#[trigger] s[i])
}

/// A `u8` written in decimal: an optional `+`, then one or more digits.
pub open spec fn parse_u8_spec(s: Seq<char>) -> Option<u8> {
    let digits = unsigned_digits(s);
    if digits.len() > 0 && all_decimal_digits(digits) && decimal_value(digits) <= 255 {
        Some(decimal_value(digits) as u8)
    } else {
        None
    }
}

/// The throw that a notation such as `T20`, `d5`, `25`, `D25` or `0` stands for.
/// `None` where the text is no notation of a throw.
pub open spec fn notation_result(s: Seq<char>) -> Option<ThrowResult> {
    let (multiplier, body) = notation_parts(s);
    match parse_u8_spec(body) {
        Some(n) => if 1 <= n <= 20 {
            Some(Ok(Throw::Number(multiplier, n)))
        } else if n == 25 {
            Some(bullseye_result(multiplier))
        } else if n == 0 {
            Some(Ok(Throw::Miss))
        } else {
            None
        },
        None => None,
    }
}

/// Parses the `u8` written in decimal in `text` from char `start` on.
fn parse_u8(text: &str, start: usize) -> (r: Option<u8>)
    requires
        start <= text@.len(),
    ensures
        r == parse_u8_spec(text@.subrange(start as int, text@.len() as int)),
{
    let len = text.unicode_len();
    let ghost s = text@.subrange(start as int, len as int);
    let mut i: usize = start;
    if start < len && text.get_char(start) == '+' {
        i = start + 1;
    }
    let first: usize = i;
    let ghost digits = text@.subrange(first as int, len as int);
    assert(digits =~= unsigned_digits(s));
    if first == len {
        return None;
    }
    let mut value: u32 = 0;
    let mut overflow: bool = false;
    while i < len
        invariant
            start <= first <= i <= len,
            len == text@.len(),
            digits == text@.subrange(first as int, len as int),
            s == text@.subrange(start as int, len as int),
            digits == unsigned_digits(s),
            forall|j: int| first <= j < i ==> is_decimal_digit(text@[j]),
            !overflow ==> value == decimal_value(text@.subrange(first as int, i as int)),
            !overflow ==> value <= 255,
            overflow ==> decimal_value(text@.subrange(first as int, i as int)) > 255,
        decreases len - i,
    {
        let c = text.get_char(i);
        if !('0' <= c && c <= '9') {
            assert(!is_decimal_digit(digits[i - first]));
            return None;
        }
        let ghost prefix = text@.subrange(first as int, i as int);
        assert(text@.subrange(first as int, i + 1).drop_last() == prefix);
        if !overflow {
            value = value * 10 + (c as u32 - '0' as u32);
            if value > 255 {
                overflow = true;
            }
        }
        i = i + 1;
    }
    assert(text@.subrange(first as int, len as int) == digits);
    if overflow {
        None
    } else {
        Some(value as u8)
    }
}

impl Throw {
    /// Whether the throw is one that the constructors can produce.
    pub open spec fn is_valid(self) -> bool {
        match self {
            Throw::Bullseye(multiplier) => multiplier != Multiplier::Triple,
            Throw::Number(_, number) => 1 <= number <= 20,
            Throw::Miss => true,
        }
    }

    /// Points of a throw: the hit value times the multiplier's factor.
    pub open spec fn spec_points(self) -> nat {
        match self {
            Throw::Miss => 0,
            Throw::Bullseye(multiplier) => 25 * multiplier.spec_factor(),
            Throw::Number(multiplier, number) => multiplier.spec_factor() * number as nat,
        }
    }

    pub open spec fn spec_multiplier(self) -> Option<Multiplier> {
        match self {
            Throw::Bullseye(multiplier) => Some(multiplier),
            Throw::Number(multiplier, _) => Some(multiplier),
            Throw::Miss => None,
        }
    }

    /// No valid throw scores more than a triple twenty.
    pub proof fn lemma_points_at_most_sixty(self)
        requires
            self.is_valid(),
        ensures
            self.spec_points() <= 60,
    {
        if let Throw::Number(multiplier, number) = self {
            let factor = multiplier.spec_factor();
            assert(factor * number as nat <= 60) by (nonlinear_arith)
                requires
                    factor <= 3,
                    number <= 20,
            ;
        }
    }

    /// Create a new bullseye throw.
    pub fn bullseye(multiplier: Multiplier) -> (r: ThrowResult)
        ensures
            r == bullseye_result(multiplier),
            r matches Ok(t) ==> t.is_valid(),
    {
        match multiplier {
            Multiplier::Triple => Err(InvalidThrowError::BullseyeTriple),
            mult => Ok(Throw::Bullseye(mult)),
        }
    }

    /// Create a new number 1-20 throw.
    pub fn number(multiplier: Multiplier, number: u8) -> (r: ThrowResult)
        ensures
            r == number_result(multiplier, number),
            r matches Ok(t) ==> t.is_valid(),
    {
        if 1 <= number && number <= 20 {
            Ok(Throw::Number(multiplier, number))
        } else {
            Err(InvalidThrowError::InvalidNumber(number))
        }
    }

    /// Create a new single hit of a number
    pub fn single(number: u8) -> (r: ThrowResult)
        ensures
            r == number_result(Multiplier::Single, number),
    {
        Self::number(Multiplier::Single, number)
    }

    /// Create a new double hit of a number
    pub fn double(number: u8) -> (r: ThrowResult)
        ensures
            r == number_result(Multiplier::Double, number),
    {
        Self::number(Multiplier::Double, number)
    }

    /// Create a new triple hit of a number
    pub fn triple(number: u8) -> (r: ThrowResult)
        ensures
            r == number_result(Multiplier::Triple, number),
    {
        Self::number(Multiplier::Triple, number)
    }

    /// Create a missed throw
    pub fn miss() -> (r: ThrowResult)
        ensures
            r == Ok::<Throw, InvalidThrowError>(Throw::Miss),
    {
        Ok(Throw::Miss)
    }

    fn parse_multiplier(ch: char) -> (r: Option<Multiplier>)
        ensures
            r == notation_multiplier(ch),
    {
        match ch {
            'd' | 'D' => Some(Multiplier::Double),
            't' | 'T' => Some(Multiplier::Triple),
            _ => None,
        }
    }

    /// Reads a throw from its notation: an optional multiplier letter (`d`/`D` for
    /// double, `t`/`T` for triple) followed by `1`-`20`, `25` for the bullseye or
    /// `0` for a miss.
    pub fn from_str(text: &str) -> (r: ThrowResult)
        ensures
            match notation_result(text@) {
                Some(result) => r == result,
                None => r matches Err(InvalidThrowError::Unparseable(t)) && t@ == text@,
            },
            r matches Ok(t) ==> t.is_valid(),
    {
        let len = text.unicode_len();
        let mut multiplier = Multiplier::Single;
        let mut start: usize = 0;
        if len > 0 {
            if let Some(m) = Self::parse_multiplier(text.get_char(0)) {
                multiplier = m;
                start = 1;
            }
        }
        assert(text@.subrange(0, len as int) == text@);
        assert(text@.subrange(start as int, len as int) == notation_parts(text@).1);
        match parse_u8(text, start) {
            Some(n) => if 1 <= n && n <= 20 {
                Ok(Throw::Number(multiplier, n))
            } else if n == 25 {
                Throw::bullseye(multiplier)
            } else if n == 0 {
                Ok(Throw::Miss)
            } else {
                Err(InvalidThrowError::Unparseable(text.to_owned()))
            },
            None => Err(InvalidThrowError::Unparseable(text.to_owned())),
        }
    }

    /// Calculate the score of the throw.
    pub fn points(&self) -> (r: u8)
        requires
            self.is_valid(),
        ensures
            r == self.spec_points(),
    {
        match self {
            Throw::Miss => 0,
            Throw::Bullseye(mult) => 25 * mult.factor(),
            Throw::Number(mult, number) => {
                let factor = mult.factor();
                assert(factor * *number <= 60) by (nonlinear_arith)
                    requires
                        factor <= 3,
                        *number <= 20,
                ;
                factor * *number
            },
        }
    }

    /// Get the multiplier if there is one: `None` in case of a miss.
    pub fn multiplier(&self) -> (r: Option<Multiplier>)
        ensures
            r == self.spec_multiplier(),
    {
        match self {
            Throw::Bullseye(mult) => Some(*mult),
            Throw::Number(mult, _) => Some(*mult),
            Throw::Miss => None,
        }
    }
}

} // verus!
