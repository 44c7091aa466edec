//! Temperature units and the parsing of their one-letter spellings.
//!
//! The arithmetic of converting a reading between units is floating-point
//! work and stays with the caller; what is verified here is the closed set
//! of units and the total, case-insensitive character lookup.

use vstd::prelude::*;

verus! {

/// The supported temperature units.
#[derive(Clone, Copy, Debug, PartialEq, Eq, Structural)]
pub enum Unit {
    Celsius,
    Fahrenheit,
    Kelvin,
}

/// The unit a character names: `c`, `f` or `k`, in either case.
pub open spec fn unit_of_char(c: char) -> Option<Unit> {
    if c == 'c' || c == 'C' {
        Some(Unit::Celsius)
    } else if c == 'f' || c == 'F' {
        Some(Unit::Fahrenheit)
    } else if c == 'k' || c == 'K' {
        Some(Unit::Kelvin)
    } else {
        None
    }
}

/// Parse a character into a unit: `c`/`C` for Celsius, `f`/`F` for
/// Fahrenheit, `k`/`K` for Kelvin, and nothing else.
pub fn parse_unit(unit_char: char) -> (r: Option<Unit>)
    ensures
        r == unit_of_char(unit_char),
{
    match unit_char {
        'c' | 'C' => Some(Unit::Celsius),
        'f' | 'F' => Some(Unit::Fahrenheit),
        'k' | 'K' => Some(Unit::Kelvin),
        _ => None,
    }
}

} // verus!
