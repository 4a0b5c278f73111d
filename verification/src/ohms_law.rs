//! Ohm's law: which of voltage, current and resistance an E-I-R calculation solves
//! for, given which of them the user supplied.
use vstd::prelude::*;

verus! {

/// The quantity an E-I-R calculation computes from the other two.
#[derive(Debug, Clone, Copy, PartialEq, Eq, Structural)]
pub enum EirUnknown {
    /// V = I × R.
    Voltage,
    /// I = V / R.
    Current,
    /// R = V / I.
    Resistance,
}

/// How many of the three quantities were supplied.
pub open spec fn given_count(voltage: bool, current: bool, resistance: bool) -> int {
    (if voltage { 1int } else { 0int }) + (if current { 1int } else { 0int }) + (if resistance {
        1int
    } else {
        0int
    })
}

/// Whether the quantity `q` was supplied.
pub open spec fn is_given(q: EirUnknown, voltage: bool, current: bool, resistance: bool) -> bool {
    match q {
        EirUnknown::Voltage => voltage,
        EirUnknown::Current => current,
        EirUnknown::Resistance => resistance,
    }
}

/// Decides which quantity an E-I-R calculation solves for. Exactly two of the three
/// must be supplied; the answer is the one that was not. Any other count of
/// supplied quantities gives `None` (the calculation then reports insufficient
/// inputs).
pub fn eir_unknown(voltage_given: bool, current_given: bool, resistance_given: bool) -> (u:
    Option<EirUnknown>)
    ensures
        (u is Some) == (given_count(voltage_given, current_given, resistance_given) == 2),
        u matches Some(q) ==> !is_given(q, voltage_given, current_given, resistance_given),
{
    match (voltage_given, current_given, resistance_given) {
        (true, true, false) => Some(EirUnknown::Resistance),
        (true, false, true) => Some(EirUnknown::Current),
        (false, true, true) => Some(EirUnknown::Voltage),
        _ => None,
    }
}

} // verus!
