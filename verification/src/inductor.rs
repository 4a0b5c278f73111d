//! Planar spiral inductor outlines and the parser that reads one by name.
use vstd::prelude::*;
use crate::text::{eq_str, lower_trimmed, lowered_key, message};

verus! {

/// Outline of a planar spiral inductor.
#[derive(Debug, Clone, Copy, PartialEq, Eq, Structural)]
pub enum SpiralShape {
    /// Square spiral.
    Square,
    /// Hexagonal spiral.
    Hexagonal,
    /// Octagonal spiral.
    Octagonal,
    /// Circular spiral.
    Circle,
}

/// The spiral shape that `key` names, if any.
pub open spec fn spiral_shape_named(key: Seq<char>) -> Option<SpiralShape> {
    if key == "square"@ {
        Some(SpiralShape::Square)
    } else if key == "hexagonal"@ {
        Some(SpiralShape::Hexagonal)
    } else if key == "octagonal"@ {
        Some(SpiralShape::Octagonal)
    } else if key == "circle"@ || key == "circular"@ {
        Some(SpiralShape::Circle)
    } else {
        None
    }
}

/// Reads a spiral shape by name, ignoring surrounding white space and ASCII case.
pub fn spiral_shape(s: &str) -> (r: Result<SpiralShape, String>)
    ensures
        match r {
            Ok(shape) => spiral_shape_named(lowered_key(s@)) == Some(shape),
            Err(e) => spiral_shape_named(lowered_key(s@)) is None && e@ == "unknown spiral shape `"@
                + lowered_key(s@) + "`"@,
        },
{
    let k = lower_trimmed(s);
    if eq_str(&k, "square") {
        Ok(SpiralShape::Square)
    } else if eq_str(&k, "hexagonal") {
        Ok(SpiralShape::Hexagonal)
    } else if eq_str(&k, "octagonal") {
        Ok(SpiralShape::Octagonal)
    } else if eq_str(&k, "circle") || eq_str(&k, "circular") {
        Ok(SpiralShape::Circle)
    } else {
        Err(message("unknown spiral shape `", &k, "`"))
    }
}

} // verus!
