use vstd::prelude::*;

verus! {

/// The colours the interface paints with.
#[derive(Debug, Clone, Copy, PartialEq, Eq, Structural)]
pub enum Color {
    White,
    Yellow,
    LightRed,
    Green,
}

} // verus!
