use vstd::prelude::*;

verus! {

/// A colour in hue, saturation, lightness and alpha.
///
/// Each channel is held as the IEEE-754 bit pattern of the `f32` that the
/// renderer uses for it, so a colour is carried through this library exactly
/// as it was given, without arithmetic on it.
#[derive(Clone, Copy, Debug, PartialEq, Eq, Structural)]
pub struct Hsla {
    pub h: u32,
    pub s: u32,
    pub l: u32,
    pub a: u32,
}

} // verus!
