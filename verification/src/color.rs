//! Colours of the tile gradient, in integer units.
//!
//! A channel is a count of thousandths of full intensity, so that the
//! gradient law is exact: `0.02` is 20 units and one animation step, `0.001`,
//! is 1 unit. A caller that needs a fraction divides by [`FULL_INTENSITY`].

use vstd::prelude::*;

verus! {

/// Units that make up full intensity of one channel.
pub const FULL_INTENSITY: u64 = 1000;

/// Red gained per column, in units.
pub const RED_STEP: u64 = 20;

/// Green gained per row, in units.
pub const GREEN_STEP: u64 = 20;

/// What the animation phase gains with every rendered frame, in units.
pub const ANIMATION_STEP: u64 = 1;

/// A colour without alpha. Channels are not clamped: on a large grid, or late
/// in the animation, a channel exceeds [`FULL_INTENSITY`], and it is up to the
/// graphics context to deal with that.
#[derive(Clone, Copy, Debug, PartialEq, Eq, Structural)]
pub struct Rgb {
    pub red: u64,
    pub green: u64,
    pub blue: u64,
}

/// Red of every tile in column `col`.
pub open spec fn red_at(col: int) -> int {
    (col + 1) * RED_STEP
}

/// Green of every tile in row `row`.
pub open spec fn green_at(row: int) -> int {
    (row + 1) * GREEN_STEP
}

/// The colour of tile `(row, col)` while the animation is at `phase`: red
/// grows with the column, green with the row, and blue is the phase, the same
/// for every tile of a pass.
pub open spec fn gradient(row: u32, col: u32, phase: u64) -> Rgb {
    Rgb { red: red_at(col as int) as u64, green: green_at(row as int) as u64, blue: phase }
}

impl Rgb {
    /// Opaque white, the colour a pass clears to.
    pub open spec fn spec_white() -> Rgb {
        Rgb { red: FULL_INTENSITY, green: FULL_INTENSITY, blue: FULL_INTENSITY }
    }

    #[verifier::when_used_as_spec(spec_white)]
    pub fn white() -> (c: Rgb)
        ensures
            c == Rgb::spec_white(),
    {
        Rgb { red: FULL_INTENSITY, green: FULL_INTENSITY, blue: FULL_INTENSITY }
    }

    /// Computes the colour of tile `(row, col)` from its indices alone.
    pub fn of_tile(row: u32, col: u32, phase: u64) -> (c: Rgb)
        ensures
            c == gradient(row, col, phase),
            c.red == (col + 1) * RED_STEP,
            c.green == (row + 1) * GREEN_STEP,
            c.blue == phase,
    {
        let red: u64 = (col as u64 + 1) * RED_STEP;
        let green: u64 = (row as u64 + 1) * GREEN_STEP;
        Rgb { red, green, blue: phase }
    }
}

} // verus!
