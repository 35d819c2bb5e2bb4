use vstd::prelude::*;

verus! {

/// The colors in which the tool writes its reports.
#[derive(Clone, Copy, Debug, PartialEq, Eq, Structural)]
pub enum Color {
    BrightRed,
    BrightYellow,
    BrightMagenta,
    BrightGreen,
}

pub const ERROR: Color = Color::BrightRed;

pub const WARNING: Color = Color::BrightYellow;

pub const ACTION_REQUEST: Color = Color::BrightMagenta;

pub const VICTORY: Color = Color::BrightGreen;

} // verus!
