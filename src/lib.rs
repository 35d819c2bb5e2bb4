pub mod cli;
pub mod colors;
pub mod error;
pub mod logging;
pub mod path;
pub mod text;
pub mod version;

use vstd::prelude::*;

verus! {

/// The tool's name, as it is installed.
pub const NAME: &'static str = "cargo-flatpak";

} // verus!
