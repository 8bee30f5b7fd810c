//! A brightness control for the primary display: parsing of the display tool's output,
//! the command lines that drive it, and the control's starting state.
use vstd::prelude::*;

pub mod brightness;
pub mod command;
pub mod output;
pub mod state;
pub mod text;

verus! {

} // verus!
