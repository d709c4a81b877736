//! Saving a file or directory into a GNU Stow package: the path reasoning
//! that decides where it goes, the checks that must pass first, and the
//! ordered plan of filesystem commands (backup, create the destination
//! directory, move, run stow) together with the fail-fast order in which the
//! plan runs.
use vstd::prelude::*;

pub mod checks;
pub mod command;
pub mod path;
pub mod plan;

verus! {

} // verus!
