pub mod nodes;
pub mod population;
pub mod zone;

use vstd::prelude::*;

verus! {

/// A text in the languages that the game's reference data comes in.
#[derive(Clone, Debug)]
pub struct Languages {
    pub en: Option<String>,
}

} // verus!
