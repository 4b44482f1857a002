//! What is known of a zone beyond its number.
use crate::controllers::Languages;
use vstd::prelude::*;

verus! {

#[derive(Clone, Debug)]
pub struct Zone {
    pub id: i32,
    pub name: Option<Languages>,
    pub description: Option<Languages>,
}

} // verus!
