//! What is answered to those who ask for the population.
use crate::controllers::population::{
    get_current_tree, shows_revision, DbResponse, PopulationApiResponse, ZoneBreakdown,
};
use vstd::prelude::*;

verus! {

/// Why there is no population to hand out.
#[derive(Clone, Copy, Debug, PartialEq, Eq, Structural)]
pub enum Error {
    NoDataAvailable,
}

impl Error {
    /// The words that tell the one who asked what went wrong.
    pub fn message(&self) -> (message: &'static str)
        ensures
            message@ == "No data available"@,
    {
        "No data available"
    }
}

/// An answer.
#[derive(Debug)]
pub struct Response {
    pub result: PossibleResults,
}

/// What an answer can hold.
#[derive(Debug)]
pub enum PossibleResults {
    PopResult(PopulationApiResponse),
    ZoneResult(ZoneBreakdown),
    Error(Error),
}

/// Answers a question for the population from the rows that the store gave
/// for it. Where the store gave none, the answer says that there is no data:
/// an empty population is never handed out in its place.
pub fn population(rows: &Vec<DbResponse>) -> (r: Result<Response, Response>)
    ensures
        rows@.len() == 0 <==> r is Err,
        r matches Err(response) ==> response.result == PossibleResults::Error(
            Error::NoDataAvailable,
        ),
        r matches Ok(response) ==> (response.result matches PossibleResults::PopResult(found)
            && found.timestamp == rows@[0].timestamp && shows_revision(found.worlds@, rows@)),
{
    match get_current_tree(rows) {
        Some(result) => Ok(Response { result: PossibleResults::PopResult(result) }),
        None => Err(Response { result: PossibleResults::Error(Error::NoDataAvailable) }),
    }
}

} // verus!
