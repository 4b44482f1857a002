//! The addresses of the game's query service.
use crate::census::address::{byte_serialize, form_encoded, join_url, joined_url};
use crate::census::CENSUS_URL;
use vstd::prelude::*;
use vstd::string::StringExecFns;

verus! {

/// Where and as whom the query service is asked.
#[derive(Clone, Debug)]
pub struct CensusRestClient {
    /// The address of the service, as a URL.
    pub census_url: String,
    pub service_id: String,
}

/// Why there is nothing to hand back for a query.
#[derive(Debug)]
pub enum CensusRequestError {
    /// The address of the query could not be put together.
    ParseError(url::ParseError),
    /// The answer holds nothing.
    NotFound,
}

/// What a query asks for: the objects, or how many there are.
#[allow(dead_code)]
#[derive(Clone, Copy, Debug, PartialEq, Eq, Structural)]
pub enum CensusRequestType {
    Get,
    Count,
}

impl CensusRequestType {
    /// The word for this kind of query in an address.
    pub open spec fn spec_word(self) -> Seq<char> {
        match self {
            CensusRequestType::Get => "get"@,
            CensusRequestType::Count => "count"@,
        }
    }

    /// The word for this kind of query in an address.
    pub fn word(self) -> (word: &'static str)
        ensures
            word@ == self.spec_word(),
    {
        match self {
            CensusRequestType::Get => "get",
            CensusRequestType::Count => "count",
        }
    }
}

/// The part of the service that a query is put to.
#[derive(Clone, Copy, Debug, PartialEq, Eq, Structural)]
pub enum CensusNamespaces {
    Ps2V2,
}

impl CensusNamespaces {
    /// The word for this part of the service in an address.
    pub open spec fn spec_word(self) -> Seq<char> {
        "ps2:v2"@
    }

    /// The word for this part of the service in an address.
    pub fn word(self) -> (word: &'static str)
        ensures
            word@ == self.spec_word(),
    {
        "ps2:v2"
    }
}

/// The collection that a query looks into.
#[derive(Clone, Copy, Debug, PartialEq, Eq, Structural)]
pub enum CensusCollections {
    Character,
}

impl CensusCollections {
    /// The word for this collection in an address.
    pub open spec fn spec_word(self) -> Seq<char> {
        "character"@
    }

    /// The word for this collection in an address.
    pub fn word(self) -> (word: &'static str)
        ensures
            word@ == self.spec_word(),
    {
        "character"
    }
}

impl Default for CensusRestClient {
    fn default() -> (client: Self)
        ensures
            client.census_url@ == CENSUS_URL@,
            client.service_id@ == "example"@,
    {
        Self { census_url: String::from_str(CENSUS_URL), service_id: String::from_str("example") }
    }
}

/// `input` read against `base`, where there is a `base`.
pub open spec fn step(base: Option<Seq<char>>, input: Seq<char>) -> Option<Seq<char>> {
    match base {
        Some(base) => joined_url(base, input),
        None => None,
    }
}

impl CensusRestClient {
    /// The address that a query goes to: below the address of the service,
    /// one step each for who asks, for the kind of query, for the part of
    /// the service and for the collection. The first two words that could
    /// hold anything are encoded as form data before they go in.
    pub open spec fn spec_request_url(
        self,
        request_type: CensusRequestType,
        collection: CensusCollections,
    ) -> Option<Seq<char>> {
        let service = joined_url(
            self.census_url@,
            form_encoded("s:"@ + self.service_id@) + "/"@,
        );
        let kind = step(service, request_type.spec_word() + "/"@);
        let namespace = step(kind, form_encoded(CensusNamespaces::Ps2V2.spec_word()) + "/"@);
        step(namespace, collection.spec_word())
    }

    /// Puts together the address that a query goes to.
    pub fn get_request_url(
        &self,
        request_type: CensusRequestType,
        collection: CensusCollections,
    ) -> (r: Result<String, CensusRequestError>)
        ensures
            match r {
                Ok(url) => self.spec_request_url(request_type, collection) == Some(url@),
                Err(e) => self.spec_request_url(request_type, collection) is None
                    && e is ParseError,
            },
    {
        let census_namespace = byte_serialize(CensusNamespaces::Ps2V2.word());
        let service_id = byte_serialize(
            String::from_str("s:").concat(self.service_id.as_str()).as_str(),
        );
        let url = match join_url(self.census_url.as_str(), service_id.concat("/").as_str()) {
            Ok(url) => url,
            Err(e) => return Err(CensusRequestError::ParseError(e)),
        };
        let url = match join_url(
            url.as_str(),
            String::from_str(request_type.word()).concat("/").as_str(),
        ) {
            Ok(url) => url,
            Err(e) => return Err(CensusRequestError::ParseError(e)),
        };
        let url = match join_url(url.as_str(), census_namespace.concat("/").as_str()) {
            Ok(url) => url,
            Err(e) => return Err(CensusRequestError::ParseError(e)),
        };
        match join_url(url.as_str(), collection.word()) {
            Ok(url) => Ok(url),
            Err(e) => Err(CensusRequestError::ParseError(e)),
        }
    }
}

} // verus!
