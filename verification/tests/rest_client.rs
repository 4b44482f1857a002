use niumside_poptracker::census::rest::client::{
    CensusCollections, CensusNamespaces, CensusRequestError, CensusRequestType,
    CensusRestClient,
};

#[test]
pub fn test_census_rest_client() {
    let client = CensusRestClient::default();
    let url = client
        .get_request_url(CensusRequestType::Get, CensusCollections::Character)
        .unwrap();
    assert_eq!(
        url.as_str(),
        "https://census.daybreakgames.com/s%3Aexample/get/ps2%3Av2/character"
    );
}

#[test]
fn a_count_is_asked_for_under_its_own_word() {
    let client = CensusRestClient {
        census_url: "https://census.example.org/api/".to_string(),
        service_id: "my id".to_string(),
    };
    let url = client
        .get_request_url(CensusRequestType::Count, CensusCollections::Character)
        .unwrap();
    assert_eq!(url.as_str(), "https://census.example.org/api/s%3Amy+id/count/ps2%3Av2/character");
}

#[test]
fn an_address_that_is_no_url_is_refused() {
    let client =
        CensusRestClient { census_url: "not a url".to_string(), service_id: "x".to_string() };
    assert!(matches!(
        client.get_request_url(CensusRequestType::Get, CensusCollections::Character),
        Err(CensusRequestError::ParseError(_))
    ));
}

#[test]
fn the_words_of_an_address() {
    assert_eq!(CensusRequestType::Get.word(), "get");
    assert_eq!(CensusRequestType::Count.word(), "count");
    assert_eq!(CensusNamespaces::Ps2V2.word(), "ps2:v2");
    assert_eq!(CensusCollections::Character.word(), "character");
}

#[test]
fn the_base_address_may_hold_a_page() {
    let client = CensusRestClient {
        census_url: "https://census.example.org/api/index.html?x=1".to_string(),
        service_id: "a&b".to_string(),
    };
    let url = client
        .get_request_url(CensusRequestType::Get, CensusCollections::Character)
        .unwrap();
    assert_eq!(url.as_str(), "https://census.example.org/api/s%3Aa%26b/get/ps2%3Av2/character");
}

#[test]
fn every_byte_of_the_service_id_is_written_as_a_form_writes_it() {
    let client = CensusRestClient {
        census_url: "https://census.example.org/".to_string(),
        service_id: "aZ09*-._ ~/:\u{e9}+%\u{0}".to_string(),
    };
    let url = client
        .get_request_url(CensusRequestType::Get, CensusCollections::Character)
        .unwrap();
    assert_eq!(
        url.as_str(),
        "https://census.example.org/s%3AaZ09*-._+%7E%2F%3A%C3%A9%2B%25%00/get/ps2%3Av2/character"
    );
}
