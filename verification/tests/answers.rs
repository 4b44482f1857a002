use niumside_poptracker::active_players::Insert;
use niumside_poptracker::census::utils::DecodeError;
use niumside_poptracker::controllers::population::{DbResponse, CURRENT_POPULATION_QUERY};
use niumside_poptracker::json::Json;
use niumside_poptracker::storage::configuration::{DeserializeWith, Level};
use niumside_poptracker::web::census_api::{population, Error, PossibleResults};

#[test]
fn without_rows_the_answer_says_that_there_is_no_data() {
    match population(&Vec::new()) {
        Err(response) => {
            assert!(matches!(response.result, PossibleResults::Error(Error::NoDataAvailable)));
        }
        Ok(response) => panic!("an answer without data: {response:?}"),
    }
    assert_eq!(Error::NoDataAvailable.message(), "No data available");
}

#[test]
fn with_rows_the_answer_is_the_population() {
    let rows = vec![
        DbResponse { timestamp: 5, population_id: 1, world_id: 13, zone_id: 8, team_id: 1, loadout_id: 20, amount: 2 },
        DbResponse { timestamp: 6, population_id: 1, world_id: 13, zone_id: 8, team_id: 2, loadout_id: 6, amount: 1 },
    ];
    match population(&rows) {
        Ok(response) => match response.result {
            PossibleResults::PopResult(found) => {
                assert_eq!(found.timestamp, 5);
                assert_eq!(found.worlds.len(), 1);
                assert_eq!(found.worlds[0].population, 3);
            }
            other => panic!("not a population: {other:?}"),
        },
        Err(response) => panic!("no answer: {response:?}"),
    }
}

#[test]
fn rows_of_unknown_worlds_alone_give_an_empty_population() {
    let rows = vec![DbResponse {
        timestamp: 5,
        population_id: 1,
        world_id: 99,
        zone_id: 8,
        team_id: 1,
        loadout_id: 20,
        amount: 2,
    }];
    match population(&rows) {
        Ok(response) => match response.result {
            PossibleResults::PopResult(found) => assert!(found.worlds.is_empty()),
            other => panic!("not a population: {other:?}"),
        },
        Err(response) => panic!("no answer: {response:?}"),
    }
}

#[test]
fn log_levels_are_read_from_their_names() {
    let read = |s: &str| Level::deserialize_with(&Json::Text(s.to_string()));
    assert_eq!(read("Error"), Ok(Level::Error));
    assert_eq!(read("Warn"), Ok(Level::Warn));
    assert_eq!(read("Info"), Ok(Level::Info));
    assert_eq!(read("Debug"), Ok(Level::Debug));
    assert_eq!(read("Trace"), Ok(Level::Trace));
    assert_eq!(read("info"), Err(DecodeError::InvalidValue));
    assert_eq!(read(""), Err(DecodeError::InvalidValue));
    assert_eq!(Level::deserialize_with(&Json::Null), Err(DecodeError::InvalidType));
}

#[test]
fn every_step_has_its_statements() {
    assert_eq!(Insert::Population.reference_statement(), None);
    assert_eq!(
        Insert::Population.row_statement(),
        "INSERT INTO population (timestamp) VALUES (default) RETURNING population_id"
    );
    assert_eq!(
        Insert::World { world_id: 13 }.reference_statement(),
        Some("INSERT INTO world (world_id) VALUES ($1) ON CONFLICT DO NOTHING")
    );
    assert_eq!(
        Insert::World { world_id: 13 }.row_statement(),
        "INSERT INTO world_population (world_id, population_id) VALUES ($1, $2) RETURNING world_population_id"
    );
    assert_eq!(
        Insert::Zone { zone_id: 8 }.reference_statement(),
        Some("INSERT INTO zone (zone_id) VALUES ($1) ON CONFLICT DO NOTHING")
    );
    assert_eq!(
        Insert::Zone { zone_id: 8 }.row_statement(),
        "INSERT INTO zone_population (zone_id, world_population_id) VALUES ($1, $2) RETURNING zone_population_id"
    );
    assert_eq!(
        Insert::Team { team_id: 1 }.reference_statement(),
        Some("INSERT INTO faction (faction_id) VALUES ($1) ON CONFLICT DO NOTHING")
    );
    assert_eq!(
        Insert::Team { team_id: 1 }.row_statement(),
        "INSERT INTO team_population (team_id, zone_population_id) VALUES ($1, $2) RETURNING team_population_id"
    );
    assert_eq!(
        Insert::Loadout { loadout_id: 20, amount: 3 }.reference_statement(),
        Some("INSERT INTO loadout (loadout_id) VALUES ($1) ON CONFLICT DO NOTHING")
    );
    assert_eq!(
        Insert::Loadout { loadout_id: 20, amount: 3 }.row_statement(),
        "INSERT INTO loadout_population (loadout_id, team_population_id, amount) VALUES ($1, $2, $3)"
    );
    assert!(CURRENT_POPULATION_QUERY.contains("SELECT MAX(wp2.population_id)"));
    assert!(CURRENT_POPULATION_QUERY.ends_with("ORDER BY p.timestamp"));
}
