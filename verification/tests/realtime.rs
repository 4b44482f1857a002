use niumside_poptracker::census::constants::{Faction, Loadout, WorldID, ZoneID};
use niumside_poptracker::census::event::{Event, EventNames, GainExperience};
use niumside_poptracker::census::realtime::{
    client, get_census_address, get_subscription_settings, handle_census_msg,
    handle_connection_state, Backoff, Command, Phase, RealtimeClientConfig, State,
};
use niumside_poptracker::census::subscription::{
    CharacterSubscription, EventSubscription, WorldSubscription,
};
use niumside_poptracker::census::utils::DecodeError;
use niumside_poptracker::census::{CensusMessage, Service, CENSUS_URL, REALTIME_URL};

const REQUEST: &str = r#"{"action":"subscribe","eventNames":["GainExperience"],"characters":["all"],"logicalAndCharactersWithWorlds":true,"worlds":["all"],"service":"event"}"#;

fn config(url: Option<&str>) -> RealtimeClientConfig {
    RealtimeClientConfig {
        environment: "ps2".to_string(),
        service_id: "example".to_string(),
        realtime_url: url.map(str::to_string),
    }
}

fn streaming() -> State {
    State { phase: Phase::Streaming, attempts: 0 }
}

#[test]
fn the_usual_addresses() {
    assert_eq!(REALTIME_URL, "wss://push.planetside2.com/streaming");
    assert_eq!(CENSUS_URL, "https://census.daybreakgames.com");
}

#[test]
fn the_address_names_who_connects() {
    assert_eq!(
        get_census_address(&config(None)),
        "wss://push.planetside2.com/streaming?environment=ps2&service-id=s:example"
    );
    assert_eq!(
        get_census_address(&config(Some("wss://feed.example.org/"))),
        "wss://feed.example.org/?environment=ps2&service-id=s:example"
    );
    assert_eq!(
        get_census_address(&RealtimeClientConfig {
            environment: String::new(),
            service_id: "a b".to_string(),
            realtime_url: Some(String::new()),
        }),
        "?environment=&service-id=s:a b"
    );
}

#[test]
fn the_client_asks_for_the_activity_of_everyone() {
    let settings = get_subscription_settings();
    match settings.event_names {
        Some(EventSubscription::Ids(names)) => assert_eq!(names, vec![EventNames::GainExperience]),
        other => panic!("not a list of events: {other:?}"),
    }
    assert!(matches!(settings.characters, Some(CharacterSubscription::All)));
    assert!(matches!(settings.worlds, Some(WorldSubscription::All)));
    assert_eq!(settings.logical_and_characters_with_worlds, Some(true));
    assert_eq!(settings.service, Service::Event);
}

#[test]
fn the_client_connects_when_it_is_started() {
    let mut state = State::new();
    assert_eq!(state, State { phase: Phase::Disconnected, attempts: 0 });
    match client(&mut state, &config(None)) {
        Command::Connect { address } => assert_eq!(
            address,
            "wss://push.planetside2.com/streaming?environment=ps2&service-id=s:example"
        ),
        other => panic!("not told to connect: {other:?}"),
    }
    assert_eq!(state.phase, Phase::Connecting);
    assert!(matches!(client(&mut state, &config(None)), Command::Idle));
    assert_eq!(state.phase, Phase::Connecting);

    let mut state = State::new();
    assert!(matches!(client(&mut state, &config(Some("nowhere"))), Command::Abort));
    assert_eq!(state.phase, Phase::Disconnected);

    let mut state = State::new();
    match client(&mut state, &config(Some("WSS://Feed.Example.org"))) {
        Command::Connect { address } => {
            assert_eq!(address, "wss://feed.example.org/?environment=ps2&service-id=s:example");
        }
        other => panic!("not told to connect: {other:?}"),
    }
}

#[test]
fn the_subscription_is_sent_once_the_feed_is_ready() {
    let settings = get_subscription_settings();
    let mut state = State { phase: Phase::Connecting, attempts: 3 };
    state.on_connect();
    assert_eq!(state, State { phase: Phase::Subscribing, attempts: 3 });
    state.on_connect();
    assert_eq!(state.phase, Phase::Subscribing);

    let frame = r#"{"connected":"true","service":"push","type":"connectionStateChanged"}"#;
    match state.on_text(&settings, frame) {
        Command::Subscribe { request } => assert_eq!(request, REQUEST),
        other => panic!("not told to subscribe: {other:?}"),
    }
    assert_eq!(state, streaming());

    match handle_connection_state(true, &settings) {
        Command::Subscribe { request } => assert_eq!(request, REQUEST),
        other => panic!("not told to subscribe: {other:?}"),
    }
    assert!(matches!(handle_connection_state(false, &settings), Command::Idle));

    let frame = r#"{"connected":"false","type":"connectionStateChanged"}"#;
    assert!(matches!(state.on_text(&settings, frame), Command::Idle));
    assert_eq!(state, streaming());
}

#[test]
fn events_are_handed_on_and_heartbeats_counted() {
    let settings = get_subscription_settings();
    let mut state = streaming();
    let frame = r#"{"payload":{"amount":"28","character_id":"5429573939285739921","event_name":"GainExperience","experience_id":"140","loadout_id":"20","other_id":"34360508066","team_id":"1","timestamp":"1728117291","world_id":"13","zone_id":"8"},"service":"event","type":"serviceMessage"}"#;
    match state.on_text(&settings, frame) {
        Command::Dispatch { event } => assert_eq!(
            event,
            Event::GainExperience(GainExperience {
                character_id: 5_429_573_939_285_739_921,
                experience_id: 140,
                loadout_id: Loadout::VSHeavyAssault,
                other_id: 34_360_508_066,
                timestamp: 1_728_117_291,
                world_id: WorldID::Cobalt,
                zone_id: ZoneID(8),
                amount: 28,
                team_id: Faction::VS,
            })
        ),
        other => panic!("not told to dispatch: {other:?}"),
    }
    assert_eq!(state, streaming());
    assert!(matches!(
        state.on_text(&settings, r#"{"online":{},"type":"heartbeat"}"#),
        Command::Heartbeat
    ));
    assert!(matches!(
        state.on_text(&settings, r#"{"online":"true","detail":"x","type":"serviceStateChanged"}"#),
        Command::Idle
    ));
    assert!(matches!(
        handle_census_msg(&mut state, &settings, CensusMessage::Heartbeat { online: vec![] }),
        Command::Heartbeat
    ));
    assert_eq!(state, streaming());
}

#[test]
fn a_frame_that_is_not_understood_changes_nothing() {
    let settings = get_subscription_settings();
    for phase in [Phase::Disconnected, Phase::Connecting, Phase::Subscribing, Phase::Streaming] {
        let mut state = State { phase, attempts: 2 };
        assert!(matches!(
            state.on_text(&settings, "garbage"),
            Command::Report { error: DecodeError::Syntax }
        ));
        assert!(matches!(
            state.on_text(&settings, r#"{"type":"gossip"}"#),
            Command::Report { error: DecodeError::UnknownVariant }
        ));
        assert_eq!(state, State { phase, attempts: 2 });
    }
    let mut state = streaming();
    let unknown = r#"{"payload":{"event_name":"FishCaught"},"type":"serviceMessage"}"#;
    assert!(matches!(
        state.on_text(&settings, unknown),
        Command::Dispatch { event: Event::Unhandled }
    ));
    assert_eq!(state, streaming());
}

#[test]
fn no_message_is_handled_while_the_transport_is_closed() {
    let settings = get_subscription_settings();
    for phase in [Phase::Disconnected, Phase::Connecting] {
        let mut state = State { phase, attempts: 1 };
        let frame = r#"{"connected":"true","type":"connectionStateChanged"}"#;
        assert!(matches!(state.on_text(&settings, frame), Command::Idle));
        assert_eq!(state, State { phase, attempts: 1 });
    }
}

#[test]
fn a_failed_subscription_closes_the_connection() {
    let mut state = State { phase: Phase::Streaming, attempts: 0 };
    match state.on_send_failed() {
        Command::Close { reason } => assert_eq!(reason, "adios!"),
        other => panic!("not told to close: {other:?}"),
    }
}

#[test]
fn the_wait_doubles_with_every_loss() {
    let backoff = Backoff { initial: 1_000, maximum: 60_000 };
    assert_eq!(backoff.delay(0), 1_000);
    assert_eq!(backoff.delay(1), 2_000);
    assert_eq!(backoff.delay(2), 4_000);
    assert_eq!(backoff.delay(5), 32_000);
    assert_eq!(backoff.delay(6), 60_000);
    assert_eq!(backoff.delay(7), 60_000);
    assert_eq!(backoff.delay(u32::MAX), 60_000);
    assert_eq!(Backoff { initial: 0, maximum: 60_000 }.delay(9), 0);
    assert_eq!(Backoff { initial: 5, maximum: 3 }.delay(0), 3);
    assert_eq!(Backoff { initial: 1, maximum: u64::MAX }.delay(63), 1 << 63);
    assert_eq!(Backoff { initial: 1, maximum: u64::MAX }.delay(64), u64::MAX);
    assert_eq!(Backoff { initial: 3, maximum: u64::MAX }.delay(62), 3 << 62);
    assert_eq!(Backoff { initial: 3, maximum: u64::MAX }.delay(63), u64::MAX);
    assert_eq!(Backoff { initial: u64::MAX, maximum: u64::MAX }.delay(1), u64::MAX);
}

#[test]
fn a_lost_connection_is_made_again() {
    let backoff = Backoff { initial: 500, maximum: 4_000 };
    let mut state = streaming();
    let mut waits = Vec::new();
    for _ in 0..5 {
        match state.on_close(&backoff) {
            Command::Retry { delay } => waits.push(delay),
            other => panic!("not told to retry: {other:?}"),
        }
        assert_eq!(state.phase, Phase::Disconnected);
    }
    assert_eq!(waits, vec![500, 1_000, 2_000, 4_000, 4_000]);
    assert_eq!(state.attempts, 5);

    let mut state = State { phase: Phase::Subscribing, attempts: u32::MAX };
    assert!(matches!(state.on_close(&backoff), Command::Retry { delay: 4_000 }));
    assert_eq!(state, State { phase: Phase::Disconnected, attempts: u32::MAX });
}
