use chrono::DateTime;
use niumside_poptracker::census::constants::{Faction, Loadout, WorldID, ZoneID};
use niumside_poptracker::census::event::{Event, EventNames, GainExperience};
use niumside_poptracker::census::subscription::{
    CharacterSubscription, EventSubscription, SubscriptionSettings, WorldSubscription,
};
use niumside_poptracker::census::utils::{
    de_bool_from_str_int, deserialize_duration_from_str, deserialize_from_str,
    deserialize_from_str_custom_impl, serialize_all_subscription,
    serialize_char_ids_subscription, serialize_duration, serialize_optional_bool,
    serialize_world_ids_subscription, DecodeError,
};
use niumside_poptracker::census::{Action, CensusMessage, Service};
use niumside_poptracker::json::Json;

#[test]
#[allow(clippy::unwrap_used)]
fn test_gain_experience_deserialization() {
    let json_str = r#"{"payload":{"amount":"28","character_id":"5429573939285739921","event_name":"GainExperience","experience_id":"140","loadout_id":"20","other_id":"34360508066","team_id":"1","timestamp":"1728117291","world_id":"13","zone_id":"8"},"service":"event","type":"serviceMessage"}"#;
    let json_value = Json::parse(json_str).unwrap();
    let event: CensusMessage = CensusMessage::decode(&json_value).unwrap();

    if let CensusMessage::ServiceMessage { payload, .. } = event {
        match payload {
            Event::GainExperience(GainExperience {
                character_id,
                experience_id,
                loadout_id,
                other_id,
                timestamp,
                world_id,
                zone_id,
                amount,
                team_id,
            }) => {
                assert_eq!(character_id, 5_429_573_939_285_739_921);
                assert_eq!(experience_id, 140);
                assert_eq!(loadout_id, Loadout::VSHeavyAssault);
                assert_eq!(other_id, 34_360_508_066);
                assert_eq!(
                    DateTime::from_timestamp(timestamp, 0).unwrap(),
                    DateTime::from_timestamp(1_728_117_291, 0).unwrap()
                );
                assert_eq!(world_id, WorldID::Cobalt);
                assert_eq!(zone_id, ZoneID(8));
                assert_eq!(amount, 28);
                assert_eq!(team_id, Faction::VS);
            }
            _ => panic!("Unexpected event type"),
        }
    } else {
        panic!("Unexpected message type");
    }
}

#[test]
fn a_frame_is_read_from_its_text() {
    let text = r#"{"payload":{"amount":"1","character_id":"1001","event_name":"GainExperience","experience_id":"7","loadout_id":"NCMedic","other_id":"0","team_id":"2","timestamp":"-5","world_id":"Emerald","zone_id":"2"},"service":"event","type":"serviceMessage"}"#;
    let expected = CensusMessage::ServiceMessage {
        payload: Event::GainExperience(GainExperience {
            character_id: 1001,
            experience_id: 7,
            loadout_id: Loadout::NCMedic,
            other_id: 0,
            timestamp: -5,
            world_id: WorldID::Emerald,
            zone_id: ZoneID(2),
            amount: 1,
            team_id: Faction::NC,
        }),
    };
    assert_eq!(CensusMessage::parse(text), Ok(expected));
}

#[test]
fn the_control_messages_are_read() {
    assert_eq!(
        CensusMessage::parse(
            r#"{"connected":"true","service":"push","type":"connectionStateChanged"}"#
        ),
        Ok(CensusMessage::ConnectionStateChanged { connected: true })
    );
    assert_eq!(
        CensusMessage::parse(r#"{"connected":"false","type":"connectionStateChanged"}"#),
        Ok(CensusMessage::ConnectionStateChanged { connected: false })
    );
    assert_eq!(
        CensusMessage::parse(
            r#"{"detail":"EventServerEndpoint_Cobalt_13","online":"true","service":"event","type":"serviceStateChanged"}"#
        ),
        Ok(CensusMessage::ServiceStateChanged {
            online: true,
            detail: "EventServerEndpoint_Cobalt_13".to_string()
        })
    );
    let heartbeat = CensusMessage::parse(
        r#"{"online":{"EventServerEndpoint_Cobalt_13":"true","EventServerEndpoint_Jaeger_19":"false"},"service":"event","type":"heartbeat"}"#,
    );
    match heartbeat {
        Ok(CensusMessage::Heartbeat { online }) => {
            assert_eq!(online.len(), 2);
            assert_eq!(online[0].endpoint, "EventServerEndpoint_Cobalt_13");
            assert_eq!(online[0].online, "true");
            assert_eq!(online[1].endpoint, "EventServerEndpoint_Jaeger_19");
            assert_eq!(online[1].online, "false");
        }
        other => panic!("not a heartbeat: {other:?}"),
    }
    let report = CensusMessage::parse(
        r#"{"subscription":{"characterCount":3,"eventNames":["GainExperience"],"logicalAndCharactersWithWorlds":true,"worlds":["13","17"]},"type":"subscription"}"#,
    );
    match report {
        Ok(CensusMessage::Subscription { subscription }) => {
            assert_eq!(subscription.character_count, 3);
            assert_eq!(subscription.event_names, vec!["GainExperience".to_string()]);
            assert!(subscription.logical_and_characters_with_worlds);
            assert_eq!(subscription.worlds, vec!["13".to_string(), "17".to_string()]);
        }
        other => panic!("not a subscription report: {other:?}"),
    }
}

#[test]
fn an_unknown_kind_of_event_is_no_error() {
    let text = r#"{"payload":{"event_name":"FishCaught","character_id":"1"},"type":"serviceMessage"}"#;
    assert_eq!(
        CensusMessage::parse(text),
        Ok(CensusMessage::ServiceMessage { payload: Event::Unhandled })
    );
    let text = r#"{"payload":{"event_name":"BattleRankUp"},"type":"serviceMessage"}"#;
    assert_eq!(
        CensusMessage::parse(text),
        Ok(CensusMessage::ServiceMessage { payload: Event::BattleRankUp })
    );
}

#[test]
fn the_other_events_are_read() {
    let text = r#"{"payload":{"event_name":"PlayerLogin","character_id":"42","timestamp":"1700000000","world_id":"17"},"type":"serviceMessage"}"#;
    match CensusMessage::parse(text) {
        Ok(CensusMessage::ServiceMessage { payload: Event::PlayerLogin(login) }) => {
            assert_eq!(login.character_id, 42);
            assert_eq!(login.timestamp, 1_700_000_000);
            assert_eq!(login.world_id, WorldID::Emerald);
        }
        other => panic!("not a login: {other:?}"),
    }
    let text = r#"{"payload":{"event_name":"Death","attacker_character_id":"1","attacker_fire_mode_id":"2","attacker_loadout_id":"6","attacker_vehicle_id":"0","attacker_weapon_id":"80","character_id":"9","character_loadout_id":"15","is_headshot":"1","timestamp":"10","world_id":"1","zone_id":"4"},"type":"serviceMessage"}"#;
    match CensusMessage::parse(text) {
        Ok(CensusMessage::ServiceMessage { payload: Event::Death(death) }) => {
            assert_eq!(death.attacker_loadout_id, Loadout::NCHeavyAssault);
            assert_eq!(death.character_loadout_id, Loadout::VSInfiltrator);
            assert!(death.is_headshot);
            assert_eq!(death.vehicle_id, 0);
            assert_eq!(death.world_id, WorldID::Connery);
            assert_eq!(death.zone_id, ZoneID(4));
        }
        other => panic!("not a death: {other:?}"),
    }
    let text = r#"{"payload":{"event_name":"FacilityControl","duration_held":"-3","facility_id":"7","new_faction_id":"1","old_faction_id":"2","outfit_id":12,"timestamp":"10","world_id":"1","zone_id":"4"},"type":"serviceMessage"}"#;
    match CensusMessage::parse(text) {
        Ok(CensusMessage::ServiceMessage { payload: Event::FacilityControl(control) }) => {
            assert_eq!(control.duration_held, -3);
            assert_eq!(control.outfit_id, 12);
            assert_eq!(control.new_faction_id, Faction::VS);
        }
        other => panic!("not a change of hands: {other:?}"),
    }
    let text = r#"{"payload":{"event_name":"MetagameEvent","timestamp":"10","world_id":"1","instance_id":"5","experience_bonus":"25.000000","faction_nc":"33.3","faction_tr":"33.3","faction_vs":"33.4","metagame_event_id":"147","metagame_event_state":"135","metagame_event_state_name":"started","zone_id":"4"},"type":"serviceMessage"}"#;
    match CensusMessage::parse(text) {
        Ok(CensusMessage::ServiceMessage { payload: Event::MetagameEvent(alert) }) => {
            assert_eq!(alert.experience_bonus, "25.000000");
            assert_eq!(alert.faction_vs, "33.4");
            assert_eq!(alert.metagame_event_state_name, "started");
            assert_eq!(alert.metagame_event_id, 147);
        }
        other => panic!("not an alert: {other:?}"),
    }
}

#[test]
fn each_error_has_an_input_that_gives_it() {
    assert_eq!(CensusMessage::parse("{"), Err(DecodeError::Syntax));
    assert_eq!(CensusMessage::parse(""), Err(DecodeError::Syntax));
    assert_eq!(CensusMessage::parse("[]"), Err(DecodeError::InvalidType));
    assert_eq!(CensusMessage::parse("{}"), Err(DecodeError::MissingField));
    assert_eq!(CensusMessage::parse(r#"{"type":7}"#), Err(DecodeError::InvalidType));
    assert_eq!(CensusMessage::parse(r#"{"type":"gossip"}"#), Err(DecodeError::UnknownVariant));
    assert_eq!(
        CensusMessage::parse(r#"{"type":"connectionStateChanged"}"#),
        Err(DecodeError::MissingField)
    );
    assert_eq!(
        CensusMessage::parse(r#"{"type":"connectionStateChanged","connected":true}"#),
        Err(DecodeError::InvalidType)
    );
    assert_eq!(
        CensusMessage::parse(r#"{"type":"connectionStateChanged","connected":"yes"}"#),
        Err(DecodeError::InvalidValue)
    );
    assert_eq!(
        CensusMessage::parse(r#"{"type":"serviceMessage","payload":"x"}"#),
        Err(DecodeError::InvalidType)
    );
    assert_eq!(
        CensusMessage::parse(r#"{"type":"serviceMessage","payload":{}}"#),
        Err(DecodeError::MissingField)
    );
    assert_eq!(
        CensusMessage::parse(
            r#"{"type":"serviceMessage","payload":{"event_name":"PlayerLogin","character_id":"42","timestamp":"1700000000","world_id":"2"}}"#
        ),
        Err(DecodeError::InvalidValue)
    );
    assert_eq!(
        CensusMessage::parse(
            r#"{"type":"serviceMessage","payload":{"event_name":"PlayerLogin","character_id":42,"timestamp":"1700000000","world_id":"1"}}"#
        ),
        Err(DecodeError::InvalidType)
    );
    assert_eq!(
        CensusMessage::parse(r#"{"type":"heartbeat","online":{"a":1}}"#),
        Err(DecodeError::InvalidType)
    );
    assert_eq!(
        CensusMessage::parse(
            r#"{"type":"subscription","subscription":{"characterCount":1.5,"eventNames":[],"logicalAndCharactersWithWorlds":true,"worlds":[]}}"#
        ),
        Err(DecodeError::InvalidValue)
    );
}

#[test]
fn single_values_are_read_from_strings() {
    let text = |s: &str| Json::Text(s.to_string());
    assert_eq!(deserialize_from_str::<u64>(&text("12")), Ok(12));
    assert_eq!(deserialize_from_str::<u16>(&text("65536")), Err(DecodeError::InvalidValue));
    assert_eq!(deserialize_from_str::<u8>(&Json::Number("1".to_string())), Err(DecodeError::InvalidType));
    assert_eq!(deserialize_from_str::<bool>(&text("false")), Ok(false));
    assert_eq!(deserialize_from_str::<bool>(&text("False")), Err(DecodeError::InvalidValue));
    assert_eq!(deserialize_from_str::<WorldID>(&text("40")), Ok(WorldID::Soltech));
    assert_eq!(deserialize_from_str::<ZoneID>(&text("344")), Ok(ZoneID(344)));
    assert_eq!(
        deserialize_from_str_custom_impl::<Loadout>(&text("45")),
        Ok(Loadout::NSMAX)
    );
    assert_eq!(
        deserialize_from_str_custom_impl::<Loadout>(&text("NSMAX")),
        Ok(Loadout::NSMAX)
    );
    assert_eq!(
        deserialize_from_str_custom_impl::<Faction>(&text("9")),
        Err(DecodeError::InvalidValue)
    );
    assert_eq!(deserialize_duration_from_str(&text("-90")), Ok(-90));
    assert_eq!(deserialize_duration_from_str(&text("1.5")), Err(DecodeError::InvalidValue));
    assert_eq!(de_bool_from_str_int(&text("0")), Ok(false));
    assert_eq!(de_bool_from_str_int(&text("1")), Ok(true));
    assert_eq!(de_bool_from_str_int(&text("2")), Err(DecodeError::InvalidValue));
    assert_eq!(de_bool_from_str_int(&text("255")), Err(DecodeError::InvalidValue));
    assert_eq!(de_bool_from_str_int(&text("256")), Err(DecodeError::InvalidType));
    assert_eq!(de_bool_from_str_int(&text("true")), Err(DecodeError::InvalidType));
    assert_eq!(de_bool_from_str_int(&Json::Bool(true)), Err(DecodeError::InvalidType));
}

#[test]
fn single_values_are_written_as_the_feed_wants_them() {
    assert_eq!(serialize_optional_bool(&None).render(), "null");
    assert_eq!(serialize_optional_bool(&Some(true)).render(), r#""true""#);
    assert_eq!(serialize_optional_bool(&Some(false)).render(), r#""false""#);
    assert_eq!(serialize_all_subscription().render(), r#"["all"]"#);
    assert_eq!(
        serialize_char_ids_subscription(&[5_429_573_939_285_739_921, 7]).render(),
        r#"["5429573939285739921","7"]"#
    );
    assert_eq!(serialize_char_ids_subscription(&[]).render(), "[]");
    assert_eq!(
        serialize_world_ids_subscription(&vec![WorldID::Cobalt, WorldID::Connery]).render(),
        r#"["13","1"]"#
    );
    assert_eq!(serialize_duration(-90).render(), "-90");
    assert_eq!(serialize_duration(3600).render(), "3600");
}

#[test]
fn event_names_are_written_as_words() {
    assert_eq!(EventNames::GainExperience.serialize(), "GainExperience");
    assert_eq!(EventNames::PlayerLogout.serialize(), "PlayerLogout");
    assert_eq!(
        EventNames::GainExperienceId(140).serialize(),
        "GainExperience_experience_id_140"
    );
    assert_eq!(EventNames::GainExperienceId(0).serialize(), "GainExperience_experience_id_0");
    assert_eq!(Event::Unhandled.name(), "Unhandled");
    assert_eq!(Event::SkillAdded.name(), "SkillAdded");
}

#[test]
fn the_subscription_request_is_written_out() {
    let settings = SubscriptionSettings {
        event_names: Some(EventSubscription::Ids(vec![EventNames::GainExperience])),
        characters: Some(CharacterSubscription::All),
        worlds: Some(WorldSubscription::All),
        logical_and_characters_with_worlds: Some(true),
        service: Service::Event,
    };
    assert_eq!(
        Action::subscribe_text(&settings),
        r#"{"action":"subscribe","eventNames":["GainExperience"],"characters":["all"],"logicalAndCharactersWithWorlds":true,"worlds":["all"],"service":"event"}"#
    );
    assert_eq!(
        Action::Subscribe(SubscriptionSettings::default()).to_text(),
        r#"{"action":"subscribe","eventNames":["all"],"characters":["all"],"worlds":["all"],"service":"event"}"#
    );
    let narrow = SubscriptionSettings {
        event_names: Some(EventSubscription::Ids(vec![
            EventNames::Death,
            EventNames::GainExperienceId(7),
        ])),
        characters: Some(CharacterSubscription::Ids(vec![1001, 1002])),
        worlds: Some(WorldSubscription::Ids(vec![WorldID::Miller])),
        logical_and_characters_with_worlds: None,
        service: Service::Event,
    };
    assert_eq!(
        Action::Subscribe(narrow).to_text(),
        r#"{"action":"subscribe","eventNames":["Death","GainExperience_experience_id_7"],"characters":["1001","1002"],"worlds":["10"],"service":"event"}"#
    );
}

#[test]
fn the_other_requests_are_written_out() {
    assert_eq!(
        Action::RecentCharacterIds { service: Service::Event }.to_text(),
        r#"{"action":"recentCharacterIds","service":"event"}"#
    );
    assert_eq!(
        Action::RecentCharacterIdsCount { service: Service::Event }.to_text(),
        r#"{"action":"recentCharacterIdsCount","service":"event"}"#
    );
    assert_eq!(
        Action::Echo {
            payload: Json::parse(r#"{"a":[1,-2,"x",null,false]}"#).unwrap(),
            service: Service::Event
        }
            .to_text(),
        r#"{"action":"echo","payload":{"a":[1,-2,"x",null,false]},"service":"event"}"#
    );
    assert_eq!(
        Action::ClearSubscribe {
            all: Some(true),
            event_names: None,
            characters: None,
            worlds: None,
            service: Service::Event
        }
        .to_text(),
        r#"{"action":"clearSubscribe","all":"true","service":"event"}"#
    );
    assert_eq!(
        Action::ClearSubscribe {
            all: None,
            event_names: Some(EventSubscription::All),
            characters: Some(CharacterSubscription::Ids(vec![3])),
            worlds: Some(WorldSubscription::Ids(vec![])),
            service: Service::Event
        }
        .to_text(),
        r#"{"action":"clearSubscribe","eventNames":["all"],"characters":["3"],"worlds":[],"service":"event"}"#
    );
}

#[test]
fn documents_are_read_and_written_by_serde_json() {
    assert!(Json::parse("nonsense").is_none());
    assert!(Json::parse(r#"{"a":1"#).is_none());
    let document = Json::parse(r#" { "b" : "x\ny", "a" : [ 1.5e3, true ] } "#).unwrap();
    assert_eq!(document.render(), r#"{"b":"x\ny","a":[1500.0,true]}"#);
    match document {
        Json::Object(members) => {
            assert_eq!(members.len(), 2);
            assert_eq!(members[0].name, "b");
            assert_eq!(members[1].name, "a");
        }
        other => panic!("not an object: {other:?}"),
    }
    assert_eq!(Json::Text("say \"hi\"".to_string()).render(), r#""say \"hi\"""#);
    assert_eq!(Json::Number("not a number".to_string()).render(), "null");
}
