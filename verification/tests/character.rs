use niumside_poptracker::census::constants::Faction;
use niumside_poptracker::census::rest::client::CensusRequestError;
use niumside_poptracker::census::structs::character::{
    CensusResponse, Character, CharacterName, CharacterTimes, MembershipReminderStatus,
    REMINDER_AFTER_LOGIN, REMINDER_AFTER_REMINDER,
};

const NOW: i64 = 1_728_117_291;

fn known(last_login: i64) -> Character {
    Character {
        character_id: 5_428_830_384_575_692_145,
        name: CharacterName { first: "Brakenium".to_string(), first_lower: "brakenium".to_string() },
        times: Some(CharacterTimes {
            creation: 1_549_564_351,
            last_login,
            last_save: last_login,
            login_count: 3,
            minutes_played: 90,
        }),
        membership_reminder: None,
        faction: Faction::TR,
    }
}

#[test]
fn a_new_character_is_blank() {
    let character = Character::new(7);
    assert_eq!(character.character_id, 7);
    assert_eq!(character.name.first, "");
    assert_eq!(character.name.first_lower, "");
    assert!(character.times.is_none());
    assert!(character.membership_reminder.is_none());
    assert_eq!(character.faction, Faction::Unknown);
    assert_eq!(Character::default(), Character::new(0));
}

#[test]
fn the_first_of_an_answer_is_the_character() {
    let answer = CensusResponse { returned: 2, objects: vec![known(1), Character::new(9)] };
    assert_eq!(answer.first().unwrap(), known(1));
    let nothing = CensusResponse { returned: 0, objects: vec![] };
    assert!(matches!(nothing.first(), Err(CensusRequestError::NotFound)));
}

#[test]
fn a_character_takes_over_what_the_service_says() {
    let mut character = Character::new(5);
    character.membership_reminder =
        Some(MembershipReminderStatus { enabled: true, last_reminder: Some(3) });
    character.update_from_rest(known(10));
    assert_eq!(character.character_id, 5);
    assert_eq!(character.name.first, "Brakenium");
    assert_eq!(character.times.unwrap().last_login, 10);
    assert_eq!(character.faction, Faction::TR);
    assert_eq!(
        character.membership_reminder,
        Some(MembershipReminderStatus { enabled: true, last_reminder: Some(3) })
    );
}

#[test]
fn reminders_are_due_after_a_day() {
    assert_eq!(REMINDER_AFTER_LOGIN, 75_600);
    assert_eq!(REMINDER_AFTER_REMINDER, 86_400);
    let never = MembershipReminderStatus { enabled: true, last_reminder: None };
    let reminded = |at: i64| MembershipReminderStatus { enabled: true, last_reminder: Some(at) };
    assert!(Character::new(1).needs_reminder(&never, NOW));
    assert!(Character::new(1).needs_reminder(&reminded(NOW), NOW));
    assert!(!known(NOW).needs_reminder(&never, NOW));
    assert!(!known(NOW - 75_599).needs_reminder(&never, NOW));
    assert!(known(NOW - 75_600).needs_reminder(&never, NOW));
    assert!(!known(NOW - 80_000).needs_reminder(&reminded(NOW - 86_399), NOW));
    assert!(known(NOW - 80_000).needs_reminder(&reminded(NOW - 86_400), NOW));
    assert!(known(i64::MIN).needs_reminder(&reminded(i64::MIN), i64::MAX));
    assert!(!known(i64::MAX).needs_reminder(&never, i64::MIN));
}
