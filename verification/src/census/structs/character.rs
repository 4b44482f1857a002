//! A character as the query service describes it.
use crate::census::constants::{CharacterID, Faction};
use crate::census::event::Timestamp;
use crate::census::rest::client::CensusRequestError;
use vstd::prelude::*;

verus! {

#[allow(clippy::struct_field_names)]
#[derive(PartialEq, Eq, Debug, Clone, Hash)]
pub struct Character {
    pub character_id: CharacterID,
    pub name: CharacterName,
    pub times: Option<CharacterTimes>,
    pub membership_reminder: Option<MembershipReminderStatus>,
    pub faction: Faction,
}

#[derive(PartialEq, Eq, Debug, Clone, Copy, Hash, Structural)]
pub struct MembershipReminderStatus {
    pub enabled: bool,
    pub last_reminder: Option<Timestamp>,
}

#[derive(PartialEq, Eq, Debug, Clone, Hash)]
pub struct CharacterName {
    pub first: String,
    pub first_lower: String,
}

#[derive(PartialEq, Eq, Debug, Clone, Copy, Hash, Structural)]
pub struct CharacterTimes {
    pub creation: Timestamp,
    pub last_login: Timestamp,
    pub last_save: Timestamp,
    pub login_count: u64,
    pub minutes_played: u64,
}

impl Character {
    /// Whether nothing but the number is known of the character.
    pub open spec fn is_blank(self) -> bool {
        &&& self.name.first@.len() == 0
        &&& self.name.first_lower@.len() == 0
        &&& self.times is None
        &&& self.membership_reminder is None
        &&& self.faction == Faction::Unknown
    }

    /// A character of which only the number is known.
    pub fn new(character_id: CharacterID) -> (character: Self)
        ensures
            character.character_id == character_id,
            character.is_blank(),
    {
        Self {
            character_id,
            name: CharacterName { first: String::new(), first_lower: String::new() },
            times: None,
            membership_reminder: None,
            faction: Faction::Unknown,
        }
    }
}

impl Default for Character {
    fn default() -> (character: Self)
        ensures
            character.character_id == 0,
            character.is_blank(),
    {
        Self::new(0)
    }
}

/// For how many seconds after a login no reminder is due.
pub const REMINDER_AFTER_LOGIN: i64 = 21 * 60 * 60;

/// For how many seconds after a reminder no further one is due.
pub const REMINDER_AFTER_REMINDER: i64 = 24 * 60 * 60;

/// What the query service answers when it is asked for characters.
#[derive(PartialEq, Eq, Debug, Clone, Hash)]
pub struct CensusResponse {
    pub returned: usize,
    pub objects: Vec<Character>,
}

impl CensusResponse {
    /// The character that was asked for: the first of the answer. An answer
    /// that holds none says that there is no such character.
    pub fn first(self) -> (r: Result<Character, CensusRequestError>)
        ensures
            match r {
                Ok(character) => self.objects@.len() > 0 && character == self.objects@[0],
                Err(e) => self.objects@.len() == 0 && e is NotFound,
            },
    {
        let mut objects = self.objects;
        if objects.len() == 0 {
            Err(CensusRequestError::NotFound)
        } else {
            Ok(objects.remove(0))
        }
    }
}

impl Character {
    /// Takes over what the query service says of this character: its name,
    /// its times and its faction. The number and the reminder stay.
    pub fn update_from_rest(&mut self, character: Character)
        ensures
            final(self).name == character.name,
            final(self).times == character.times,
            final(self).faction == character.faction,
            final(self).character_id == old(self).character_id,
            final(self).membership_reminder == old(self).membership_reminder,
    {
        self.name = character.name;
        self.times = character.times;
        self.faction = character.faction;
    }

    /// Whether a reminder to log in is due at the time `now`. None is due
    /// within 21 hours of the last login, nor within 24 hours of the last
    /// reminder; of a character whose times are not known, one is always due.
    pub open spec fn reminder_is_due(
        self,
        status: MembershipReminderStatus,
        now: Timestamp,
    ) -> bool {
        match self.times {
            None => true,
            Some(times) => {
                if times.last_login > now - REMINDER_AFTER_LOGIN {
                    false
                } else {
                    match status.last_reminder {
                        Some(last_reminder) => !(last_reminder > now - REMINDER_AFTER_REMINDER),
                        None => true,
                    }
                }
            },
        }
    }

    /// Whether a reminder to log in is due at the time `now`.
    pub fn needs_reminder(&self, status: &MembershipReminderStatus, now: Timestamp) -> (due: bool)
        ensures
            due == self.reminder_is_due(*status, now),
    {
        match &self.times {
            None => true,
            Some(times) => {
                if (times.last_login as i128) > (now as i128) - (REMINDER_AFTER_LOGIN as i128) {
                    false
                } else {
                    match status.last_reminder {
                        Some(last_reminder) => !((last_reminder as i128) > (now as i128) - (
                        REMINDER_AFTER_REMINDER as i128)),
                        None => true,
                    }
                }
            },
        }
    }
}

} // verus!
