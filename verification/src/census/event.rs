//! The events that the feed reports, as typed values.
use crate::census::constants::{
    CharacterID, ExperienceID, FacilityID, Faction, FiremodeID, Loadout, OutfitID, VehicleID,
    WeaponID, WorldID, ZoneID,
};
use crate::census::utils::{
    field, field_or, flag_field, number_field, spec_field, spec_field_or, spec_flag_field,
    spec_number_field, spec_text_field, text_field, DecodeError,
};
use crate::json::{get, member, members_view, Json, JsonValue, Member, MemberValue};
use crate::text::{chars_of, decimal_text, spells, u64_to_string};
use vstd::prelude::*;
use vstd::string::StringExecFns;

verus! {

/// A point in time: seconds since the Unix epoch, in UTC.
pub type Timestamp = i64;

/// The kinds of event that a subscription can ask for.
#[derive(Clone, Copy, PartialEq, Eq, Debug, Hash, Structural)]
pub enum EventNames {
    AchievementEarned,
    BattleRankUp,
    Death,
    ItemAdded,
    SkillAdded,
    VehicleDestroy,
    GainExperience,
    GainExperienceId(ExperienceID),
    PlayerFacilityCapture,
    PlayerFacilityDefend,
    ContinentLock,
    ContinentUnlock,
    FacilityControl,
    MetagameEvent,
    PlayerLogin,
    PlayerLogout,
}

impl EventNames {
    /// The word by which a subscription request names this kind of event.
    pub open spec fn spec_serialize(self) -> Seq<char> {
        match self {
            Self::AchievementEarned => "AchievementEarned"@,
            Self::BattleRankUp => "BattleRankUp"@,
            Self::Death => "Death"@,
            Self::ItemAdded => "ItemAdded"@,
            Self::SkillAdded => "SkillAdded"@,
            Self::VehicleDestroy => "VehicleDestroy"@,
            Self::GainExperience => "GainExperience"@,
            Self::GainExperienceId(value) => "GainExperience_experience_id_"@ + decimal_text(
                value as nat,
            ),
            Self::PlayerFacilityCapture => "PlayerFacilityCapture"@,
            Self::PlayerFacilityDefend => "PlayerFacilityDefend"@,
            Self::ContinentLock => "ContinentLock"@,
            Self::ContinentUnlock => "ContinentUnlock"@,
            Self::FacilityControl => "FacilityControl"@,
            Self::MetagameEvent => "MetagameEvent"@,
            Self::PlayerLogin => "PlayerLogin"@,
            Self::PlayerLogout => "PlayerLogout"@,
        }
    }

    /// Writes the word by which a subscription request names this kind of
    /// event.
    pub fn serialize(&self) -> (word: String)
        ensures
            word@ == self.spec_serialize(),
    {
        match *self {
            Self::AchievementEarned => String::from_str("AchievementEarned"),
            Self::BattleRankUp => String::from_str("BattleRankUp"),
            Self::Death => String::from_str("Death"),
            Self::ItemAdded => String::from_str("ItemAdded"),
            Self::SkillAdded => String::from_str("SkillAdded"),
            Self::VehicleDestroy => String::from_str("VehicleDestroy"),
            Self::GainExperience => String::from_str("GainExperience"),
            Self::GainExperienceId(value) => {
                let number = u64_to_string(value as u64);
                String::from_str("GainExperience_experience_id_").concat(number.as_str())
            },
            Self::PlayerFacilityCapture => String::from_str("PlayerFacilityCapture"),
            Self::PlayerFacilityDefend => String::from_str("PlayerFacilityDefend"),
            Self::ContinentLock => String::from_str("ContinentLock"),
            Self::ContinentUnlock => String::from_str("ContinentUnlock"),
            Self::FacilityControl => String::from_str("FacilityControl"),
            Self::MetagameEvent => String::from_str("MetagameEvent"),
            Self::PlayerLogin => String::from_str("PlayerLogin"),
            Self::PlayerLogout => String::from_str("PlayerLogout"),
        }
    }
}

#[derive(Clone, Copy, PartialEq, Eq, Debug, Hash, Structural)]
pub struct PlayerLogin {
    pub character_id: CharacterID,
    pub timestamp: Timestamp,
    pub world_id: WorldID,
}

#[derive(Clone, Copy, PartialEq, Eq, Debug, Hash, Structural)]
pub struct PlayerLogout {
    pub character_id: CharacterID,
    pub timestamp: Timestamp,
    pub world_id: WorldID,
}

#[derive(Clone, Copy, PartialEq, Eq, Debug, Hash, Structural)]
pub struct Death {
    pub attacker_character_id: CharacterID,
    pub attacker_fire_mode_id: FiremodeID,
    pub attacker_loadout_id: Loadout,
    pub attacker_vehicle_id: VehicleID,
    pub attacker_weapon_id: WeaponID,
    pub character_id: CharacterID,
    pub character_loadout_id: Loadout,
    pub is_headshot: bool,
    pub timestamp: Timestamp,
    pub vehicle_id: VehicleID,
    pub world_id: WorldID,
    pub zone_id: ZoneID,
}

#[derive(Clone, Copy, PartialEq, Eq, Debug, Hash, Structural)]
pub struct VehicleDestroy {
    pub attacker_character_id: CharacterID,
    pub attacker_loadout_id: Loadout,
    pub attacker_vehicle_id: VehicleID,
    pub attacker_weapon_id: WeaponID,
    pub character_id: CharacterID,
    pub facility_id: FacilityID,
    pub faction_id: Faction,
    pub timestamp: Timestamp,
    pub vehicle_id: VehicleID,
    pub world_id: WorldID,
    pub zone_id: ZoneID,
}

/// One pulse of activity of a character: the one kind of event that feeds
/// the population figures.
#[derive(Clone, Copy, PartialEq, Eq, Debug, Hash, Structural)]
pub struct GainExperience {
    pub character_id: CharacterID,
    pub experience_id: ExperienceID,
    pub loadout_id: Loadout,
    pub other_id: CharacterID,
    pub timestamp: Timestamp,
    pub world_id: WorldID,
    pub zone_id: ZoneID,
    pub amount: u16,
    pub team_id: Faction,
}

#[derive(Clone, Copy, PartialEq, Eq, Debug, Hash, Structural)]
pub struct PlayerFacilityCapture {
    pub character_id: CharacterID,
    pub facility_id: FacilityID,
    pub outfit_id: OutfitID,
    pub timestamp: Timestamp,
    pub world_id: WorldID,
    pub zone_id: ZoneID,
}

#[derive(Clone, Copy, PartialEq, Eq, Debug, Hash, Structural)]
pub struct PlayerFacilityDefend {
    pub character_id: CharacterID,
    pub facility_id: FacilityID,
    pub outfit_id: OutfitID,
    pub timestamp: Timestamp,
    pub world_id: WorldID,
    pub zone_id: ZoneID,
}

#[derive(Clone, Copy, PartialEq, Eq, Debug, Hash, Structural)]
pub struct FacilityControl {
    /// For how long the facility was held, in seconds.
    pub duration_held: i64,
    pub facility_id: FacilityID,
    pub new_faction_id: Faction,
    pub old_faction_id: Faction,
    pub outfit_id: OutfitID,
    pub timestamp: Timestamp,
    pub world_id: WorldID,
    pub zone_id: ZoneID,
}

#[derive(Clone, Copy, PartialEq, Eq, Debug, Hash, Structural)]
pub struct ContinentLock {
    pub timestamp: Timestamp,
    pub world_id: WorldID,
    pub zone_id: ZoneID,
    pub triggering_faction: Faction,
    pub previous_faction: Faction,
    pub vs_population: u16,
    pub nc_population: u16,
    pub tr_population: u16,
    pub metagame_event_id: u8,
}

#[derive(Clone, Copy, PartialEq, Eq, Debug, Hash, Structural)]
pub struct ContinentUnlock {
    pub timestamp: Timestamp,
    pub world_id: WorldID,
    pub zone_id: ZoneID,
    pub triggering_faction: Faction,
    pub previous_faction: Faction,
    pub vs_population: u16,
    pub nc_population: u16,
    pub tr_population: u16,
    pub metagame_event_id: u8,
}

/// An alert. The bonus and the factions' shares are kept as the decimal
/// texts that the feed sent.
#[derive(Clone, PartialEq, Eq, Debug, Hash)]
pub struct MetagameEvent {
    pub timestamp: Timestamp,
    pub world_id: WorldID,
    pub instance_id: u32,
    pub experience_bonus: String,
    pub faction_nc: String,
    pub faction_tr: String,
    pub faction_vs: String,
    pub metagame_event_id: u8,
    pub metagame_event_state: u8,
    pub metagame_event_state_name: String,
    pub zone_id: ZoneID,
}

/// One event of the feed. `Unhandled` stands for a kind that this library
/// does not know: receiving one is no error.
#[derive(Clone, PartialEq, Eq, Debug)]
pub enum Event {
    PlayerLogin(PlayerLogin),
    PlayerLogout(PlayerLogout),
    Death(Death),
    VehicleDestroy(VehicleDestroy),
    GainExperience(GainExperience),
    PlayerFacilityCapture(PlayerFacilityCapture),
    PlayerFacilityDefend(PlayerFacilityDefend),
    ContinentLock(ContinentLock),
    ContinentUnlock(ContinentUnlock),
    FacilityControl(FacilityControl),
    MetagameEvent(MetagameEvent),
    ItemAdded,
    AchievementEarned,
    SkillAdded,
    BattleRankUp,
    Unhandled,
}

impl Event {
    /// The name of the event's kind; for an unhandled kind, `Unhandled`.
    pub open spec fn spec_name(self) -> Seq<char> {
        match self {
            Self::PlayerLogin(_) => "PlayerLogin"@,
            Self::PlayerLogout(_) => "PlayerLogout"@,
            Self::Death(_) => "Death"@,
            Self::VehicleDestroy(_) => "VehicleDestroy"@,
            Self::GainExperience(_) => "GainExperience"@,
            Self::PlayerFacilityCapture(_) => "PlayerFacilityCapture"@,
            Self::PlayerFacilityDefend(_) => "PlayerFacilityDefend"@,
            Self::ContinentLock(_) => "ContinentLock"@,
            Self::ContinentUnlock(_) => "ContinentUnlock"@,
            Self::FacilityControl(_) => "FacilityControl"@,
            Self::MetagameEvent(_) => "MetagameEvent"@,
            Self::ItemAdded => "ItemAdded"@,
            Self::AchievementEarned => "AchievementEarned"@,
            Self::SkillAdded => "SkillAdded"@,
            Self::BattleRankUp => "BattleRankUp"@,
            Self::Unhandled => "Unhandled"@,
        }
    }

    /// The name of the event's kind, as it is shown to a reader.
    pub fn name(&self) -> (name: &'static str)
        ensures
            name@ == self.spec_name(),
    {
        match self {
            Self::PlayerLogin(_) => "PlayerLogin",
            Self::PlayerLogout(_) => "PlayerLogout",
            Self::Death(_) => "Death",
            Self::VehicleDestroy(_) => "VehicleDestroy",
            Self::GainExperience(_) => "GainExperience",
            Self::PlayerFacilityCapture(_) => "PlayerFacilityCapture",
            Self::PlayerFacilityDefend(_) => "PlayerFacilityDefend",
            Self::ContinentLock(_) => "ContinentLock",
            Self::ContinentUnlock(_) => "ContinentUnlock",
            Self::FacilityControl(_) => "FacilityControl",
            Self::MetagameEvent(_) => "MetagameEvent",
            Self::ItemAdded => "ItemAdded",
            Self::AchievementEarned => "AchievementEarned",
            Self::SkillAdded => "SkillAdded",
            Self::BattleRankUp => "BattleRankUp",
            Self::Unhandled => "Unhandled",
        }
    }
}

/// An alert as a value of specifications: its texts by their characters.
pub struct MetagameEventView {
    pub timestamp: Timestamp,
    pub world_id: WorldID,
    pub instance_id: u32,
    pub experience_bonus: Seq<char>,
    pub faction_nc: Seq<char>,
    pub faction_tr: Seq<char>,
    pub faction_vs: Seq<char>,
    pub metagame_event_id: u8,
    pub metagame_event_state: u8,
    pub metagame_event_state_name: Seq<char>,
    pub zone_id: ZoneID,
}

impl View for MetagameEvent {
    type V = MetagameEventView;

    open spec fn view(&self) -> MetagameEventView {
        MetagameEventView {
            timestamp: self.timestamp,
            world_id: self.world_id,
            instance_id: self.instance_id,
            experience_bonus: self.experience_bonus@,
            faction_nc: self.faction_nc@,
            faction_tr: self.faction_tr@,
            faction_vs: self.faction_vs@,
            metagame_event_id: self.metagame_event_id,
            metagame_event_state: self.metagame_event_state,
            metagame_event_state_name: self.metagame_event_state_name@,
            zone_id: self.zone_id,
        }
    }
}

/// An event as a value of specifications: an alert by the view of its
/// texts, any other event as it is.
pub enum EventView {
    MetagameEvent(MetagameEventView),
    Plain(Event),
}

impl View for Event {
    type V = EventView;

    open spec fn view(&self) -> EventView {
        match self {
            Event::MetagameEvent(event) => EventView::MetagameEvent(event@),
            _ => EventView::Plain(*self),
        }
    }
}

impl PlayerLogin {
    /// What the members of an event stand for as a login: every member is read in
    /// turn, and the first that cannot be read decides the error.
    pub open spec fn spec_decode(members: Seq<MemberValue>) -> Result<PlayerLogin, DecodeError> {
        let character_id = spec_field::<CharacterID>(members, "character_id"@);
        let timestamp = spec_field::<Timestamp>(members, "timestamp"@);
        let world_id = spec_field::<WorldID>(members, "world_id"@);
        if character_id is Err {
            Err(character_id->Err_0)
        } else if timestamp is Err {
            Err(timestamp->Err_0)
        } else if world_id is Err {
            Err(world_id->Err_0)
        } else {
            Ok(
                PlayerLogin {
                    character_id: character_id->Ok_0,
                    timestamp: timestamp->Ok_0,
                    world_id: world_id->Ok_0,
                },
            )
        }
    }

    /// Reads a login from the members of an event.
    pub fn decode(members: &Vec<Member>) -> (r: Result<PlayerLogin, DecodeError>)
        ensures
            r == Self::spec_decode(members_view(members@)),
    {
        let character_id = field::<CharacterID>(members, "character_id")?;
        let timestamp = field::<Timestamp>(members, "timestamp")?;
        let world_id = field::<WorldID>(members, "world_id")?;
        Ok(
            PlayerLogin {
                character_id,
                timestamp,
                world_id,
            },
        )
    }
}

impl PlayerLogout {
    /// What the members of an event stand for as a logout: every member is read
    /// in turn, and the first that cannot be read decides the error.
    pub open spec fn spec_decode(members: Seq<MemberValue>) -> Result<PlayerLogout, DecodeError> {
        let character_id = spec_field::<CharacterID>(members, "character_id"@);
        let timestamp = spec_field::<Timestamp>(members, "timestamp"@);
        let world_id = spec_field::<WorldID>(members, "world_id"@);
        if character_id is Err {
            Err(character_id->Err_0)
        } else if timestamp is Err {
            Err(timestamp->Err_0)
        } else if world_id is Err {
            Err(world_id->Err_0)
        } else {
            Ok(
                PlayerLogout {
                    character_id: character_id->Ok_0,
                    timestamp: timestamp->Ok_0,
                    world_id: world_id->Ok_0,
                },
            )
        }
    }

    /// Reads a logout from the members of an event.
    pub fn decode(members: &Vec<Member>) -> (r: Result<PlayerLogout, DecodeError>)
        ensures
            r == Self::spec_decode(members_view(members@)),
    {
        let character_id = field::<CharacterID>(members, "character_id")?;
        let timestamp = field::<Timestamp>(members, "timestamp")?;
        let world_id = field::<WorldID>(members, "world_id")?;
        Ok(
            PlayerLogout {
                character_id,
                timestamp,
                world_id,
            },
        )
    }
}

impl Death {
    /// What the members of an event stand for as a death: every member is read in
    /// turn, and the first that cannot be read decides the error.
    pub open spec fn spec_decode(members: Seq<MemberValue>) -> Result<Death, DecodeError> {
        let attacker_character_id = spec_field::<CharacterID>(members, "attacker_character_id"@);
        let attacker_fire_mode_id = spec_field::<FiremodeID>(members, "attacker_fire_mode_id"@);
        let attacker_loadout_id = spec_field::<Loadout>(members, "attacker_loadout_id"@);
        let attacker_vehicle_id = spec_field::<VehicleID>(members, "attacker_vehicle_id"@);
        let attacker_weapon_id = spec_field::<WeaponID>(members, "attacker_weapon_id"@);
        let character_id = spec_field::<CharacterID>(members, "character_id"@);
        let character_loadout_id = spec_field::<Loadout>(members, "character_loadout_id"@);
        let is_headshot = spec_flag_field(members, "is_headshot"@);
        let timestamp = spec_field::<Timestamp>(members, "timestamp"@);
        let vehicle_id = spec_field_or::<VehicleID>(members, "vehicle_id"@, 0);
        let world_id = spec_field::<WorldID>(members, "world_id"@);
        let zone_id = spec_field::<ZoneID>(members, "zone_id"@);
        if attacker_character_id is Err {
            Err(attacker_character_id->Err_0)
        } else if attacker_fire_mode_id is Err {
            Err(attacker_fire_mode_id->Err_0)
        } else if attacker_loadout_id is Err {
            Err(attacker_loadout_id->Err_0)
        } else if attacker_vehicle_id is Err {
            Err(attacker_vehicle_id->Err_0)
        } else if attacker_weapon_id is Err {
            Err(attacker_weapon_id->Err_0)
        } else if character_id is Err {
            Err(character_id->Err_0)
        } else if character_loadout_id is Err {
            Err(character_loadout_id->Err_0)
        } else if is_headshot is Err {
            Err(is_headshot->Err_0)
        } else if timestamp is Err {
            Err(timestamp->Err_0)
        } else if vehicle_id is Err {
            Err(vehicle_id->Err_0)
        } else if world_id is Err {
            Err(world_id->Err_0)
        } else if zone_id is Err {
            Err(zone_id->Err_0)
        } else {
            Ok(
                Death {
                    attacker_character_id: attacker_character_id->Ok_0,
                    attacker_fire_mode_id: attacker_fire_mode_id->Ok_0,
                    attacker_loadout_id: attacker_loadout_id->Ok_0,
                    attacker_vehicle_id: attacker_vehicle_id->Ok_0,
                    attacker_weapon_id: attacker_weapon_id->Ok_0,
                    character_id: character_id->Ok_0,
                    character_loadout_id: character_loadout_id->Ok_0,
                    is_headshot: is_headshot->Ok_0,
                    timestamp: timestamp->Ok_0,
                    vehicle_id: vehicle_id->Ok_0,
                    world_id: world_id->Ok_0,
                    zone_id: zone_id->Ok_0,
                },
            )
        }
    }

    /// Reads a death from the members of an event.
    pub fn decode(members: &Vec<Member>) -> (r: Result<Death, DecodeError>)
        ensures
            r == Self::spec_decode(members_view(members@)),
    {
        let attacker_character_id = field::<CharacterID>(members, "attacker_character_id")?;
        let attacker_fire_mode_id = field::<FiremodeID>(members, "attacker_fire_mode_id")?;
        let attacker_loadout_id = field::<Loadout>(members, "attacker_loadout_id")?;
        let attacker_vehicle_id = field::<VehicleID>(members, "attacker_vehicle_id")?;
        let attacker_weapon_id = field::<WeaponID>(members, "attacker_weapon_id")?;
        let character_id = field::<CharacterID>(members, "character_id")?;
        let character_loadout_id = field::<Loadout>(members, "character_loadout_id")?;
        let is_headshot = flag_field(members, "is_headshot")?;
        let timestamp = field::<Timestamp>(members, "timestamp")?;
        let vehicle_id = field_or::<VehicleID>(members, "vehicle_id", 0)?;
        let world_id = field::<WorldID>(members, "world_id")?;
        let zone_id = field::<ZoneID>(members, "zone_id")?;
        Ok(
            Death {
                attacker_character_id,
                attacker_fire_mode_id,
                attacker_loadout_id,
                attacker_vehicle_id,
                attacker_weapon_id,
                character_id,
                character_loadout_id,
                is_headshot,
                timestamp,
                vehicle_id,
                world_id,
                zone_id,
            },
        )
    }
}

impl VehicleDestroy {
    /// What the members of an event stand for as the loss of a vehicle: every
    /// member is read in turn, and the first that cannot be read decides the
    /// error.
    pub open spec fn spec_decode(members: Seq<MemberValue>) -> Result<VehicleDestroy, DecodeError> {
        let attacker_character_id = spec_field::<CharacterID>(members, "attacker_character_id"@);
        let attacker_loadout_id = spec_field::<Loadout>(members, "attacker_loadout_id"@);
        let attacker_vehicle_id = spec_field::<VehicleID>(members, "attacker_vehicle_id"@);
        let attacker_weapon_id = spec_field::<WeaponID>(members, "attacker_weapon_id"@);
        let character_id = spec_field::<CharacterID>(members, "character_id"@);
        let facility_id = spec_field::<FacilityID>(members, "facility_id"@);
        let faction_id = spec_field::<Faction>(members, "faction_id"@);
        let timestamp = spec_field::<Timestamp>(members, "timestamp"@);
        let vehicle_id = spec_field::<VehicleID>(members, "vehicle_id"@);
        let world_id = spec_field::<WorldID>(members, "world_id"@);
        let zone_id = spec_field::<ZoneID>(members, "zone_id"@);
        if attacker_character_id is Err {
            Err(attacker_character_id->Err_0)
        } else if attacker_loadout_id is Err {
            Err(attacker_loadout_id->Err_0)
        } else if attacker_vehicle_id is Err {
            Err(attacker_vehicle_id->Err_0)
        } else if attacker_weapon_id is Err {
            Err(attacker_weapon_id->Err_0)
        } else if character_id is Err {
            Err(character_id->Err_0)
        } else if facility_id is Err {
            Err(facility_id->Err_0)
        } else if faction_id is Err {
            Err(faction_id->Err_0)
        } else if timestamp is Err {
            Err(timestamp->Err_0)
        } else if vehicle_id is Err {
            Err(vehicle_id->Err_0)
        } else if world_id is Err {
            Err(world_id->Err_0)
        } else if zone_id is Err {
            Err(zone_id->Err_0)
        } else {
            Ok(
                VehicleDestroy {
                    attacker_character_id: attacker_character_id->Ok_0,
                    attacker_loadout_id: attacker_loadout_id->Ok_0,
                    attacker_vehicle_id: attacker_vehicle_id->Ok_0,
                    attacker_weapon_id: attacker_weapon_id->Ok_0,
                    character_id: character_id->Ok_0,
                    facility_id: facility_id->Ok_0,
                    faction_id: faction_id->Ok_0,
                    timestamp: timestamp->Ok_0,
                    vehicle_id: vehicle_id->Ok_0,
                    world_id: world_id->Ok_0,
                    zone_id: zone_id->Ok_0,
                },
            )
        }
    }

    /// Reads the loss of a vehicle from the members of an event.
    pub fn decode(members: &Vec<Member>) -> (r: Result<VehicleDestroy, DecodeError>)
        ensures
            r == Self::spec_decode(members_view(members@)),
    {
        let attacker_character_id = field::<CharacterID>(members, "attacker_character_id")?;
        let attacker_loadout_id = field::<Loadout>(members, "attacker_loadout_id")?;
        let attacker_vehicle_id = field::<VehicleID>(members, "attacker_vehicle_id")?;
        let attacker_weapon_id = field::<WeaponID>(members, "attacker_weapon_id")?;
        let character_id = field::<CharacterID>(members, "character_id")?;
        let facility_id = field::<FacilityID>(members, "facility_id")?;
        let faction_id = field::<Faction>(members, "faction_id")?;
        let timestamp = field::<Timestamp>(members, "timestamp")?;
        let vehicle_id = field::<VehicleID>(members, "vehicle_id")?;
        let world_id = field::<WorldID>(members, "world_id")?;
        let zone_id = field::<ZoneID>(members, "zone_id")?;
        Ok(
            VehicleDestroy {
                attacker_character_id,
                attacker_loadout_id,
                attacker_vehicle_id,
                attacker_weapon_id,
                character_id,
                facility_id,
                faction_id,
                timestamp,
                vehicle_id,
                world_id,
                zone_id,
            },
        )
    }
}

impl GainExperience {
    /// What the members of an event stand for as an activity pulse: every member
    /// is read in turn, and the first that cannot be read decides the error.
    pub open spec fn spec_decode(members: Seq<MemberValue>) -> Result<GainExperience, DecodeError> {
        let character_id = spec_field::<CharacterID>(members, "character_id"@);
        let experience_id = spec_field::<ExperienceID>(members, "experience_id"@);
        let loadout_id = spec_field::<Loadout>(members, "loadout_id"@);
        let other_id = spec_field::<CharacterID>(members, "other_id"@);
        let timestamp = spec_field::<Timestamp>(members, "timestamp"@);
        let world_id = spec_field::<WorldID>(members, "world_id"@);
        let zone_id = spec_field::<ZoneID>(members, "zone_id"@);
        let amount = spec_field::<u16>(members, "amount"@);
        let team_id = spec_field::<Faction>(members, "team_id"@);
        if character_id is Err {
            Err(character_id->Err_0)
        } else if experience_id is Err {
            Err(experience_id->Err_0)
        } else if loadout_id is Err {
            Err(loadout_id->Err_0)
        } else if other_id is Err {
            Err(other_id->Err_0)
        } else if timestamp is Err {
            Err(timestamp->Err_0)
        } else if world_id is Err {
            Err(world_id->Err_0)
        } else if zone_id is Err {
            Err(zone_id->Err_0)
        } else if amount is Err {
            Err(amount->Err_0)
        } else if team_id is Err {
            Err(team_id->Err_0)
        } else {
            Ok(
                GainExperience {
                    character_id: character_id->Ok_0,
                    experience_id: experience_id->Ok_0,
                    loadout_id: loadout_id->Ok_0,
                    other_id: other_id->Ok_0,
                    timestamp: timestamp->Ok_0,
                    world_id: world_id->Ok_0,
                    zone_id: zone_id->Ok_0,
                    amount: amount->Ok_0,
                    team_id: team_id->Ok_0,
                },
            )
        }
    }

    /// Reads an activity pulse from the members of an event.
    pub fn decode(members: &Vec<Member>) -> (r: Result<GainExperience, DecodeError>)
        ensures
            r == Self::spec_decode(members_view(members@)),
    {
        let character_id = field::<CharacterID>(members, "character_id")?;
        let experience_id = field::<ExperienceID>(members, "experience_id")?;
        let loadout_id = field::<Loadout>(members, "loadout_id")?;
        let other_id = field::<CharacterID>(members, "other_id")?;
        let timestamp = field::<Timestamp>(members, "timestamp")?;
        let world_id = field::<WorldID>(members, "world_id")?;
        let zone_id = field::<ZoneID>(members, "zone_id")?;
        let amount = field::<u16>(members, "amount")?;
        let team_id = field::<Faction>(members, "team_id")?;
        Ok(
            GainExperience {
                character_id,
                experience_id,
                loadout_id,
                other_id,
                timestamp,
                world_id,
                zone_id,
                amount,
                team_id,
            },
        )
    }
}

impl PlayerFacilityCapture {
    /// What the members of an event stand for as the capture of a facility: every
    /// member is read in turn, and the first that cannot be read decides the
    /// error.
    pub open spec fn spec_decode(members: Seq<MemberValue>) -> Result<
        PlayerFacilityCapture,
        DecodeError,
    > {
        let character_id = spec_field::<CharacterID>(members, "character_id"@);
        let facility_id = spec_field::<FacilityID>(members, "facility_id"@);
        let outfit_id = spec_number_field(members, "outfit_id"@);
        let timestamp = spec_field::<Timestamp>(members, "timestamp"@);
        let world_id = spec_field::<WorldID>(members, "world_id"@);
        let zone_id = spec_field::<ZoneID>(members, "zone_id"@);
        if character_id is Err {
            Err(character_id->Err_0)
        } else if facility_id is Err {
            Err(facility_id->Err_0)
        } else if outfit_id is Err {
            Err(outfit_id->Err_0)
        } else if timestamp is Err {
            Err(timestamp->Err_0)
        } else if world_id is Err {
            Err(world_id->Err_0)
        } else if zone_id is Err {
            Err(zone_id->Err_0)
        } else {
            Ok(
                PlayerFacilityCapture {
                    character_id: character_id->Ok_0,
                    facility_id: facility_id->Ok_0,
                    outfit_id: outfit_id->Ok_0,
                    timestamp: timestamp->Ok_0,
                    world_id: world_id->Ok_0,
                    zone_id: zone_id->Ok_0,
                },
            )
        }
    }

    /// Reads the capture of a facility from the members of an event.
    pub fn decode(members: &Vec<Member>) -> (r: Result<PlayerFacilityCapture, DecodeError>)
        ensures
            r == Self::spec_decode(members_view(members@)),
    {
        let character_id = field::<CharacterID>(members, "character_id")?;
        let facility_id = field::<FacilityID>(members, "facility_id")?;
        let outfit_id = number_field(members, "outfit_id")?;
        let timestamp = field::<Timestamp>(members, "timestamp")?;
        let world_id = field::<WorldID>(members, "world_id")?;
        let zone_id = field::<ZoneID>(members, "zone_id")?;
        Ok(
            PlayerFacilityCapture {
                character_id,
                facility_id,
                outfit_id,
                timestamp,
                world_id,
                zone_id,
            },
        )
    }
}

impl PlayerFacilityDefend {
    /// What the members of an event stand for as the defence of a facility: every
    /// member is read in turn, and the first that cannot be read decides the
    /// error.
    pub open spec fn spec_decode(members: Seq<MemberValue>) -> Result<
        PlayerFacilityDefend,
        DecodeError,
    > {
        let character_id = spec_field::<CharacterID>(members, "character_id"@);
        let facility_id = spec_field::<FacilityID>(members, "facility_id"@);
        let outfit_id = spec_number_field(members, "outfit_id"@);
        let timestamp = spec_field::<Timestamp>(members, "timestamp"@);
        let world_id = spec_field::<WorldID>(members, "world_id"@);
        let zone_id = spec_field::<ZoneID>(members, "zone_id"@);
        if character_id is Err {
            Err(character_id->Err_0)
        } else if facility_id is Err {
            Err(facility_id->Err_0)
        } else if outfit_id is Err {
            Err(outfit_id->Err_0)
        } else if timestamp is Err {
            Err(timestamp->Err_0)
        } else if world_id is Err {
            Err(world_id->Err_0)
        } else if zone_id is Err {
            Err(zone_id->Err_0)
        } else {
            Ok(
                PlayerFacilityDefend {
                    character_id: character_id->Ok_0,
                    facility_id: facility_id->Ok_0,
                    outfit_id: outfit_id->Ok_0,
                    timestamp: timestamp->Ok_0,
                    world_id: world_id->Ok_0,
                    zone_id: zone_id->Ok_0,
                },
            )
        }
    }

    /// Reads the defence of a facility from the members of an event.
    pub fn decode(members: &Vec<Member>) -> (r: Result<PlayerFacilityDefend, DecodeError>)
        ensures
            r == Self::spec_decode(members_view(members@)),
    {
        let character_id = field::<CharacterID>(members, "character_id")?;
        let facility_id = field::<FacilityID>(members, "facility_id")?;
        let outfit_id = number_field(members, "outfit_id")?;
        let timestamp = field::<Timestamp>(members, "timestamp")?;
        let world_id = field::<WorldID>(members, "world_id")?;
        let zone_id = field::<ZoneID>(members, "zone_id")?;
        Ok(
            PlayerFacilityDefend {
                character_id,
                facility_id,
                outfit_id,
                timestamp,
                world_id,
                zone_id,
            },
        )
    }
}

impl FacilityControl {
    /// What the members of an event stand for as a change of hands of a facility:
    /// every member is read in turn, and the first that cannot be read decides
    /// the error.
    pub open spec fn spec_decode(members: Seq<MemberValue>) -> Result<
        FacilityControl,
        DecodeError,
    > {
        let duration_held = spec_field::<i64>(members, "duration_held"@);
        let facility_id = spec_field::<FacilityID>(members, "facility_id"@);
        let new_faction_id = spec_field::<Faction>(members, "new_faction_id"@);
        let old_faction_id = spec_field::<Faction>(members, "old_faction_id"@);
        let outfit_id = spec_number_field(members, "outfit_id"@);
        let timestamp = spec_field::<Timestamp>(members, "timestamp"@);
        let world_id = spec_field::<WorldID>(members, "world_id"@);
        let zone_id = spec_field::<ZoneID>(members, "zone_id"@);
        if duration_held is Err {
            Err(duration_held->Err_0)
        } else if facility_id is Err {
            Err(facility_id->Err_0)
        } else if new_faction_id is Err {
            Err(new_faction_id->Err_0)
        } else if old_faction_id is Err {
            Err(old_faction_id->Err_0)
        } else if outfit_id is Err {
            Err(outfit_id->Err_0)
        } else if timestamp is Err {
            Err(timestamp->Err_0)
        } else if world_id is Err {
            Err(world_id->Err_0)
        } else if zone_id is Err {
            Err(zone_id->Err_0)
        } else {
            Ok(
                FacilityControl {
                    duration_held: duration_held->Ok_0,
                    facility_id: facility_id->Ok_0,
                    new_faction_id: new_faction_id->Ok_0,
                    old_faction_id: old_faction_id->Ok_0,
                    outfit_id: outfit_id->Ok_0,
                    timestamp: timestamp->Ok_0,
                    world_id: world_id->Ok_0,
                    zone_id: zone_id->Ok_0,
                },
            )
        }
    }

    /// Reads a change of hands of a facility from the members of an event.
    pub fn decode(members: &Vec<Member>) -> (r: Result<FacilityControl, DecodeError>)
        ensures
            r == Self::spec_decode(members_view(members@)),
    {
        let duration_held = field::<i64>(members, "duration_held")?;
        let facility_id = field::<FacilityID>(members, "facility_id")?;
        let new_faction_id = field::<Faction>(members, "new_faction_id")?;
        let old_faction_id = field::<Faction>(members, "old_faction_id")?;
        let outfit_id = number_field(members, "outfit_id")?;
        let timestamp = field::<Timestamp>(members, "timestamp")?;
        let world_id = field::<WorldID>(members, "world_id")?;
        let zone_id = field::<ZoneID>(members, "zone_id")?;
        Ok(
            FacilityControl {
                duration_held,
                facility_id,
                new_faction_id,
                old_faction_id,
                outfit_id,
                timestamp,
                world_id,
                zone_id,
            },
        )
    }
}

impl ContinentLock {
    /// What the members of an event stand for as the locking of a continent:
    /// every member is read in turn, and the first that cannot be read decides
    /// the error.
    pub open spec fn spec_decode(members: Seq<MemberValue>) -> Result<ContinentLock, DecodeError> {
        let timestamp = spec_field::<Timestamp>(members, "timestamp"@);
        let world_id = spec_field::<WorldID>(members, "world_id"@);
        let zone_id = spec_field::<ZoneID>(members, "zone_id"@);
        let triggering_faction = spec_field::<Faction>(members, "triggering_faction"@);
        let previous_faction = spec_field::<Faction>(members, "previous_faction"@);
        let vs_population = spec_field::<u16>(members, "vs_population"@);
        let nc_population = spec_field::<u16>(members, "nc_population"@);
        let tr_population = spec_field::<u16>(members, "tr_population"@);
        let metagame_event_id = spec_field::<u8>(members, "metagame_event_id"@);
        if timestamp is Err {
            Err(timestamp->Err_0)
        } else if world_id is Err {
            Err(world_id->Err_0)
        } else if zone_id is Err {
            Err(zone_id->Err_0)
        } else if triggering_faction is Err {
            Err(triggering_faction->Err_0)
        } else if previous_faction is Err {
            Err(previous_faction->Err_0)
        } else if vs_population is Err {
            Err(vs_population->Err_0)
        } else if nc_population is Err {
            Err(nc_population->Err_0)
        } else if tr_population is Err {
            Err(tr_population->Err_0)
        } else if metagame_event_id is Err {
            Err(metagame_event_id->Err_0)
        } else {
            Ok(
                ContinentLock {
                    timestamp: timestamp->Ok_0,
                    world_id: world_id->Ok_0,
                    zone_id: zone_id->Ok_0,
                    triggering_faction: triggering_faction->Ok_0,
                    previous_faction: previous_faction->Ok_0,
                    vs_population: vs_population->Ok_0,
                    nc_population: nc_population->Ok_0,
                    tr_population: tr_population->Ok_0,
                    metagame_event_id: metagame_event_id->Ok_0,
                },
            )
        }
    }

    /// Reads the locking of a continent from the members of an event.
    pub fn decode(members: &Vec<Member>) -> (r: Result<ContinentLock, DecodeError>)
        ensures
            r == Self::spec_decode(members_view(members@)),
    {
        let timestamp = field::<Timestamp>(members, "timestamp")?;
        let world_id = field::<WorldID>(members, "world_id")?;
        let zone_id = field::<ZoneID>(members, "zone_id")?;
        let triggering_faction = field::<Faction>(members, "triggering_faction")?;
        let previous_faction = field::<Faction>(members, "previous_faction")?;
        let vs_population = field::<u16>(members, "vs_population")?;
        let nc_population = field::<u16>(members, "nc_population")?;
        let tr_population = field::<u16>(members, "tr_population")?;
        let metagame_event_id = field::<u8>(members, "metagame_event_id")?;
        Ok(
            ContinentLock {
                timestamp,
                world_id,
                zone_id,
                triggering_faction,
                previous_faction,
                vs_population,
                nc_population,
                tr_population,
                metagame_event_id,
            },
        )
    }
}

impl ContinentUnlock {
    /// What the members of an event stand for as the unlocking of a continent:
    /// every member is read in turn, and the first that cannot be read decides
    /// the error.
    pub open spec fn spec_decode(members: Seq<MemberValue>) -> Result<
        ContinentUnlock,
        DecodeError,
    > {
        let timestamp = spec_field::<Timestamp>(members, "timestamp"@);
        let world_id = spec_field::<WorldID>(members, "world_id"@);
        let zone_id = spec_field::<ZoneID>(members, "zone_id"@);
        let triggering_faction = spec_field::<Faction>(members, "triggering_faction"@);
        let previous_faction = spec_field::<Faction>(members, "previous_faction"@);
        let vs_population = spec_field::<u16>(members, "vs_population"@);
        let nc_population = spec_field::<u16>(members, "nc_population"@);
        let tr_population = spec_field::<u16>(members, "tr_population"@);
        let metagame_event_id = spec_field::<u8>(members, "metagame_event_id"@);
        if timestamp is Err {
            Err(timestamp->Err_0)
        } else if world_id is Err {
            Err(world_id->Err_0)
        } else if zone_id is Err {
            Err(zone_id->Err_0)
        } else if triggering_faction is Err {
            Err(triggering_faction->Err_0)
        } else if previous_faction is Err {
            Err(previous_faction->Err_0)
        } else if vs_population is Err {
            Err(vs_population->Err_0)
        } else if nc_population is Err {
            Err(nc_population->Err_0)
        } else if tr_population is Err {
            Err(tr_population->Err_0)
        } else if metagame_event_id is Err {
            Err(metagame_event_id->Err_0)
        } else {
            Ok(
                ContinentUnlock {
                    timestamp: timestamp->Ok_0,
                    world_id: world_id->Ok_0,
                    zone_id: zone_id->Ok_0,
                    triggering_faction: triggering_faction->Ok_0,
                    previous_faction: previous_faction->Ok_0,
                    vs_population: vs_population->Ok_0,
                    nc_population: nc_population->Ok_0,
                    tr_population: tr_population->Ok_0,
                    metagame_event_id: metagame_event_id->Ok_0,
                },
            )
        }
    }

    /// Reads the unlocking of a continent from the members of an event.
    pub fn decode(members: &Vec<Member>) -> (r: Result<ContinentUnlock, DecodeError>)
        ensures
            r == Self::spec_decode(members_view(members@)),
    {
        let timestamp = field::<Timestamp>(members, "timestamp")?;
        let world_id = field::<WorldID>(members, "world_id")?;
        let zone_id = field::<ZoneID>(members, "zone_id")?;
        let triggering_faction = field::<Faction>(members, "triggering_faction")?;
        let previous_faction = field::<Faction>(members, "previous_faction")?;
        let vs_population = field::<u16>(members, "vs_population")?;
        let nc_population = field::<u16>(members, "nc_population")?;
        let tr_population = field::<u16>(members, "tr_population")?;
        let metagame_event_id = field::<u8>(members, "metagame_event_id")?;
        Ok(
            ContinentUnlock {
                timestamp,
                world_id,
                zone_id,
                triggering_faction,
                previous_faction,
                vs_population,
                nc_population,
                tr_population,
                metagame_event_id,
            },
        )
    }
}

impl MetagameEvent {
    /// What the members of an event stand for as an alert: every member is read
    /// in turn, and the first that cannot be read decides the error.
    pub open spec fn spec_decode(members: Seq<MemberValue>) -> Result<
        MetagameEventView,
        DecodeError,
    > {
        let timestamp = spec_field::<Timestamp>(members, "timestamp"@);
        let world_id = spec_field::<WorldID>(members, "world_id"@);
        let instance_id = spec_field::<u32>(members, "instance_id"@);
        let experience_bonus = spec_text_field(members, "experience_bonus"@);
        let faction_nc = spec_text_field(members, "faction_nc"@);
        let faction_tr = spec_text_field(members, "faction_tr"@);
        let faction_vs = spec_text_field(members, "faction_vs"@);
        let metagame_event_id = spec_field::<u8>(members, "metagame_event_id"@);
        let metagame_event_state = spec_field::<u8>(members, "metagame_event_state"@);
        let metagame_event_state_name = spec_text_field(members, "metagame_event_state_name"@);
        let zone_id = spec_field::<ZoneID>(members, "zone_id"@);
        if timestamp is Err {
            Err(timestamp->Err_0)
        } else if world_id is Err {
            Err(world_id->Err_0)
        } else if instance_id is Err {
            Err(instance_id->Err_0)
        } else if experience_bonus is Err {
            Err(experience_bonus->Err_0)
        } else if faction_nc is Err {
            Err(faction_nc->Err_0)
        } else if faction_tr is Err {
            Err(faction_tr->Err_0)
        } else if faction_vs is Err {
            Err(faction_vs->Err_0)
        } else if metagame_event_id is Err {
            Err(metagame_event_id->Err_0)
        } else if metagame_event_state is Err {
            Err(metagame_event_state->Err_0)
        } else if metagame_event_state_name is Err {
            Err(metagame_event_state_name->Err_0)
        } else if zone_id is Err {
            Err(zone_id->Err_0)
        } else {
            Ok(
                MetagameEventView {
                    timestamp: timestamp->Ok_0,
                    world_id: world_id->Ok_0,
                    instance_id: instance_id->Ok_0,
                    experience_bonus: experience_bonus->Ok_0,
                    faction_nc: faction_nc->Ok_0,
                    faction_tr: faction_tr->Ok_0,
                    faction_vs: faction_vs->Ok_0,
                    metagame_event_id: metagame_event_id->Ok_0,
                    metagame_event_state: metagame_event_state->Ok_0,
                    metagame_event_state_name: metagame_event_state_name->Ok_0,
                    zone_id: zone_id->Ok_0,
                },
            )
        }
    }

    /// Reads an alert from the members of an event.
    pub fn decode(members: &Vec<Member>) -> (r: Result<MetagameEvent, DecodeError>)
        ensures
            match r {
                Ok(event) => Self::spec_decode(members_view(members@)) == Ok::<
                    MetagameEventView,
                    DecodeError,
                >(event@),
                Err(e) => Self::spec_decode(members_view(members@)) == Err::<
                    MetagameEventView,
                    DecodeError,
                >(e),
            },
    {
        let timestamp = field::<Timestamp>(members, "timestamp")?;
        let world_id = field::<WorldID>(members, "world_id")?;
        let instance_id = field::<u32>(members, "instance_id")?;
        let experience_bonus = text_field(members, "experience_bonus")?;
        let faction_nc = text_field(members, "faction_nc")?;
        let faction_tr = text_field(members, "faction_tr")?;
        let faction_vs = text_field(members, "faction_vs")?;
        let metagame_event_id = field::<u8>(members, "metagame_event_id")?;
        let metagame_event_state = field::<u8>(members, "metagame_event_state")?;
        let metagame_event_state_name = text_field(members, "metagame_event_state_name")?;
        let zone_id = field::<ZoneID>(members, "zone_id")?;
        Ok(
            MetagameEvent {
                timestamp,
                world_id,
                instance_id,
                experience_bonus,
                faction_nc,
                faction_tr,
                faction_vs,
                metagame_event_id,
                metagame_event_state,
                metagame_event_state_name,
                zone_id,
            },
        )
    }
}
impl Event {
    /// What the members of an event stand for: the member `event_name` says
    /// which kind of event it is, and the other members are read as that kind
    /// asks. A name that is not known makes an unhandled event, no error.
    pub open spec fn spec_decode(members: Seq<MemberValue>) -> Result<EventView, DecodeError> {
        match member(members, "event_name"@) {
            None => Err(DecodeError::MissingField),
            Some(JsonValue::Text(name)) => {
                if name == "PlayerLogin"@ {
                    match PlayerLogin::spec_decode(members) {
                        Ok(event) => Ok(EventView::Plain(Event::PlayerLogin(event))),
                        Err(e) => Err(e),
                    }
                } else if name == "PlayerLogout"@ {
                    match PlayerLogout::spec_decode(members) {
                        Ok(event) => Ok(EventView::Plain(Event::PlayerLogout(event))),
                        Err(e) => Err(e),
                    }
                } else if name == "Death"@ {
                    match Death::spec_decode(members) {
                        Ok(event) => Ok(EventView::Plain(Event::Death(event))),
                        Err(e) => Err(e),
                    }
                } else if name == "VehicleDestroy"@ {
                    match VehicleDestroy::spec_decode(members) {
                        Ok(event) => Ok(EventView::Plain(Event::VehicleDestroy(event))),
                        Err(e) => Err(e),
                    }
                } else if name == "GainExperience"@ {
                    match GainExperience::spec_decode(members) {
                        Ok(event) => Ok(EventView::Plain(Event::GainExperience(event))),
                        Err(e) => Err(e),
                    }
                } else if name == "PlayerFacilityCapture"@ {
                    match PlayerFacilityCapture::spec_decode(members) {
                        Ok(event) => Ok(EventView::Plain(Event::PlayerFacilityCapture(event))),
                        Err(e) => Err(e),
                    }
                } else if name == "PlayerFacilityDefend"@ {
                    match PlayerFacilityDefend::spec_decode(members) {
                        Ok(event) => Ok(EventView::Plain(Event::PlayerFacilityDefend(event))),
                        Err(e) => Err(e),
                    }
                } else if name == "ContinentLock"@ {
                    match ContinentLock::spec_decode(members) {
                        Ok(event) => Ok(EventView::Plain(Event::ContinentLock(event))),
                        Err(e) => Err(e),
                    }
                } else if name == "ContinentUnlock"@ {
                    match ContinentUnlock::spec_decode(members) {
                        Ok(event) => Ok(EventView::Plain(Event::ContinentUnlock(event))),
                        Err(e) => Err(e),
                    }
                } else if name == "FacilityControl"@ {
                    match FacilityControl::spec_decode(members) {
                        Ok(event) => Ok(EventView::Plain(Event::FacilityControl(event))),
                        Err(e) => Err(e),
                    }
                } else if name == "MetagameEvent"@ {
                    match MetagameEvent::spec_decode(members) {
                        Ok(event) => Ok(EventView::MetagameEvent(event)),
                        Err(e) => Err(e),
                    }
                } else if name == "ItemAdded"@ {
                    Ok(EventView::Plain(Event::ItemAdded))
                } else if name == "AchievementEarned"@ {
                    Ok(EventView::Plain(Event::AchievementEarned))
                } else if name == "SkillAdded"@ {
                    Ok(EventView::Plain(Event::SkillAdded))
                } else if name == "BattleRankUp"@ {
                    Ok(EventView::Plain(Event::BattleRankUp))
                } else {
                    Ok(EventView::Plain(Event::Unhandled))
                }
            },
            Some(_) => Err(DecodeError::InvalidType),
        }
    }

    /// Reads an event from the members of its object.
    pub fn decode(members: &Vec<Member>) -> (r: Result<Event, DecodeError>)
        ensures
            match r {
                Ok(event) => Self::spec_decode(members_view(members@)) == Ok::<
                    EventView,
                    DecodeError,
                >(event@),
                Err(e) => Self::spec_decode(members_view(members@)) == Err::<
                    EventView,
                    DecodeError,
                >(e),
            },
    {
        let name = match get(members, "event_name") {
            None => return Err(DecodeError::MissingField),
            Some(Json::Text(name)) => chars_of(name.as_str()),
            Some(_) => return Err(DecodeError::InvalidType),
        };
        if spells(&name, "PlayerLogin") {
            Ok(Event::PlayerLogin(PlayerLogin::decode(members)?))
        } else if spells(&name, "PlayerLogout") {
            Ok(Event::PlayerLogout(PlayerLogout::decode(members)?))
        } else if spells(&name, "Death") {
            Ok(Event::Death(Death::decode(members)?))
        } else if spells(&name, "VehicleDestroy") {
            Ok(Event::VehicleDestroy(VehicleDestroy::decode(members)?))
        } else if spells(&name, "GainExperience") {
            Ok(Event::GainExperience(GainExperience::decode(members)?))
        } else if spells(&name, "PlayerFacilityCapture") {
            Ok(Event::PlayerFacilityCapture(PlayerFacilityCapture::decode(members)?))
        } else if spells(&name, "PlayerFacilityDefend") {
            Ok(Event::PlayerFacilityDefend(PlayerFacilityDefend::decode(members)?))
        } else if spells(&name, "ContinentLock") {
            Ok(Event::ContinentLock(ContinentLock::decode(members)?))
        } else if spells(&name, "ContinentUnlock") {
            Ok(Event::ContinentUnlock(ContinentUnlock::decode(members)?))
        } else if spells(&name, "FacilityControl") {
            Ok(Event::FacilityControl(FacilityControl::decode(members)?))
        } else if spells(&name, "MetagameEvent") {
            Ok(Event::MetagameEvent(MetagameEvent::decode(members)?))
        } else if spells(&name, "ItemAdded") {
            Ok(Event::ItemAdded)
        } else if spells(&name, "AchievementEarned") {
            Ok(Event::AchievementEarned)
        } else if spells(&name, "SkillAdded") {
            Ok(Event::SkillAdded)
        } else if spells(&name, "BattleRankUp") {
            Ok(Event::BattleRankUp)
        } else {
            Ok(Event::Unhandled)
        }
    }
}

} // verus!
