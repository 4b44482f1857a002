//! The identifiers of the game's worlds, zones, factions and loadouts.
use crate::text::{
    chars_of, integer_text_value, parse_i64_chars, parse_u16, parse_u32, parse_unsigned_spec,
    spells,
};
use vstd::prelude::*;
use vstd::std_specs::convert::FromSpecImpl;

verus! {

/// Why a text was not accepted as an identifier.
#[derive(Clone, Copy, Debug, PartialEq, Eq, Structural)]
pub enum FromStrError {
    /// The text is neither the name nor the number of a variant.
    InvalidVariant,
    /// The text is not a number of the identifier's range.
    InvalidNumber,
}

/// The number of a variant that a text denotes: the text read as a signed
/// integer, where that lies in the range of the variants' numbers.
pub open spec fn variant_number(s: Seq<char>) -> Option<u16> {
    match integer_text_value(s) {
        Some(n) => if 0 <= n <= u16::MAX {
            Some(n as u16)
        } else {
            None
        },
        None => None,
    }
}

fn number_of_variant(chars: &Vec<char>) -> (r: Option<u16>)
    ensures
        r == variant_number(chars@),
{
    match parse_i64_chars(chars) {
        Some(n) => if 0 <= n && n <= 0xffff {
            Some(n as u16)
        } else {
            None
        },
        None => None,
    }
}

/// The class that a character plays, which also tells the faction it was
/// made for.
#[derive(Clone, Copy, Debug, PartialEq, Eq, Hash, Structural)]
#[allow(clippy::upper_case_acronyms)]
pub enum Loadout {
    Unknown,
    NCInfiltrator,
    NCLightAssault,
    NCMedic,
    NCEngineer,
    NCHeavyAssault,
    NCMAX,
    TRInfiltrator,
    TRLightAssault,
    TRMedic,
    TREngineer,
    TRHeavyAssault,
    TRMAX,
    VSInfiltrator,
    VSLightAssault,
    VSMedic,
    VSEngineer,
    VSHeavyAssault,
    VSMAX,
    NSInfiltrator,
    NSLightAssault,
    NSMedic,
    NSEngineer,
    NSHeavyAssault,
    NSMAX,
}

impl Loadout {
    /// The number under which the feed and the store know this loadout.
    pub open spec fn spec_id(self) -> u16 {
        match self {
            Self::Unknown => 0,
            Self::NCInfiltrator => 1,
            Self::NCLightAssault => 3,
            Self::NCMedic => 4,
            Self::NCEngineer => 5,
            Self::NCHeavyAssault => 6,
            Self::NCMAX => 7,
            Self::TRInfiltrator => 8,
            Self::TRLightAssault => 10,
            Self::TRMedic => 11,
            Self::TREngineer => 12,
            Self::TRHeavyAssault => 13,
            Self::TRMAX => 14,
            Self::VSInfiltrator => 15,
            Self::VSLightAssault => 17,
            Self::VSMedic => 18,
            Self::VSEngineer => 19,
            Self::VSHeavyAssault => 20,
            Self::VSMAX => 21,
            Self::NSInfiltrator => 28,
            Self::NSLightAssault => 29,
            Self::NSMedic => 30,
            Self::NSEngineer => 31,
            Self::NSHeavyAssault => 32,
            Self::NSMAX => 45,
        }
    }

    /// The loadout with the number `id`, if there is one.
    pub open spec fn spec_from_repr(id: u16) -> Option<Self> {
        if id == 0 {
            Some(Self::Unknown)
        } else if id == 1 {
            Some(Self::NCInfiltrator)
        } else if id == 3 {
            Some(Self::NCLightAssault)
        } else if id == 4 {
            Some(Self::NCMedic)
        } else if id == 5 {
            Some(Self::NCEngineer)
        } else if id == 6 {
            Some(Self::NCHeavyAssault)
        } else if id == 7 {
            Some(Self::NCMAX)
        } else if id == 8 {
            Some(Self::TRInfiltrator)
        } else if id == 10 {
            Some(Self::TRLightAssault)
        } else if id == 11 {
            Some(Self::TRMedic)
        } else if id == 12 {
            Some(Self::TREngineer)
        } else if id == 13 {
            Some(Self::TRHeavyAssault)
        } else if id == 14 {
            Some(Self::TRMAX)
        } else if id == 15 {
            Some(Self::VSInfiltrator)
        } else if id == 17 {
            Some(Self::VSLightAssault)
        } else if id == 18 {
            Some(Self::VSMedic)
        } else if id == 19 {
            Some(Self::VSEngineer)
        } else if id == 20 {
            Some(Self::VSHeavyAssault)
        } else if id == 21 {
            Some(Self::VSMAX)
        } else if id == 28 {
            Some(Self::NSInfiltrator)
        } else if id == 29 {
            Some(Self::NSLightAssault)
        } else if id == 30 {
            Some(Self::NSMedic)
        } else if id == 31 {
            Some(Self::NSEngineer)
        } else if id == 32 {
            Some(Self::NSHeavyAssault)
        } else if id == 45 {
            Some(Self::NSMAX)
        } else {
            None
        }
    }

    /// The name of this loadout, as it is written in code and in messages.
    pub open spec fn spec_name(self) -> Seq<char> {
        match self {
            Self::Unknown => "Unknown"@,
            Self::NCInfiltrator => "NCInfiltrator"@,
            Self::NCLightAssault => "NCLightAssault"@,
            Self::NCMedic => "NCMedic"@,
            Self::NCEngineer => "NCEngineer"@,
            Self::NCHeavyAssault => "NCHeavyAssault"@,
            Self::NCMAX => "NCMAX"@,
            Self::TRInfiltrator => "TRInfiltrator"@,
            Self::TRLightAssault => "TRLightAssault"@,
            Self::TRMedic => "TRMedic"@,
            Self::TREngineer => "TREngineer"@,
            Self::TRHeavyAssault => "TRHeavyAssault"@,
            Self::TRMAX => "TRMAX"@,
            Self::VSInfiltrator => "VSInfiltrator"@,
            Self::VSLightAssault => "VSLightAssault"@,
            Self::VSMedic => "VSMedic"@,
            Self::VSEngineer => "VSEngineer"@,
            Self::VSHeavyAssault => "VSHeavyAssault"@,
            Self::VSMAX => "VSMAX"@,
            Self::NSInfiltrator => "NSInfiltrator"@,
            Self::NSLightAssault => "NSLightAssault"@,
            Self::NSMedic => "NSMedic"@,
            Self::NSEngineer => "NSEngineer"@,
            Self::NSHeavyAssault => "NSHeavyAssault"@,
            Self::NSMAX => "NSMAX"@,
        }
    }

    /// The loadout whose name is `name`, if there is one.
    pub open spec fn spec_from_name(name: Seq<char>) -> Option<Self> {
        if name == "Unknown"@ {
            Some(Self::Unknown)
        } else if name == "NCInfiltrator"@ {
            Some(Self::NCInfiltrator)
        } else if name == "NCLightAssault"@ {
            Some(Self::NCLightAssault)
        } else if name == "NCMedic"@ {
            Some(Self::NCMedic)
        } else if name == "NCEngineer"@ {
            Some(Self::NCEngineer)
        } else if name == "NCHeavyAssault"@ {
            Some(Self::NCHeavyAssault)
        } else if name == "NCMAX"@ {
            Some(Self::NCMAX)
        } else if name == "TRInfiltrator"@ {
            Some(Self::TRInfiltrator)
        } else if name == "TRLightAssault"@ {
            Some(Self::TRLightAssault)
        } else if name == "TRMedic"@ {
            Some(Self::TRMedic)
        } else if name == "TREngineer"@ {
            Some(Self::TREngineer)
        } else if name == "TRHeavyAssault"@ {
            Some(Self::TRHeavyAssault)
        } else if name == "TRMAX"@ {
            Some(Self::TRMAX)
        } else if name == "VSInfiltrator"@ {
            Some(Self::VSInfiltrator)
        } else if name == "VSLightAssault"@ {
            Some(Self::VSLightAssault)
        } else if name == "VSMedic"@ {
            Some(Self::VSMedic)
        } else if name == "VSEngineer"@ {
            Some(Self::VSEngineer)
        } else if name == "VSHeavyAssault"@ {
            Some(Self::VSHeavyAssault)
        } else if name == "VSMAX"@ {
            Some(Self::VSMAX)
        } else if name == "NSInfiltrator"@ {
            Some(Self::NSInfiltrator)
        } else if name == "NSLightAssault"@ {
            Some(Self::NSLightAssault)
        } else if name == "NSMedic"@ {
            Some(Self::NSMedic)
        } else if name == "NSEngineer"@ {
            Some(Self::NSEngineer)
        } else if name == "NSHeavyAssault"@ {
            Some(Self::NSHeavyAssault)
        } else if name == "NSMAX"@ {
            Some(Self::NSMAX)
        } else {
            None
        }
    }

    /// What a text stands for: the loadout of that name, or else the one
    /// whose number the text denotes as a signed integer.
    pub open spec fn spec_from_str(s: Seq<char>) -> Option<Self> {
        match Self::spec_from_name(s) {
            Some(v) => Some(v),
            None => match variant_number(s) {
                Some(id) => Self::spec_from_repr(id),
                None => None,
            },
        }
    }

    #[verifier::when_used_as_spec(spec_id)]
    pub fn id(self) -> (id: u16)
        ensures
            id == self.spec_id(),
    {
        match self {
            Self::Unknown => 0,
            Self::NCInfiltrator => 1,
            Self::NCLightAssault => 3,
            Self::NCMedic => 4,
            Self::NCEngineer => 5,
            Self::NCHeavyAssault => 6,
            Self::NCMAX => 7,
            Self::TRInfiltrator => 8,
            Self::TRLightAssault => 10,
            Self::TRMedic => 11,
            Self::TREngineer => 12,
            Self::TRHeavyAssault => 13,
            Self::TRMAX => 14,
            Self::VSInfiltrator => 15,
            Self::VSLightAssault => 17,
            Self::VSMedic => 18,
            Self::VSEngineer => 19,
            Self::VSHeavyAssault => 20,
            Self::VSMAX => 21,
            Self::NSInfiltrator => 28,
            Self::NSLightAssault => 29,
            Self::NSMedic => 30,
            Self::NSEngineer => 31,
            Self::NSHeavyAssault => 32,
            Self::NSMAX => 45,
        }
    }

    pub fn from_repr(id: u16) -> (r: Option<Self>)
        ensures
            r == Self::spec_from_repr(id),
            r matches Some(v) ==> v.spec_id() == id,
    {
        match id {
            0 => Some(Self::Unknown),
            1 => Some(Self::NCInfiltrator),
            3 => Some(Self::NCLightAssault),
            4 => Some(Self::NCMedic),
            5 => Some(Self::NCEngineer),
            6 => Some(Self::NCHeavyAssault),
            7 => Some(Self::NCMAX),
            8 => Some(Self::TRInfiltrator),
            10 => Some(Self::TRLightAssault),
            11 => Some(Self::TRMedic),
            12 => Some(Self::TREngineer),
            13 => Some(Self::TRHeavyAssault),
            14 => Some(Self::TRMAX),
            15 => Some(Self::VSInfiltrator),
            17 => Some(Self::VSLightAssault),
            18 => Some(Self::VSMedic),
            19 => Some(Self::VSEngineer),
            20 => Some(Self::VSHeavyAssault),
            21 => Some(Self::VSMAX),
            28 => Some(Self::NSInfiltrator),
            29 => Some(Self::NSLightAssault),
            30 => Some(Self::NSMedic),
            31 => Some(Self::NSEngineer),
            32 => Some(Self::NSHeavyAssault),
            45 => Some(Self::NSMAX),
            _ => None,
        }
    }

    pub fn name(self) -> (name: &'static str)
        ensures
            name@ == self.spec_name(),
    {
        match self {
            Self::Unknown => "Unknown",
            Self::NCInfiltrator => "NCInfiltrator",
            Self::NCLightAssault => "NCLightAssault",
            Self::NCMedic => "NCMedic",
            Self::NCEngineer => "NCEngineer",
            Self::NCHeavyAssault => "NCHeavyAssault",
            Self::NCMAX => "NCMAX",
            Self::TRInfiltrator => "TRInfiltrator",
            Self::TRLightAssault => "TRLightAssault",
            Self::TRMedic => "TRMedic",
            Self::TREngineer => "TREngineer",
            Self::TRHeavyAssault => "TRHeavyAssault",
            Self::TRMAX => "TRMAX",
            Self::VSInfiltrator => "VSInfiltrator",
            Self::VSLightAssault => "VSLightAssault",
            Self::VSMedic => "VSMedic",
            Self::VSEngineer => "VSEngineer",
            Self::VSHeavyAssault => "VSHeavyAssault",
            Self::VSMAX => "VSMAX",
            Self::NSInfiltrator => "NSInfiltrator",
            Self::NSLightAssault => "NSLightAssault",
            Self::NSMedic => "NSMedic",
            Self::NSEngineer => "NSEngineer",
            Self::NSHeavyAssault => "NSHeavyAssault",
            Self::NSMAX => "NSMAX",
        }
    }

    fn from_name(chars: &Vec<char>) -> (r: Option<Self>)
        ensures
            r == Self::spec_from_name(chars@),
    {
        if spells(chars, "Unknown") {
            Some(Self::Unknown)
        } else if spells(chars, "NCInfiltrator") {
            Some(Self::NCInfiltrator)
        } else if spells(chars, "NCLightAssault") {
            Some(Self::NCLightAssault)
        } else if spells(chars, "NCMedic") {
            Some(Self::NCMedic)
        } else if spells(chars, "NCEngineer") {
            Some(Self::NCEngineer)
        } else if spells(chars, "NCHeavyAssault") {
            Some(Self::NCHeavyAssault)
        } else if spells(chars, "NCMAX") {
            Some(Self::NCMAX)
        } else if spells(chars, "TRInfiltrator") {
            Some(Self::TRInfiltrator)
        } else if spells(chars, "TRLightAssault") {
            Some(Self::TRLightAssault)
        } else if spells(chars, "TRMedic") {
            Some(Self::TRMedic)
        } else if spells(chars, "TREngineer") {
            Some(Self::TREngineer)
        } else if spells(chars, "TRHeavyAssault") {
            Some(Self::TRHeavyAssault)
        } else if spells(chars, "TRMAX") {
            Some(Self::TRMAX)
        } else if spells(chars, "VSInfiltrator") {
            Some(Self::VSInfiltrator)
        } else if spells(chars, "VSLightAssault") {
            Some(Self::VSLightAssault)
        } else if spells(chars, "VSMedic") {
            Some(Self::VSMedic)
        } else if spells(chars, "VSEngineer") {
            Some(Self::VSEngineer)
        } else if spells(chars, "VSHeavyAssault") {
            Some(Self::VSHeavyAssault)
        } else if spells(chars, "VSMAX") {
            Some(Self::VSMAX)
        } else if spells(chars, "NSInfiltrator") {
            Some(Self::NSInfiltrator)
        } else if spells(chars, "NSLightAssault") {
            Some(Self::NSLightAssault)
        } else if spells(chars, "NSMedic") {
            Some(Self::NSMedic)
        } else if spells(chars, "NSEngineer") {
            Some(Self::NSEngineer)
        } else if spells(chars, "NSHeavyAssault") {
            Some(Self::NSHeavyAssault)
        } else if spells(chars, "NSMAX") {
            Some(Self::NSMAX)
        } else {
            None
        }
    }

    /// Reads a loadout from its name or from its number.
    pub fn from_str(s: &str) -> (r: Result<Self, FromStrError>)
        ensures
            match r {
                Ok(v) => Self::spec_from_str(s@) == Some(v),
                Err(e) => Self::spec_from_str(s@) is None && e == FromStrError::InvalidVariant,
            },
    {
        let chars = chars_of(s);
        match Self::from_name(&chars) {
            Some(v) => Ok(v),
            None => match number_of_variant(&chars) {
                Some(id) => match Self::from_repr(id) {
                    Some(v) => Ok(v),
                    None => Err(FromStrError::InvalidVariant),
                },
                None => Err(FromStrError::InvalidVariant),
            },
        }
    }

    /// The faction that this loadout belongs to.
    pub open spec fn spec_faction(self) -> Faction {
        match self {
            Self::Unknown => Faction::Unknown,
            Self::NCInfiltrator
            | Self::NCLightAssault
            | Self::NCMedic
            | Self::NCEngineer
            | Self::NCHeavyAssault
            | Self::NCMAX => Faction::NC,
            Self::TRInfiltrator
            | Self::TRLightAssault
            | Self::TRMedic
            | Self::TREngineer
            | Self::TRHeavyAssault
            | Self::TRMAX => Faction::TR,
            Self::VSInfiltrator
            | Self::VSLightAssault
            | Self::VSMedic
            | Self::VSEngineer
            | Self::VSHeavyAssault
            | Self::VSMAX => Faction::VS,
            Self::NSInfiltrator
            | Self::NSLightAssault
            | Self::NSMedic
            | Self::NSEngineer
            | Self::NSHeavyAssault
            | Self::NSMAX => Faction::NS,
        }
    }

    #[verifier::when_used_as_spec(spec_faction)]
    pub fn get_faction(self) -> (faction: Faction)
        ensures
            faction == self.spec_faction(),
    {
        match self {
            Self::Unknown => Faction::Unknown,
            Self::NCInfiltrator
            | Self::NCLightAssault
            | Self::NCMedic
            | Self::NCEngineer
            | Self::NCHeavyAssault
            | Self::NCMAX => Faction::NC,
            Self::TRInfiltrator
            | Self::TRLightAssault
            | Self::TRMedic
            | Self::TREngineer
            | Self::TRHeavyAssault
            | Self::TRMAX => Faction::TR,
            Self::VSInfiltrator
            | Self::VSLightAssault
            | Self::VSMedic
            | Self::VSEngineer
            | Self::VSHeavyAssault
            | Self::VSMAX => Faction::VS,
            Self::NSInfiltrator
            | Self::NSLightAssault
            | Self::NSMedic
            | Self::NSEngineer
            | Self::NSHeavyAssault
            | Self::NSMAX => Faction::NS,
        }
    }
}

/// One of the game's factions.
#[derive(Clone, Copy, Debug, PartialEq, Eq, Hash, Structural)]
pub enum Faction {
    Unknown,
    VS,
    NC,
    TR,
    NS,
}

impl Faction {
    /// The number under which the feed and the store know this faction.
    pub open spec fn spec_id(self) -> u16 {
        match self {
            Self::Unknown => 0,
            Self::VS => 1,
            Self::NC => 2,
            Self::TR => 3,
            Self::NS => 4,
        }
    }

    /// The faction with the number `id`, if there is one.
    pub open spec fn spec_from_repr(id: u16) -> Option<Self> {
        if id == 0 {
            Some(Self::Unknown)
        } else if id == 1 {
            Some(Self::VS)
        } else if id == 2 {
            Some(Self::NC)
        } else if id == 3 {
            Some(Self::TR)
        } else if id == 4 {
            Some(Self::NS)
        } else {
            None
        }
    }

    /// The name of this faction, as it is written in code and in messages.
    pub open spec fn spec_name(self) -> Seq<char> {
        match self {
            Self::Unknown => "Unknown"@,
            Self::VS => "VS"@,
            Self::NC => "NC"@,
            Self::TR => "TR"@,
            Self::NS => "NS"@,
        }
    }

    /// The faction whose name is `name`, if there is one.
    pub open spec fn spec_from_name(name: Seq<char>) -> Option<Self> {
        if name == "Unknown"@ {
            Some(Self::Unknown)
        } else if name == "VS"@ {
            Some(Self::VS)
        } else if name == "NC"@ {
            Some(Self::NC)
        } else if name == "TR"@ {
            Some(Self::TR)
        } else if name == "NS"@ {
            Some(Self::NS)
        } else {
            None
        }
    }

    /// What a text stands for: the faction of that name, or else the one
    /// whose number the text denotes as a signed integer.
    pub open spec fn spec_from_str(s: Seq<char>) -> Option<Self> {
        match Self::spec_from_name(s) {
            Some(v) => Some(v),
            None => match variant_number(s) {
                Some(id) => Self::spec_from_repr(id),
                None => None,
            },
        }
    }

    #[verifier::when_used_as_spec(spec_id)]
    pub fn id(self) -> (id: u16)
        ensures
            id == self.spec_id(),
    {
        match self {
            Self::Unknown => 0,
            Self::VS => 1,
            Self::NC => 2,
            Self::TR => 3,
            Self::NS => 4,
        }
    }

    pub fn from_repr(id: u16) -> (r: Option<Self>)
        ensures
            r == Self::spec_from_repr(id),
            r matches Some(v) ==> v.spec_id() == id,
    {
        match id {
            0 => Some(Self::Unknown),
            1 => Some(Self::VS),
            2 => Some(Self::NC),
            3 => Some(Self::TR),
            4 => Some(Self::NS),
            _ => None,
        }
    }

    pub fn name(self) -> (name: &'static str)
        ensures
            name@ == self.spec_name(),
    {
        match self {
            Self::Unknown => "Unknown",
            Self::VS => "VS",
            Self::NC => "NC",
            Self::TR => "TR",
            Self::NS => "NS",
        }
    }

    fn from_name(chars: &Vec<char>) -> (r: Option<Self>)
        ensures
            r == Self::spec_from_name(chars@),
    {
        if spells(chars, "Unknown") {
            Some(Self::Unknown)
        } else if spells(chars, "VS") {
            Some(Self::VS)
        } else if spells(chars, "NC") {
            Some(Self::NC)
        } else if spells(chars, "TR") {
            Some(Self::TR)
        } else if spells(chars, "NS") {
            Some(Self::NS)
        } else {
            None
        }
    }

    /// Reads a faction from its name or from its number.
    pub fn from_str(s: &str) -> (r: Result<Self, FromStrError>)
        ensures
            match r {
                Ok(v) => Self::spec_from_str(s@) == Some(v),
                Err(e) => Self::spec_from_str(s@) is None && e == FromStrError::InvalidVariant,
            },
    {
        let chars = chars_of(s);
        match Self::from_name(&chars) {
            Some(v) => Ok(v),
            None => match number_of_variant(&chars) {
                Some(id) => match Self::from_repr(id) {
                    Some(v) => Ok(v),
                    None => Err(FromStrError::InvalidVariant),
                },
                None => Err(FromStrError::InvalidVariant),
            },
        }
    }
}

pub type TeamID = Faction;

/// One of the game's servers.
#[derive(Clone, Copy, Debug, PartialEq, Eq, Hash, Structural)]
pub enum WorldID {
    Jaeger,
    Briggs,
    Miller,
    Cobalt,
    Connery,
    Emerald,
    Soltech,
}

impl WorldID {
    /// The number under which the feed and the store know this world.
    pub open spec fn spec_id(self) -> u16 {
        match self {
            Self::Jaeger => 19,
            Self::Briggs => 25,
            Self::Miller => 10,
            Self::Cobalt => 13,
            Self::Connery => 1,
            Self::Emerald => 17,
            Self::Soltech => 40,
        }
    }

    /// The world with the number `id`, if there is one.
    pub open spec fn spec_from_repr(id: u16) -> Option<Self> {
        if id == 19 {
            Some(Self::Jaeger)
        } else if id == 25 {
            Some(Self::Briggs)
        } else if id == 10 {
            Some(Self::Miller)
        } else if id == 13 {
            Some(Self::Cobalt)
        } else if id == 1 {
            Some(Self::Connery)
        } else if id == 17 {
            Some(Self::Emerald)
        } else if id == 40 {
            Some(Self::Soltech)
        } else {
            None
        }
    }

    /// The name of this world, as it is written in code and in messages.
    pub open spec fn spec_name(self) -> Seq<char> {
        match self {
            Self::Jaeger => "Jaeger"@,
            Self::Briggs => "Briggs"@,
            Self::Miller => "Miller"@,
            Self::Cobalt => "Cobalt"@,
            Self::Connery => "Connery"@,
            Self::Emerald => "Emerald"@,
            Self::Soltech => "Soltech"@,
        }
    }

    /// The world whose name is `name`, if there is one.
    pub open spec fn spec_from_name(name: Seq<char>) -> Option<Self> {
        if name == "Jaeger"@ {
            Some(Self::Jaeger)
        } else if name == "Briggs"@ {
            Some(Self::Briggs)
        } else if name == "Miller"@ {
            Some(Self::Miller)
        } else if name == "Cobalt"@ {
            Some(Self::Cobalt)
        } else if name == "Connery"@ {
            Some(Self::Connery)
        } else if name == "Emerald"@ {
            Some(Self::Emerald)
        } else if name == "Soltech"@ {
            Some(Self::Soltech)
        } else {
            None
        }
    }

    /// What a text stands for: the world of that name, or else the one
    /// whose number the text denotes as a signed integer.
    pub open spec fn spec_from_str(s: Seq<char>) -> Option<Self> {
        match Self::spec_from_name(s) {
            Some(v) => Some(v),
            None => match variant_number(s) {
                Some(id) => Self::spec_from_repr(id),
                None => None,
            },
        }
    }

    #[verifier::when_used_as_spec(spec_id)]
    pub fn id(self) -> (id: u16)
        ensures
            id == self.spec_id(),
    {
        match self {
            Self::Jaeger => 19,
            Self::Briggs => 25,
            Self::Miller => 10,
            Self::Cobalt => 13,
            Self::Connery => 1,
            Self::Emerald => 17,
            Self::Soltech => 40,
        }
    }

    pub fn from_repr(id: u16) -> (r: Option<Self>)
        ensures
            r == Self::spec_from_repr(id),
            r matches Some(v) ==> v.spec_id() == id,
    {
        match id {
            19 => Some(Self::Jaeger),
            25 => Some(Self::Briggs),
            10 => Some(Self::Miller),
            13 => Some(Self::Cobalt),
            1 => Some(Self::Connery),
            17 => Some(Self::Emerald),
            40 => Some(Self::Soltech),
            _ => None,
        }
    }

    pub fn name(self) -> (name: &'static str)
        ensures
            name@ == self.spec_name(),
    {
        match self {
            Self::Jaeger => "Jaeger",
            Self::Briggs => "Briggs",
            Self::Miller => "Miller",
            Self::Cobalt => "Cobalt",
            Self::Connery => "Connery",
            Self::Emerald => "Emerald",
            Self::Soltech => "Soltech",
        }
    }

    fn from_name(chars: &Vec<char>) -> (r: Option<Self>)
        ensures
            r == Self::spec_from_name(chars@),
    {
        if spells(chars, "Jaeger") {
            Some(Self::Jaeger)
        } else if spells(chars, "Briggs") {
            Some(Self::Briggs)
        } else if spells(chars, "Miller") {
            Some(Self::Miller)
        } else if spells(chars, "Cobalt") {
            Some(Self::Cobalt)
        } else if spells(chars, "Connery") {
            Some(Self::Connery)
        } else if spells(chars, "Emerald") {
            Some(Self::Emerald)
        } else if spells(chars, "Soltech") {
            Some(Self::Soltech)
        } else {
            None
        }
    }

    /// Reads a world from its name or from its number.
    pub fn from_str(s: &str) -> (r: Result<Self, FromStrError>)
        ensures
            match r {
                Ok(v) => Self::spec_from_str(s@) == Some(v),
                Err(e) => Self::spec_from_str(s@) is None && e == FromStrError::InvalidVariant,
            },
    {
        let chars = chars_of(s);
        match Self::from_name(&chars) {
            Some(v) => Ok(v),
            None => match number_of_variant(&chars) {
                Some(id) => match Self::from_repr(id) {
                    Some(v) => Ok(v),
                    None => Err(FromStrError::InvalidVariant),
                },
                None => Err(FromStrError::InvalidVariant),
            },
        }
    }
}

pub type CharacterID = u64;

pub type OutfitID = u64;

pub type FacilityID = u32;

pub type ExperienceID = u16;

pub type VehicleID = u16;

pub type WeaponID = u32;

pub type FiremodeID = u32;

/// A zone as the feed names it: the continent's definition in the low sixteen
/// bits, the instance in the high sixteen.
#[derive(Clone, Copy, Debug, PartialEq, Eq, PartialOrd, Ord, Hash, Structural)]
pub struct ZoneID(pub u32);

/// The continent that a zone is an instance of.
#[derive(Clone, Copy, Debug, PartialEq, Eq, PartialOrd, Ord, Hash, Structural)]
pub struct DefinitionID(pub u16);

/// Which instance of its continent a zone is.
#[derive(Clone, Copy, Debug, PartialEq, Eq, PartialOrd, Ord, Hash, Structural)]
pub struct InstanceID(pub u16);

impl ZoneID {
    /// The instance that the high sixteen bits name.
    pub open spec fn instance(self) -> InstanceID {
        InstanceID((self.0 / 0x1_0000) as u16)
    }

    /// The continent that the low sixteen bits name.
    pub open spec fn definition(self) -> DefinitionID {
        DefinitionID((self.0 % 0x1_0000) as u16)
    }

    /// What a text stands for as a zone: the number it denotes.
    pub open spec fn spec_from_str(s: Seq<char>) -> Option<Self> {
        match parse_unsigned_spec(s, u32::MAX as nat) {
            Some(v) => Some(ZoneID(v as u32)),
            None => None,
        }
    }

    /// Reads a zone from its number.
    pub fn from_str(s: &str) -> (r: Result<Self, FromStrError>)
        ensures
            match r {
                Ok(v) => Self::spec_from_str(s@) == Some(v),
                Err(e) => Self::spec_from_str(s@) is None && e == FromStrError::InvalidNumber,
            },
    {
        match parse_u32(s) {
            Some(v) => Ok(ZoneID(v)),
            None => Err(FromStrError::InvalidNumber),
        }
    }
}

impl DefinitionID {
    /// What a text stands for as a continent: the number it denotes.
    pub open spec fn spec_from_str(s: Seq<char>) -> Option<Self> {
        match parse_unsigned_spec(s, u16::MAX as nat) {
            Some(v) => Some(DefinitionID(v as u16)),
            None => None,
        }
    }

    /// Reads a continent from its number.
    pub fn from_str(s: &str) -> (r: Result<Self, FromStrError>)
        ensures
            match r {
                Ok(v) => Self::spec_from_str(s@) == Some(v),
                Err(e) => Self::spec_from_str(s@) is None && e == FromStrError::InvalidNumber,
            },
    {
        match parse_u16(s) {
            Some(v) => Ok(DefinitionID(v)),
            None => Err(FromStrError::InvalidNumber),
        }
    }
}

impl InstanceID {
    /// What a text stands for as an instance: the number it denotes.
    pub open spec fn spec_from_str(s: Seq<char>) -> Option<Self> {
        match parse_unsigned_spec(s, u16::MAX as nat) {
            Some(v) => Some(InstanceID(v as u16)),
            None => None,
        }
    }

    /// Reads an instance from its number.
    pub fn from_str(s: &str) -> (r: Result<Self, FromStrError>)
        ensures
            match r {
                Ok(v) => Self::spec_from_str(s@) == Some(v),
                Err(e) => Self::spec_from_str(s@) is None && e == FromStrError::InvalidNumber,
            },
    {
        match parse_u16(s) {
            Some(v) => Ok(InstanceID(v)),
            None => Err(FromStrError::InvalidNumber),
        }
    }
}

impl From<ZoneID> for InstanceID {
    fn from(zone_id: ZoneID) -> (r: Self) {
        let raw: u32 = zone_id.0;
        assert((raw & 0xFFFF_0000) >> 16 == raw / 0x1_0000) by (bit_vector);
        InstanceID(((raw & 0xFFFF_0000) >> 16) as u16)
    }
}

impl FromSpecImpl<ZoneID> for InstanceID {
    open spec fn obeys_from_spec() -> bool {
        true
    }

    open spec fn from_spec(zone_id: ZoneID) -> Self {
        zone_id.instance()
    }
}

impl From<ZoneID> for DefinitionID {
    fn from(zone_id: ZoneID) -> (r: Self) {
        let raw: u32 = zone_id.0;
        assert(raw & 0xFFFF == raw % 0x1_0000) by (bit_vector);
        DefinitionID((raw & 0xFFFF) as u16)
    }
}

impl FromSpecImpl<ZoneID> for DefinitionID {
    open spec fn obeys_from_spec() -> bool {
        true
    }

    open spec fn from_spec(zone_id: ZoneID) -> Self {
        zone_id.definition()
    }
}

/// A zone is told apart by its continent and its instance together.
pub proof fn lemma_zone_parts_identify(a: ZoneID, b: ZoneID)
    requires
        a.instance() == b.instance(),
        a.definition() == b.definition(),
    ensures
        a == b,
{
}

/// Every loadout is found again by its number.
pub proof fn lemma_loadout_repr_round_trip(loadout: Loadout)
    ensures
        Loadout::spec_from_repr(loadout.spec_id()) == Some(loadout),
{
}

/// Every faction is found again by its number.
pub proof fn lemma_faction_repr_round_trip(faction: Faction)
    ensures
        Faction::spec_from_repr(faction.spec_id()) == Some(faction),
{
}

/// Every world is found again by its number.
pub proof fn lemma_world_repr_round_trip(world: WorldID)
    ensures
        WorldID::spec_from_repr(world.spec_id()) == Some(world),
{
}

} // verus!
