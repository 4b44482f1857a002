//! The emoji that stand for the factions in messages.
use crate::census::constants::Faction;
use crate::text::{decimal_text, u64_to_string};
use vstd::prelude::*;
use vstd::string::StringExecFns;

verus! {

/// The emoji of a faction, or the game's own where the faction is unknown.
#[derive(Clone, Copy, Debug, PartialEq, Eq, Structural)]
pub enum Icons {
    VS,
    NC,
    TR,
    NS,
    Ps2White,
}

impl Icons {
    /// The emoji that stands for a faction.
    pub open spec fn of_faction(faction: Faction) -> Icons {
        match faction {
            Faction::VS => Icons::VS,
            Faction::NC => Icons::NC,
            Faction::TR => Icons::TR,
            Faction::NS => Icons::NS,
            Faction::Unknown => Icons::Ps2White,
        }
    }

    /// The number under which the chat platform knows the emoji.
    pub open spec fn spec_id(self) -> u64 {
        match self {
            Icons::VS => 683_285_085_818_191_976,
            Icons::NC => 683_285_084_320_694_302,
            Icons::TR => 683_285_084_463_431_720,
            Icons::NS => 722_816_749_707_198_574,
            Icons::Ps2White => 722_814_368_022_134_790,
        }
    }

    /// The name under which the chat platform knows the emoji.
    pub open spec fn spec_name(self) -> Seq<char> {
        match self {
            Icons::VS => "VS"@,
            Icons::NC => "NC"@,
            Icons::TR => "TR"@,
            Icons::NS => "NS"@,
            Icons::Ps2White => "Ps2White"@,
        }
    }

    /// How the emoji is written in a message: its name and its number
    /// between `<:` and `>`, with a colon between the two.
    pub open spec fn spec_mention(self) -> Seq<char> {
        "<:"@ + self.spec_name() + ":"@ + decimal_text(self.spec_id() as nat) + ">"@
    }

    /// The emoji that stands for a faction. There is one for every faction.
    pub fn try_from(faction: Faction) -> (r: Result<Icons, ()>)
        ensures
            r == Ok::<Icons, ()>(Icons::of_faction(faction)),
    {
        match faction {
            Faction::VS => Ok(Self::VS),
            Faction::NC => Ok(Self::NC),
            Faction::TR => Ok(Self::TR),
            Faction::NS => Ok(Self::NS),
            Faction::Unknown => Ok(Self::Ps2White),
        }
    }

    #[verifier::when_used_as_spec(spec_id)]
    pub fn id(self) -> (id: u64)
        ensures
            id == self.spec_id(),
    {
        match self {
            Icons::VS => 683_285_085_818_191_976,
            Icons::NC => 683_285_084_320_694_302,
            Icons::TR => 683_285_084_463_431_720,
            Icons::NS => 722_816_749_707_198_574,
            Icons::Ps2White => 722_814_368_022_134_790,
        }
    }

    pub fn name(self) -> (name: &'static str)
        ensures
            name@ == self.spec_name(),
    {
        match self {
            Icons::VS => "VS",
            Icons::NC => "NC",
            Icons::TR => "TR",
            Icons::NS => "NS",
            Icons::Ps2White => "Ps2White",
        }
    }

    /// Writes the emoji as it stands in a message.
    pub fn mention(&self) -> (text: String)
        ensures
            text@ == self.spec_mention(),
    {
        let number = u64_to_string(self.id());
        let text = String::from_str("<:").concat(self.name()).concat(":").concat(
            number.as_str(),
        ).concat(">");
        proof {
            assert(text@ =~= self.spec_mention());
        }
        text
    }
}

} // verus!
