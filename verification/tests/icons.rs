use niumside_poptracker::census::constants::Faction;
use niumside_poptracker::discord::icons::Icons;

#[test]
fn test_icons_try_from() {
    assert_eq!(Icons::try_from(Faction::VS).unwrap(), Icons::VS);
    assert_eq!(Icons::try_from(Faction::NC).unwrap(), Icons::NC);
    assert_eq!(Icons::try_from(Faction::TR).unwrap(), Icons::TR);
    assert_eq!(Icons::try_from(Faction::NS).unwrap(), Icons::NS);
    assert_eq!(Icons::try_from(Faction::Unknown).unwrap(), Icons::Ps2White);
}

#[test]
fn icons_are_written_with_name_and_number() {
    assert_eq!(Icons::VS.mention(), "<:VS:683285085818191976>");
    assert_eq!(Icons::NC.mention(), "<:NC:683285084320694302>");
    assert_eq!(Icons::TR.mention(), "<:TR:683285084463431720>");
    assert_eq!(Icons::NS.mention(), "<:NS:722816749707198574>");
    assert_eq!(Icons::Ps2White.mention(), "<:Ps2White:722814368022134790>");
}

#[test]
fn icons_know_their_numbers() {
    assert_eq!(Icons::VS.id(), 683_285_085_818_191_976);
    assert_eq!(Icons::Ps2White.id(), 722_814_368_022_134_790);
    assert_eq!(Icons::NS.name(), "NS");
}
