use niumside_poptracker::census::constants::{
    DefinitionID, Faction, FromStrError, InstanceID, Loadout, WorldID, ZoneID,
};

#[test]
fn loadouts_belong_to_their_factions() {
    assert_eq!(Loadout::Unknown.get_faction(), Faction::Unknown);
    assert_eq!(Loadout::NCInfiltrator.get_faction(), Faction::NC);
    assert_eq!(Loadout::NCMAX.get_faction(), Faction::NC);
    assert_eq!(Loadout::TRMedic.get_faction(), Faction::TR);
    assert_eq!(Loadout::VSHeavyAssault.get_faction(), Faction::VS);
    assert_eq!(Loadout::NSEngineer.get_faction(), Faction::NS);
    assert_eq!(Loadout::NSMAX.get_faction(), Faction::NS);
}

#[test]
fn identifiers_have_their_numbers() {
    assert_eq!(Loadout::VSHeavyAssault.id(), 20);
    assert_eq!(Loadout::NSMAX.id(), 45);
    assert_eq!(Faction::NS.id(), 4);
    assert_eq!(WorldID::Cobalt.id(), 13);
    assert_eq!(WorldID::Soltech.id(), 40);
    assert_eq!(Loadout::from_repr(6), Some(Loadout::NCHeavyAssault));
    assert_eq!(Loadout::from_repr(2), None);
    assert_eq!(Loadout::from_repr(46), None);
    assert_eq!(Faction::from_repr(1), Some(Faction::VS));
    assert_eq!(Faction::from_repr(5), None);
    assert_eq!(WorldID::from_repr(17), Some(WorldID::Emerald));
    assert_eq!(WorldID::from_repr(0), None);
}

#[test]
fn every_identifier_is_found_again_by_its_number() {
    for id in 0..=u16::MAX {
        if let Some(loadout) = Loadout::from_repr(id) {
            assert_eq!(loadout.id(), id);
        }
        if let Some(faction) = Faction::from_repr(id) {
            assert_eq!(faction.id(), id);
        }
        if let Some(world) = WorldID::from_repr(id) {
            assert_eq!(world.id(), id);
        }
    }
    assert_eq!(Loadout::from_repr(Loadout::TRMAX.id()), Some(Loadout::TRMAX));
    assert_eq!(WorldID::from_repr(WorldID::Jaeger.id()), Some(WorldID::Jaeger));
}

#[test]
fn identifiers_are_read_from_names_and_numbers() {
    assert_eq!(Loadout::from_str("VSHeavyAssault"), Ok(Loadout::VSHeavyAssault));
    assert_eq!(Loadout::from_str("20"), Ok(Loadout::VSHeavyAssault));
    assert_eq!(Loadout::from_str("+20"), Ok(Loadout::VSHeavyAssault));
    assert_eq!(Loadout::from_str("020"), Ok(Loadout::VSHeavyAssault));
    assert_eq!(Loadout::from_str("-0"), Ok(Loadout::Unknown));
    assert_eq!(Loadout::from_str("2"), Err(FromStrError::InvalidVariant));
    assert_eq!(Loadout::from_str("vsheavyassault"), Err(FromStrError::InvalidVariant));
    assert_eq!(Loadout::from_str(""), Err(FromStrError::InvalidVariant));
    assert_eq!(Loadout::from_str("-20"), Err(FromStrError::InvalidVariant));
    assert_eq!(
        Loadout::from_str("99999999999999999999999999"),
        Err(FromStrError::InvalidVariant)
    );
    assert_eq!(Faction::from_str("1"), Ok(Faction::VS));
    assert_eq!(Faction::from_str("NS"), Ok(Faction::NS));
    assert_eq!(Faction::from_str("5"), Err(FromStrError::InvalidVariant));
    assert_eq!(WorldID::from_str("13"), Ok(WorldID::Cobalt));
    assert_eq!(WorldID::from_str("Cobalt"), Ok(WorldID::Cobalt));
    assert_eq!(WorldID::from_str("cobalt"), Err(FromStrError::InvalidVariant));
    assert_eq!(WorldID::from_str("14"), Err(FromStrError::InvalidVariant));
}

#[test]
fn identifiers_have_their_names() {
    assert_eq!(Loadout::NCLightAssault.name(), "NCLightAssault");
    assert_eq!(Faction::Unknown.name(), "Unknown");
    assert_eq!(WorldID::Connery.name(), "Connery");
}

#[test]
fn zones_are_read_from_numbers() {
    assert_eq!(ZoneID::from_str("8"), Ok(ZoneID(8)));
    assert_eq!(ZoneID::from_str("4294967295"), Ok(ZoneID(u32::MAX)));
    assert_eq!(ZoneID::from_str("4294967296"), Err(FromStrError::InvalidNumber));
    assert_eq!(ZoneID::from_str("Indar"), Err(FromStrError::InvalidNumber));
    assert_eq!(ZoneID::from_str("-1"), Err(FromStrError::InvalidNumber));
    assert_eq!(DefinitionID::from_str("344"), Ok(DefinitionID(344)));
    assert_eq!(DefinitionID::from_str("65536"), Err(FromStrError::InvalidNumber));
    assert_eq!(InstanceID::from_str("65535"), Ok(InstanceID(65535)));
}

#[test]
fn a_zone_splits_into_instance_and_definition() {
    let zone = ZoneID(0x0012_0158);
    assert_eq!(InstanceID::from(zone), InstanceID(0x12));
    assert_eq!(DefinitionID::from(zone), DefinitionID(0x158));
    assert_eq!(InstanceID::from(ZoneID(8)), InstanceID(0));
    assert_eq!(DefinitionID::from(ZoneID(8)), DefinitionID(8));
    assert_eq!(InstanceID::from(ZoneID(u32::MAX)), InstanceID(u16::MAX));
    assert_eq!(DefinitionID::from(ZoneID(u32::MAX)), DefinitionID(u16::MAX));
}
