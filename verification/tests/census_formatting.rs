use niumside_poptracker::census::constants::{Faction, Loadout, WorldID, ZoneID};
use niumside_poptracker::controllers::population::{
    add_population, TreePosition, WorldBreakdown, WorldPopulation,
};
use niumside_poptracker::discord::census_formatting::{
    get_total_population, team_population, TotalPopulation,
};

fn world() -> WorldPopulation {
    let mut tree = WorldBreakdown::new();
    let mut add = |zone: u32, team: Faction, loadout: Loadout, amount: u16| {
        add_population(
            &mut tree,
            TreePosition { world: WorldID::Cobalt, zone: ZoneID(zone), team, loadout },
            amount,
        );
    };
    add(8, Faction::TR, Loadout::TRMedic, 4);
    add(8, Faction::VS, Loadout::VSMedic, 7);
    add(8, Faction::VS, Loadout::NSMedic, 2);
    add(2, Faction::VS, Loadout::VSMAX, 1);
    add(2, Faction::NC, Loadout::NCMAX, 30);
    add(4, Faction::TR, Loadout::TRMAX, 6);
    tree.remove(0)
}

#[test]
fn a_world_is_summed_up_faction_by_faction() {
    let totals = get_total_population(&world());
    assert_eq!(
        totals,
        vec![
            TotalPopulation { faction: Faction::TR, population: 10 },
            TotalPopulation { faction: Faction::VS, population: 10 },
            TotalPopulation { faction: Faction::NC, population: 30 },
        ]
    );
}

#[test]
fn the_factions_stand_in_the_order_of_their_first_team() {
    let mut tree = WorldBreakdown::new();
    let mut add = |zone: u32, team: Faction, loadout: Loadout, amount: u16| {
        add_population(
            &mut tree,
            TreePosition { world: WorldID::Emerald, zone: ZoneID(zone), team, loadout },
            amount,
        );
    };
    add(6, Faction::NS, Loadout::NSMedic, 1);
    add(6, Faction::NC, Loadout::NCMAX, 2);
    add(4, Faction::VS, Loadout::VSMAX, 3);
    add(4, Faction::NC, Loadout::NCMAX, 4);
    add(2, Faction::TR, Loadout::TRMAX, 5);
    add(2, Faction::NS, Loadout::NSMedic, 6);
    add(6, Faction::TR, Loadout::TRMAX, 7);
    let totals = get_total_population(&tree[0]);
    assert_eq!(
        totals,
        vec![
            TotalPopulation { faction: Faction::NS, population: 7 },
            TotalPopulation { faction: Faction::NC, population: 6 },
            TotalPopulation { faction: Faction::TR, population: 12 },
            TotalPopulation { faction: Faction::VS, population: 3 },
        ]
    );
}

#[test]
fn every_faction_may_count_as_much_as_an_amount_holds() {
    let mut tree = WorldBreakdown::new();
    let mut add = |zone: u32, team: Faction, loadout: Loadout, amount: u16| {
        add_population(
            &mut tree,
            TreePosition { world: WorldID::Emerald, zone: ZoneID(zone), team, loadout },
            amount,
        );
    };
    add(6, Faction::VS, Loadout::VSMedic, 40_000);
    add(6, Faction::NC, Loadout::NCMAX, 40_000);
    add(4, Faction::NC, Loadout::NCMAX, 25_535);
    add(4, Faction::TR, Loadout::TRMAX, 65_535);
    let totals = get_total_population(&tree[0]);
    assert_eq!(
        totals,
        vec![
            TotalPopulation { faction: Faction::VS, population: 40_000 },
            TotalPopulation { faction: Faction::NC, population: 65_535 },
            TotalPopulation { faction: Faction::TR, population: 65_535 },
        ]
    );
}

#[test]
fn a_world_without_zones_has_no_totals() {
    let empty = WorldPopulation { world_id: WorldID::Miller, zones: Vec::new() };
    assert!(get_total_population(&empty).is_empty());
}

#[test]
fn a_team_is_the_sum_of_its_loadouts() {
    let world = world();
    assert_eq!(team_population(&world.zones[0].teams[1].loadouts), 9);
    assert_eq!(team_population(&Vec::new()), 0);
}
