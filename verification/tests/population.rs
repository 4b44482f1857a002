use niumside_poptracker::active_players::{store_pop, Insert};
use niumside_poptracker::census::constants::{Faction, Loadout, WorldID, ZoneID};
use niumside_poptracker::controllers::population::{
    add_population, amount_at, build_tree, get_current_as_hashmap_tree, get_current_rows,
    get_current_tree,
    get_pop_worlds_from_world_breakdown, DbResponse, GenericPopulationLevel, PopBreakdown,
    TreePosition, ValidPopulationLevel, WorldBreakdown,
};

const STORED_AT: i64 = 1_728_117_300;

const REVISION: i32 = 41;

fn row_of(revision: i32, world: i32, loadout: i32, amount: i32) -> DbResponse {
    DbResponse {
        timestamp: STORED_AT + i64::from(revision),
        population_id: revision,
        world_id: world,
        zone_id: 8,
        team_id: 1,
        loadout_id: loadout,
        amount,
    }
}

fn position(world: WorldID, zone: u32, team: Faction, loadout: Loadout) -> TreePosition {
    TreePosition { world, zone: ZoneID(zone), team, loadout }
}

fn row(world: i32, zone: i32, team: i32, loadout: i32, amount: i32) -> DbResponse {
    DbResponse {
        timestamp: STORED_AT,
        population_id: REVISION,
        world_id: world,
        zone_id: zone,
        team_id: team,
        loadout_id: loadout,
        amount,
    }
}

/// The leaves of a tree, sorted, so that two trees can be compared without
/// regard to the order of their entries.
fn leaves(tree: &WorldBreakdown) -> Vec<(u16, u32, u16, u16, u16)> {
    let mut leaves = Vec::new();
    for world in tree {
        for zone in &world.zones {
            for team in &zone.teams {
                for loadout in &team.loadouts {
                    leaves.push((
                        world.world_id.id(),
                        zone.zone_id.0,
                        team.team_id.id(),
                        loadout.loadout_id.id(),
                        loadout.amount,
                    ));
                }
            }
        }
    }
    leaves.sort();
    leaves
}

/// Carries out the steps of a revision as the store would, and hands back
/// the rows that a query over the revision then returns.
fn carry_out(plan: &[Insert]) -> Vec<DbResponse> {
    let (mut world, mut zone, mut team) = (0i32, 0i64, 0i32);
    let mut rows = Vec::new();
    for step in plan {
        match *step {
            Insert::Population => {}
            Insert::World { world_id } => world = world_id,
            Insert::Zone { zone_id } => zone = zone_id,
            Insert::Team { team_id } => team = team_id,
            Insert::Loadout { loadout_id, amount } => {
                rows.push(row(world, zone as i32, team, loadout_id, amount));
            }
        }
    }
    rows
}

fn sample_tree() -> WorldBreakdown {
    let mut tree = WorldBreakdown::new();
    add_population(&mut tree, position(WorldID::Cobalt, 8, Faction::VS, Loadout::VSHeavyAssault), 1);
    add_population(&mut tree, position(WorldID::Cobalt, 8, Faction::VS, Loadout::NCHeavyAssault), 1);
    add_population(&mut tree, position(WorldID::Cobalt, 2, Faction::TR, Loadout::NSMAX), 14);
    add_population(&mut tree, position(WorldID::Miller, 8, Faction::VS, Loadout::VSHeavyAssault), 3);
    add_population(&mut tree, position(WorldID::Cobalt, 8, Faction::NC, Loadout::VSHeavyAssault), 5);
    add_population(&mut tree, position(WorldID::Cobalt, 8, Faction::VS, Loadout::VSHeavyAssault), 2);
    tree
}

#[test]
fn population_is_added_where_it_belongs() {
    let tree = sample_tree();
    assert_eq!(
        leaves(&tree),
        vec![
            (10, 8, 1, 20, 3),
            (13, 2, 3, 45, 14),
            (13, 8, 1, 6, 1),
            (13, 8, 1, 20, 3),
            (13, 8, 2, 20, 5),
        ]
    );
    assert_eq!(tree.len(), 2);
    assert_eq!(tree[0].world_id, WorldID::Cobalt);
    assert_eq!(tree[0].zones.len(), 2);
    assert_eq!(tree[1].world_id, WorldID::Miller);
    assert_eq!(amount_at(&tree, position(WorldID::Cobalt, 8, Faction::VS, Loadout::VSHeavyAssault)), 3);
    assert_eq!(amount_at(&tree, position(WorldID::Cobalt, 2, Faction::TR, Loadout::NSMAX)), 14);
    assert_eq!(amount_at(&tree, position(WorldID::Cobalt, 2, Faction::TR, Loadout::TRMAX)), 0);
    assert_eq!(amount_at(&tree, position(WorldID::Cobalt, 2, Faction::VS, Loadout::NSMAX)), 0);
    assert_eq!(amount_at(&tree, position(WorldID::Cobalt, 4, Faction::TR, Loadout::NSMAX)), 0);
    assert_eq!(amount_at(&tree, position(WorldID::Jaeger, 2, Faction::TR, Loadout::NSMAX)), 0);
}

#[test]
fn a_revision_is_written_from_the_top_down() {
    let plan = store_pop(&sample_tree());
    assert_eq!(
        plan,
        vec![
            Insert::Population,
            Insert::World { world_id: 13 },
            Insert::Zone { zone_id: 8 },
            Insert::Team { team_id: 1 },
            Insert::Loadout { loadout_id: 20, amount: 3 },
            Insert::Loadout { loadout_id: 6, amount: 1 },
            Insert::Team { team_id: 2 },
            Insert::Loadout { loadout_id: 20, amount: 5 },
            Insert::Zone { zone_id: 2 },
            Insert::Team { team_id: 3 },
            Insert::Loadout { loadout_id: 45, amount: 14 },
            Insert::World { world_id: 10 },
            Insert::Zone { zone_id: 8 },
            Insert::Team { team_id: 1 },
            Insert::Loadout { loadout_id: 20, amount: 3 },
        ]
    );
    assert_eq!(store_pop(&WorldBreakdown::new()), vec![Insert::Population]);
}

#[test]
fn what_is_written_is_read_back() {
    let tree = sample_tree();
    let rows = carry_out(&store_pop(&tree));
    assert_eq!(rows.len(), 5);
    let read = get_current_as_hashmap_tree(&rows).unwrap();
    assert_eq!(read.timestamp, STORED_AT);
    assert_eq!(leaves(&read.worlds), leaves(&tree));

    let mut reversed = rows.clone();
    reversed.reverse();
    let read = get_current_as_hashmap_tree(&reversed).unwrap();
    assert_eq!(leaves(&read.worlds), leaves(&tree));
}

#[test]
fn a_full_tree_is_read_back() {
    let mut tree = WorldBreakdown::new();
    add_population(&mut tree, position(WorldID::Jaeger, 0x7fff_ffff, Faction::NS, Loadout::Unknown), 65_000);
    add_population(&mut tree, position(WorldID::Soltech, 0, Faction::Unknown, Loadout::NSMAX), 535);
    let rows = carry_out(&store_pop(&tree));
    let read = get_current_as_hashmap_tree(&rows).unwrap();
    assert_eq!(leaves(&read.worlds), leaves(&tree));
    assert_eq!(leaves(&read.worlds), vec![(19, 0x7fff_ffff, 4, 0, 65_000), (40, 0, 0, 45, 535)]);
}

#[test]
fn of_every_world_the_last_revision_counts() {
    let rows = vec![
        row_of(3, 13, 20, 7),
        row_of(5, 13, 20, 2),
        row_of(4, 10, 6, 9),
        row_of(5, 13, 6, 1),
        row_of(2, 10, 6, 30),
        row_of(4, 13, 21, 100),
        row_of(9, 99, 6, 1),
    ];
    assert_eq!(
        get_current_rows(&rows),
        vec![row_of(5, 13, 20, 2), row_of(4, 10, 6, 9), row_of(5, 13, 6, 1), row_of(9, 99, 6, 1)]
    );
    assert_eq!(get_current_rows(&Vec::new()), Vec::new());
    let read = get_current_as_hashmap_tree(&rows).unwrap();
    assert_eq!(read.timestamp, STORED_AT + 3);
    assert_eq!(leaves(&read.worlds), vec![(10, 8, 1, 6, 9), (13, 8, 1, 6, 1), (13, 8, 1, 20, 2)]);
}

#[test]
fn without_rows_there_is_no_tree() {
    assert!(get_current_as_hashmap_tree(&Vec::new()).is_none());
    assert!(get_current_tree(&Vec::new()).is_none());
}

#[test]
fn rows_of_one_leaf_add_up() {
    let rows = vec![row(13, 8, 1, 20, 2), row(13, 8, 1, 20, 3), row(13, 8, 1, 6, 1)];
    let read = get_current_as_hashmap_tree(&rows).unwrap();
    assert_eq!(leaves(&read.worlds), vec![(13, 8, 1, 6, 1), (13, 8, 1, 20, 5)]);
}

#[test]
fn rows_that_name_nothing_known_are_passed_over() {
    let mut first = row(13, 8, 1, 20, 2);
    first.timestamp = 77;
    let rows = vec![
        first,
        row(14, 8, 1, 20, 1),
        row(13, 8, 5, 20, 1),
        row(13, 8, 1, 2, 1),
        row(13, 8, 1, 20, 0),
        row(65536 + 13, 8, 1, 20, 5),
        row(13, 8, 65536 + 1, 20, 5),
        row(13, 8, 1, 65536 + 20, 5),
        row(-13, 8, 1, 20, 5),
        row(13, 8, -1, 20, 5),
        row(13, 8, 1, -20, 5),
        row(13 - 65536, 8, 1, 20, 5),
    ];
    let read = get_current_as_hashmap_tree(&rows).unwrap();
    assert_eq!(read.timestamp, 77);
    assert_eq!(leaves(&read.worlds), vec![(13, 8, 1, 20, 2)]);

    let nothing = get_current_as_hashmap_tree(&vec![row(0, 0, 0, 0, 1)]).unwrap();
    assert!(nothing.worlds.is_empty());
}

#[test]
fn a_number_beyond_the_identifiers_names_no_world() {
    let rows = vec![row(65_549, 8, 1, 20, 5)];
    assert_eq!(rows[0].leaf(), None);
    let read = get_current_as_hashmap_tree(&rows).unwrap();
    assert_eq!(read.timestamp, STORED_AT);
    assert!(read.worlds.is_empty());
    let response = get_current_tree(&rows).unwrap();
    assert_eq!(response.timestamp, STORED_AT);
    assert!(response.worlds.is_empty());
}

#[test]
fn a_row_names_its_leaf() {
    assert_eq!(
        row(13, 8, 1, 20, 2).leaf(),
        Some((position(WorldID::Cobalt, 8, Faction::VS, Loadout::VSHeavyAssault), 2))
    );
    assert_eq!(
        row(13, -2, 1, 20, -1).leaf(),
        Some((position(WorldID::Cobalt, u32::MAX - 1, Faction::VS, Loadout::VSHeavyAssault), 0))
    );
    assert_eq!(
        row(13, 8, 1, 20, 70_000).leaf(),
        Some((position(WorldID::Cobalt, 8, Faction::VS, Loadout::VSHeavyAssault), 70_000))
    );
    assert_eq!(
        row(13, 8, 1, 20, i32::MAX).leaf(),
        Some((position(WorldID::Cobalt, 8, Faction::VS, Loadout::VSHeavyAssault), 2_147_483_647))
    );
    assert_eq!(row(2, 8, 1, 20, 2).leaf(), None);
    assert_eq!(row(13, 8, 7, 20, 2).leaf(), None);
    assert_eq!(row(13, 8, 1, 2, 2).leaf(), None);
    assert_eq!(row(65_549, 8, 1, 20, 2).leaf(), None);
    assert_eq!(row(13, 8, 65_537, 20, 2).leaf(), None);
    assert_eq!(row(13, 8, 1, 65_556, 2).leaf(), None);
    assert_eq!(row(i32::MIN, 8, 1, 20, 2).leaf(), None);
    assert_eq!(row(13, 8, i32::MAX, 20, 2).leaf(), None);
}

#[test]
fn rows_that_would_not_fit_their_leaf_are_passed_over() {
    let rows = vec![
        row(13, 8, 1, 20, 65_000),
        row(13, 8, 1, 20, 536),
        row(13, 8, 1, 20, 535),
        row(13, 8, 1, 20, 1),
        row(13, 8, 1, 6, 65_535),
        row(13, 2, 1, 6, 70_000),
        row(13, 2, 1, 6, 65_536),
        row(13, 2, 1, 6, 7),
        row(10, 2, 1, 6, -1),
        row(10, 2, 1, 6, 65_536 + 4),
    ];
    let read = get_current_as_hashmap_tree(&rows).unwrap();
    assert_eq!(
        leaves(&read.worlds),
        vec![(13, 2, 1, 6, 7), (13, 8, 1, 6, 65_535), (13, 8, 1, 20, 65_535)]
    );
}

#[test]
fn leaves_that_fit_are_read_back_whatever_the_tree_counts_in_all() {
    let mut tree = WorldBreakdown::new();
    add_population(&mut tree, position(WorldID::Cobalt, 8, Faction::VS, Loadout::VSHeavyAssault), 40_000);
    add_population(&mut tree, position(WorldID::Cobalt, 8, Faction::VS, Loadout::VSMedic), 40_000);
    add_population(&mut tree, position(WorldID::Connery, 2, Faction::NC, Loadout::NCMAX), 65_535);
    assert_eq!(
        amount_at(&tree, position(WorldID::Cobalt, 8, Faction::VS, Loadout::VSMedic)),
        40_000
    );
    let rows = carry_out(&store_pop(&tree));
    assert_eq!(rows.len(), 3);
    let read = get_current_as_hashmap_tree(&rows).unwrap();
    assert_eq!(read.worlds, tree);

    let mut reversed = rows.clone();
    reversed.reverse();
    let read = get_current_as_hashmap_tree(&reversed).unwrap();
    assert_eq!(leaves(&read.worlds), leaves(&tree));
    assert_eq!(
        leaves(&tree),
        vec![(1, 2, 2, 7, 65_535), (13, 8, 1, 18, 40_000), (13, 8, 1, 20, 40_000)]
    );
}

#[test]
fn every_world_that_fits_is_handed_out() {
    let rows = vec![row(13, 8, 1, 20, 40_000), row(1, 8, 1, 20, 40_000)];
    let response = get_current_tree(&rows).unwrap();
    assert_eq!(response.worlds.len(), 2);
    check_level(&response.worlds[0], ValidPopulationLevel::World(Some(WorldID::Cobalt)), 40_000, 1);
    check_level(&response.worlds[1], ValidPopulationLevel::World(Some(WorldID::Connery)), 40_000, 1);
    let zones = response.worlds[1].lower_levels.as_ref().unwrap();
    check_level(&zones[0], ValidPopulationLevel::Zone(Some(ZoneID(8))), 40_000, 1);
    let teams = zones[0].lower_levels.as_ref().unwrap();
    check_level(&teams[0], ValidPopulationLevel::Team(Some(Faction::VS)), 40_000, 1);
    let loadouts = teams[0].lower_levels.as_ref().unwrap();
    check_level(&loadouts[0], ValidPopulationLevel::Loadout(Some(Loadout::VSHeavyAssault)), 40_000, 0);

    let mut tree = WorldBreakdown::new();
    add_population(&mut tree, position(WorldID::Cobalt, 8, Faction::VS, Loadout::VSHeavyAssault), 40_000);
    add_population(&mut tree, position(WorldID::Connery, 8, Faction::VS, Loadout::VSHeavyAssault), 40_000);
    let worlds = build_tree(&tree);
    assert_eq!(worlds.len(), 2);
    assert_eq!(worlds[0].population, 40_000);
    assert_eq!(worlds[1].population, 40_000);
}

#[test]
fn a_world_that_counts_too_many_is_left_out() {
    let rows = vec![
        row(13, 8, 1, 20, 40_000),
        row(10, 2, 2, 6, 5),
        row(13, 8, 1, 18, 25_535),
        row(13, 2, 3, 13, 1),
        row(17, 2, 3, 13, 65_535),
    ];
    let read = get_current_as_hashmap_tree(&rows).unwrap();
    assert_eq!(
        leaves(&read.worlds),
        vec![
            (10, 2, 2, 6, 5),
            (13, 2, 3, 13, 1),
            (13, 8, 1, 18, 25_535),
            (13, 8, 1, 20, 40_000),
            (17, 2, 3, 13, 65_535)
        ]
    );
    let response = get_current_tree(&rows).unwrap();
    assert_eq!(response.worlds.len(), 2);
    check_level(&response.worlds[0], ValidPopulationLevel::World(Some(WorldID::Miller)), 5, 1);
    check_level(&response.worlds[1], ValidPopulationLevel::World(Some(WorldID::Emerald)), 65_535, 1);

    let response = get_current_tree(&rows[..3].to_vec()).unwrap();
    assert_eq!(response.worlds.len(), 2);
    check_level(&response.worlds[0], ValidPopulationLevel::World(Some(WorldID::Cobalt)), 65_535, 1);
    let zones = response.worlds[0].lower_levels.as_ref().unwrap();
    check_level(&zones[0], ValidPopulationLevel::Zone(Some(ZoneID(8))), 65_535, 1);
    let teams = zones[0].lower_levels.as_ref().unwrap();
    check_level(&teams[0], ValidPopulationLevel::Team(Some(Faction::VS)), 65_535, 2);
}

fn check_level(level: &GenericPopulationLevel, id: ValidPopulationLevel, population: u16, below: usize) {
    assert_eq!(level.level_id, id);
    assert!(level.full_level_data.is_none());
    assert_eq!(level.population, population);
    match &level.lower_levels {
        Some(lower) => assert_eq!(lower.len(), below),
        None => assert_eq!(below, 0),
    }
}

#[test]
fn every_node_shows_the_sum_of_what_is_below_it() {
    let tree = sample_tree();
    let worlds = build_tree(&tree);
    assert_eq!(worlds.len(), 2);
    check_level(&worlds[0], ValidPopulationLevel::World(Some(WorldID::Cobalt)), 23, 2);
    check_level(&worlds[1], ValidPopulationLevel::World(Some(WorldID::Miller)), 3, 1);
    let zones = worlds[0].lower_levels.as_ref().unwrap();
    check_level(&zones[0], ValidPopulationLevel::Zone(Some(ZoneID(8))), 9, 2);
    check_level(&zones[1], ValidPopulationLevel::Zone(Some(ZoneID(2))), 14, 1);
    let teams = zones[0].lower_levels.as_ref().unwrap();
    check_level(&teams[0], ValidPopulationLevel::Team(Some(Faction::VS)), 4, 2);
    check_level(&teams[1], ValidPopulationLevel::Team(Some(Faction::NC)), 5, 1);
    let loadouts = teams[0].lower_levels.as_ref().unwrap();
    check_level(&loadouts[0], ValidPopulationLevel::Loadout(Some(Loadout::VSHeavyAssault)), 3, 0);
    check_level(&loadouts[1], ValidPopulationLevel::Loadout(Some(Loadout::NCHeavyAssault)), 1, 0);
    assert!(loadouts[0].lower_levels.is_none());
    assert!(build_tree(&WorldBreakdown::new()).is_empty());
}

#[test]
fn a_stored_population_is_handed_out_under_its_time() {
    let response =
        get_pop_worlds_from_world_breakdown(PopBreakdown { timestamp: 99, worlds: sample_tree() });
    assert_eq!(response.timestamp, 99);
    assert_eq!(response.worlds.len(), 2);
    assert_eq!(response.worlds[0].population, 23);

    let rows = carry_out(&store_pop(&sample_tree()));
    let response = get_current_tree(&rows).unwrap();
    assert_eq!(response.timestamp, STORED_AT);
    let mut populations: Vec<u16> = response.worlds.iter().map(|w| w.population).collect();
    populations.sort();
    assert_eq!(populations, vec![3, 23]);
}

#[test]
fn levels_follow_one_another() {
    assert_eq!(
        ValidPopulationLevel::World(Some(WorldID::Cobalt)).get_next_level(),
        Some(ValidPopulationLevel::Zone(None))
    );
    assert_eq!(
        ValidPopulationLevel::Zone(None).get_next_level(),
        Some(ValidPopulationLevel::Team(None))
    );
    assert_eq!(
        ValidPopulationLevel::Team(Some(Faction::NC)).get_next_level(),
        Some(ValidPopulationLevel::Loadout(None))
    );
    assert_eq!(ValidPopulationLevel::Loadout(None).get_next_level(), None);
    assert_eq!(ValidPopulationLevel::Invalid.get_next_level(), None);
}

#[test]
fn a_level_selects_its_rows() {
    let r = row(13, 8, 1, 20, 2);
    assert!(ValidPopulationLevel::World(Some(WorldID::Cobalt)).get_db_filter(&r));
    assert!(!ValidPopulationLevel::World(Some(WorldID::Miller)).get_db_filter(&r));
    assert!(ValidPopulationLevel::Zone(Some(ZoneID(8))).get_db_filter(&r));
    assert!(!ValidPopulationLevel::Zone(Some(ZoneID(2))).get_db_filter(&r));
    assert!(ValidPopulationLevel::Team(Some(Faction::VS)).get_db_filter(&r));
    assert!(!ValidPopulationLevel::Team(Some(Faction::TR)).get_db_filter(&r));
    assert!(ValidPopulationLevel::Loadout(Some(Loadout::VSHeavyAssault)).get_db_filter(&r));
    assert!(!ValidPopulationLevel::Loadout(Some(Loadout::VSMAX)).get_db_filter(&r));
    assert!(ValidPopulationLevel::World(None).get_db_filter(&r));
    assert!(ValidPopulationLevel::Loadout(None).get_db_filter(&r));
    assert!(!ValidPopulationLevel::Invalid.get_db_filter(&r));
    assert!(ValidPopulationLevel::Zone(Some(ZoneID(u32::MAX))).get_db_filter(&row(13, -1, 1, 20, 2)));
}
