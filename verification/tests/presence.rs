use niumside_poptracker::active_players::{
    checked_loadout_breakdown, clean, loadout_breakdown, snapshot, ActivePlayer, ActivePlayerHashmap, CLEAN_INTERVAL,
    IDLE_THRESHOLD, PROCESS_INTERVAL,
};
use niumside_poptracker::census::constants::{Faction, Loadout, WorldID, ZoneID};
use niumside_poptracker::census::event::{Event, GainExperience, PlayerLogin};
use niumside_poptracker::controllers::population::{
    LoadoutPopulation, TeamPopulation, WorldPopulation, ZonePopulation,
};
use niumside_poptracker::event_handlers::gain_experience::handle;
use niumside_poptracker::event_handlers::receive_events;

const T0: i64 = 1_728_117_291;

fn pulse(character_id: u64, zone: u32, loadout: Loadout, team: Faction, at: i64) -> GainExperience {
    GainExperience {
        character_id,
        experience_id: 1,
        loadout_id: loadout,
        other_id: 0,
        timestamp: at,
        world_id: WorldID::Cobalt,
        zone_id: ZoneID(zone),
        amount: 1,
        team_id: team,
    }
}

fn amount_at(
    tree: &[WorldPopulation],
    world: WorldID,
    zone: ZoneID,
    team: Faction,
    loadout: Loadout,
) -> u32 {
    let mut sum = 0;
    for w in tree.iter().filter(|w| w.world_id == world) {
        for z in w.zones.iter().filter(|z| z.zone_id == zone) {
            for t in z.teams.iter().filter(|t| t.team_id == team) {
                for l in t.loadouts.iter().filter(|l| l.loadout_id == loadout) {
                    sum += u32::from(l.amount);
                }
            }
        }
    }
    sum
}

fn total(tree: &[WorldPopulation]) -> u32 {
    tree.iter()
        .flat_map(|w: &WorldPopulation| w.zones.iter())
        .flat_map(|z: &ZonePopulation| z.teams.iter())
        .flat_map(|t: &TeamPopulation| t.loadouts.iter())
        .map(|l: &LoadoutPopulation| u32::from(l.amount))
        .sum()
}

#[test]
fn the_times_of_the_store() {
    assert_eq!(IDLE_THRESHOLD, 180);
    assert_eq!(CLEAN_INTERVAL, 30);
    assert_eq!(PROCESS_INTERVAL, 30);
}

#[test]
fn a_record_is_made_of_an_event() {
    let event = pulse(1001, 8, Loadout::VSHeavyAssault, Faction::VS, T0);
    assert_eq!(
        ActivePlayer::from(event),
        ActivePlayer {
            world: WorldID::Cobalt,
            zone: ZoneID(8),
            loadout: Loadout::VSHeavyAssault,
            team_id: Faction::VS,
            last_change: T0,
        }
    );
}

#[test]
fn two_upserts_for_one_character_leave_the_second() {
    let mut store = ActivePlayerHashmap::new();
    handle(&pulse(1001, 8, Loadout::VSHeavyAssault, Faction::VS, T0), &mut store);
    assert_eq!(store.len(), 1);
    let second = pulse(1001, 2, Loadout::NSMedic, Faction::TR, T0 - 60);
    handle(&second, &mut store);
    assert_eq!(store.len(), 1);
    assert_eq!(store[&1001], ActivePlayer::from(second));
    handle(&second, &mut store);
    assert_eq!(store.len(), 1);
    assert_eq!(store[&1001], ActivePlayer::from(second));
}

#[test]
fn only_an_activity_pulse_changes_the_store() {
    let mut store = ActivePlayerHashmap::new();
    assert!(receive_events(
        Event::GainExperience(pulse(1001, 8, Loadout::VSHeavyAssault, Faction::VS, T0)),
        &mut store
    ));
    let before = store.clone();
    let others = vec![
        Event::PlayerLogin(PlayerLogin {
            character_id: 1001,
            timestamp: T0 + 1,
            world_id: WorldID::Miller,
        }),
        Event::ItemAdded,
        Event::AchievementEarned,
        Event::SkillAdded,
        Event::BattleRankUp,
        Event::Unhandled,
    ];
    for event in others {
        assert!(!receive_events(event, &mut store));
        assert_eq!(store, before);
    }
}

#[test]
fn a_sweep_takes_out_what_is_older_than_the_threshold() {
    let mut store = ActivePlayerHashmap::new();
    let now = T0 + 1000;
    handle(&pulse(1, 8, Loadout::VSMedic, Faction::VS, now - 181), &mut store);
    handle(&pulse(2, 8, Loadout::VSMedic, Faction::VS, now - 180), &mut store);
    handle(&pulse(3, 8, Loadout::VSMedic, Faction::VS, now - 179), &mut store);
    handle(&pulse(4, 8, Loadout::VSMedic, Faction::VS, now), &mut store);
    handle(&pulse(5, 8, Loadout::VSMedic, Faction::VS, now + 500), &mut store);
    handle(&pulse(6, 8, Loadout::VSMedic, Faction::VS, i64::MIN), &mut store);
    let removed = clean(&mut store, IDLE_THRESHOLD, now);
    assert_eq!(removed, 2);
    assert!(!store.contains_key(&1));
    assert!(!store.contains_key(&6));
    assert_eq!(store[&2].last_change, now - 180);
    assert!(store.contains_key(&3));
    assert!(store.contains_key(&4));
    assert!(store.contains_key(&5));
    assert_eq!(store.len(), 4);
    assert_eq!(clean(&mut store, IDLE_THRESHOLD, now), 0);
    assert_eq!(store.len(), 4);
}

#[test]
fn a_sweep_is_safe_at_the_ends_of_time() {
    let mut store = ActivePlayerHashmap::new();
    handle(&pulse(1, 8, Loadout::VSMedic, Faction::VS, i64::MIN), &mut store);
    handle(&pulse(2, 8, Loadout::VSMedic, Faction::VS, i64::MAX), &mut store);
    assert_eq!(clean(&mut store, i64::MAX, i64::MAX), 1);
    assert!(store.contains_key(&2));
    assert_eq!(clean(&mut store, i64::MIN, i64::MIN), 0);
    assert_eq!(clean(&mut store, -1, i64::MAX), 1);
    assert!(store.is_empty());
}

#[test]
fn a_snapshot_lists_every_record_once() {
    let mut store = ActivePlayerHashmap::new();
    for id in 0..50u64 {
        handle(&pulse(id, 8, Loadout::VSMedic, Faction::VS, T0 + id as i64), &mut store);
    }
    let mut records = snapshot(&store);
    records.sort_by_key(|r| r.0);
    assert_eq!(records.len(), 50);
    for (i, (id, player)) in records.iter().enumerate() {
        assert_eq!(*id, i as u64);
        assert_eq!(player.last_change, T0 + i as i64);
    }
    assert!(snapshot(&ActivePlayerHashmap::new()).is_empty());
}

#[test]
fn the_population_is_counted_leaf_by_leaf() {
    let mut store = ActivePlayerHashmap::new();
    handle(&pulse(1001, 8, Loadout::VSHeavyAssault, Faction::VS, T0), &mut store);
    handle(&pulse(1002, 8, Loadout::NCHeavyAssault, Faction::VS, T0), &mut store);
    let tree = loadout_breakdown(&store);
    assert_eq!(tree.len(), 1);
    assert_eq!(tree[0].world_id, WorldID::Cobalt);
    assert_eq!(tree[0].zones.len(), 1);
    assert_eq!(tree[0].zones[0].zone_id, ZoneID(8));
    assert_eq!(tree[0].zones[0].teams.len(), 1);
    assert_eq!(tree[0].zones[0].teams[0].team_id, Faction::VS);
    assert_eq!(tree[0].zones[0].teams[0].loadouts.len(), 2);
    assert_eq!(
        amount_at(&tree, WorldID::Cobalt, ZoneID(8), Faction::VS, Loadout::VSHeavyAssault),
        1
    );
    assert_eq!(
        amount_at(&tree, WorldID::Cobalt, ZoneID(8), Faction::VS, Loadout::NCHeavyAssault),
        1
    );
    assert_eq!(total(&tree), 2);

    let now = T0 + IDLE_THRESHOLD + 1;
    assert_eq!(clean(&mut store, IDLE_THRESHOLD, now), 2);
    assert!(snapshot(&store).is_empty());
    assert!(loadout_breakdown(&store).is_empty());
}

#[test]
fn every_character_counts_once() {
    let mut store = ActivePlayerHashmap::new();
    let loadouts = [Loadout::VSMedic, Loadout::NCMedic, Loadout::TRMedic, Loadout::NSMedic];
    let teams = [Faction::VS, Faction::NC, Faction::TR];
    for id in 0..600u64 {
        let mut event = pulse(
            id,
            (id % 5) as u32 * 2,
            loadouts[(id % 4) as usize],
            teams[(id % 3) as usize],
            T0,
        );
        if id % 7 == 0 {
            event.world_id = WorldID::Miller;
        }
        handle(&event, &mut store);
    }
    let tree = loadout_breakdown(&store);
    assert_eq!(total(&tree), 600);
    assert_eq!(tree.len(), 2);
    let mut per_leaf = std::collections::HashMap::new();
    for player in store.values() {
        *per_leaf.entry((player.world, player.zone, player.team_id, player.loadout)).or_insert(0u32) += 1;
    }
    for ((world, zone, team, loadout), count) in per_leaf {
        assert_eq!(amount_at(&tree, world, zone, team, loadout), count);
    }
    assert_eq!(
        amount_at(&tree, WorldID::Jaeger, ZoneID(0), Faction::VS, Loadout::VSMedic),
        0
    );
    for world in &tree {
        assert!(!world.zones.is_empty());
        for zone in &world.zones {
            assert!(!zone.teams.is_empty());
            for team in &zone.teams {
                assert!(!team.loadouts.is_empty());
                assert!(team.loadouts.iter().all(|l| l.amount > 0));
            }
        }
    }
}

#[test]
fn more_characters_than_one_leaf_can_hold_are_counted_when_spread() {
    let mut store = ActivePlayerHashmap::new();
    for id in 0..70_000u64 {
        handle(&pulse(id, (id % 100) as u32, Loadout::VSMedic, Faction::VS, T0), &mut store);
    }
    let tree = loadout_breakdown(&store);
    assert_eq!(total(&tree), 70_000);
    assert_eq!(amount_at(&tree, WorldID::Cobalt, ZoneID(7), Faction::VS, Loadout::VSMedic), 700);
}

#[test]
fn a_leaf_may_be_full() {
    let mut store = ActivePlayerHashmap::new();
    for id in 0..65_535u64 {
        handle(&pulse(id, 2, Loadout::TRMAX, Faction::TR, T0), &mut store);
    }
    let tree = loadout_breakdown(&store);
    assert_eq!(tree[0].zones[0].teams[0].loadouts[0].amount, u16::MAX);
    assert_eq!(total(&tree), 65_535);
    assert_eq!(leaves_of(&checked_loadout_breakdown(&store).unwrap()), leaves_of(&tree));

    handle(&pulse(70_000, 4, Loadout::TRMAX, Faction::TR, T0), &mut store);
    assert_eq!(total(&checked_loadout_breakdown(&store).unwrap()), 65_536);
    handle(&pulse(70_001, 2, Loadout::TRMAX, Faction::TR, T0), &mut store);
    assert!(checked_loadout_breakdown(&store).is_none());
}

fn leaves_of(tree: &[WorldPopulation]) -> Vec<(u16, u32, u16, u16, u16)> {
    let mut leaves = Vec::new();
    for world in tree {
        for zone in &world.zones {
            for team in &zone.teams {
                for loadout in &team.loadouts {
                    leaves.push((
                        world.world_id.id(),
                        zone.zone_id.0,
                        team.team_id.id(),
                        loadout.loadout_id.id(),
                        loadout.amount,
                    ));
                }
            }
        }
    }
    leaves.sort();
    leaves
}

#[test]
fn an_empty_store_counts_as_an_empty_tree() {
    let store = ActivePlayerHashmap::new();
    assert!(loadout_breakdown(&store).is_empty());
    assert_eq!(checked_loadout_breakdown(&store), Some(Vec::new()));
}
