//! Figures for the messages that show a world's population.
use crate::census::constants::Faction;
use crate::controllers::population::{
    loadout_size, loadouts_total, LoadoutBreakdown, PopulationAmount, TeamPopulation,
    WorldPopulation, ZonePopulation,
};
use crate::utils::{
    lemma_sum_by_member, lemma_sum_by_prefix, lemma_sum_by_push, lemma_sum_by_single,
    lemma_sum_by_update, sum_by,
};
use vstd::prelude::*;

verus! {

/// How many characters fight for one faction.
#[derive(Clone, Copy, Debug, PartialEq, Eq, Structural)]
pub struct TotalPopulation {
    pub faction: Faction,
    pub population: PopulationAmount,
}

/// What a team counts towards `faction`: all of it, if it fights for it.
pub open spec fn faction_weight(faction: Faction) -> spec_fn(TeamPopulation) -> nat {
    |t: TeamPopulation|
        if t.team_id == faction {
            loadouts_total(t.loadouts@)
        } else {
            0
        }
}

/// How many characters of a zone fight for `faction`.
pub open spec fn zone_faction_weight(faction: Faction) -> spec_fn(ZonePopulation) -> nat {
    |z: ZonePopulation| sum_by(z.teams@, faction_weight(faction))
}

/// How many characters of a world fight for `faction`.
pub open spec fn faction_population(zones: Seq<ZonePopulation>, faction: Faction) -> nat {
    sum_by(zones, zone_faction_weight(faction))
}

/// What an entry of the totals counts towards `faction`.
pub open spec fn total_weight(faction: Faction) -> spec_fn(TotalPopulation) -> nat {
    |t: TotalPopulation|
        if t.faction == faction {
            t.population as nat
        } else {
            0
        }
}

/// What the totals say of `faction`; 0 where they do not list it.
pub open spec fn totals_of(totals: Seq<TotalPopulation>, faction: Faction) -> nat {
    sum_by(totals, total_weight(faction))
}

/// Whether the totals list `faction`.
pub open spec fn lists(totals: Seq<TotalPopulation>, faction: Faction) -> bool {
    exists|i: int| 0 <= i < totals.len() && (#[trigger] totals[i]).faction == faction
}

/// Whether a team of one of the zones fights for `faction`.
pub open spec fn fights(zones: Seq<ZonePopulation>, faction: Faction) -> bool {
    exists|i: int, j: int|
        0 <= i < zones.len() && 0 <= j < zones[i].teams@.len() && (
        #[trigger] zones[i].teams@[j]).team_id == faction
}

/// Whether one of the first `upto` teams fights for `faction`.
pub open spec fn among(teams: Seq<TeamPopulation>, upto: int, faction: Faction) -> bool {
    exists|j: int| 0 <= j < upto && j < teams.len() && (#[trigger] teams[j]).team_id == faction
}

/// No faction is listed twice.
pub open spec fn totals_wf(totals: Seq<TotalPopulation>) -> bool {
    forall|i: int, j: int|
        0 <= i < j < totals.len() ==> (#[trigger] totals[i]).faction != (
        #[trigger] totals[j]).faction
}

/// The factions that the totals list, in their order.
pub open spec fn factions_of(totals: Seq<TotalPopulation>) -> Seq<Faction> {
    Seq::new(totals.len(), |i: int| totals[i].faction)
}

/// The factions met when `teams` are read in order after the factions
/// `before` were met: each faction stands where its first team stood.
pub open spec fn teams_met(before: Seq<Faction>, teams: Seq<TeamPopulation>) -> Seq<Faction>
    decreases teams.len(),
{
    if teams.len() == 0 {
        before
    } else {
        let met = teams_met(before, teams.drop_last());
        if met.contains(teams.last().team_id) {
            met
        } else {
            met.push(teams.last().team_id)
        }
    }
}

/// The factions of a world in the order of their first team, the zones read
/// in order and the teams of each zone in order.
pub open spec fn factions_met(zones: Seq<ZonePopulation>) -> Seq<Faction>
    decreases zones.len(),
{
    if zones.len() == 0 {
        Seq::empty()
    } else {
        teams_met(factions_met(zones.drop_last()), zones.last().teams@)
    }
}

fn find_total(totals: &Vec<TotalPopulation>, faction: Faction) -> (r: Option<usize>)
    ensures
        match r {
            Some(i) => i < totals.len() && totals[i as int].faction == faction,
            None => forall|j: int|
                0 <= j < totals.len() ==> (#[trigger] totals[j]).faction != faction,
        },
{
    let mut i: usize = 0;
    while i < totals.len()
        invariant
            i <= totals.len(),
            forall|j: int| 0 <= j < i ==> (#[trigger] totals[j]).faction != faction,
        decreases totals.len() - i,
    {
        if totals[i].faction == faction {
            return Some(i);
        }
        i = i + 1;
    }
    None
}

/// The head count of a team: the sum of its loadouts.
pub fn team_population(loadouts: &LoadoutBreakdown) -> (population: PopulationAmount)
    requires
        loadouts_total(loadouts@) <= PopulationAmount::MAX,
    ensures
        population == loadouts_total(loadouts@),
{
    let mut population: PopulationAmount = 0;
    let mut i: usize = 0;
    proof {
        assert(loadouts@.take(0) =~= Seq::empty());
    }
    while i < loadouts.len()
        invariant
            i <= loadouts.len(),
            loadouts_total(loadouts@) <= PopulationAmount::MAX,
            population == loadouts_total(loadouts@.take(i as int)),
        decreases loadouts.len() - i,
    {
        proof {
            assert(loadouts@.take(i + 1) =~= loadouts@.take(i as int).push(loadouts@[i as int]));
            lemma_sum_by_push(loadouts@.take(i as int), loadouts@[i as int], loadout_size());
            lemma_sum_by_prefix(loadouts@, i + 1, loadout_size());
        }
        population = population + loadouts[i].amount;
        i = i + 1;
    }
    proof {
        assert(loadouts@.take(i as int) =~= loadouts@);
    }
    population
}

/// Adds a team's head count to the totals, under the team's faction.
fn add_team(totals: &mut Vec<TotalPopulation>, faction: Faction, population: PopulationAmount)
    requires
        totals_wf(old(totals)@),
        totals_of(old(totals)@, faction) + population <= PopulationAmount::MAX,
    ensures
        totals_wf(final(totals)@),
        forall|f: Faction| #[trigger]
            totals_of(final(totals)@, f) == totals_of(old(totals)@, f) + (if f == faction {
                population as nat
            } else {
                0
            }),
        forall|f: Faction| #[trigger]
            lists(final(totals)@, f) <==> lists(old(totals)@, f) || f == faction,
        factions_of(final(totals)@) == if factions_of(old(totals)@).contains(faction) {
            factions_of(old(totals)@)
        } else {
            factions_of(old(totals)@).push(faction)
        },
{
    let ghost before = totals@;
    match find_total(totals, faction) {
        Some(index) => {
            proof {
                assert forall|j: int| 0 <= j < before.len() && j != index implies total_weight(
                    faction,
                )(#[trigger] before[j]) == 0 by {
                    assert(before[j].faction != before[index as int].faction);
                }
                lemma_sum_by_single(before, index as int, total_weight(faction));
            }
            totals[index].population = totals[index].population + population;
            proof {
                let entry = totals@[index as int];
                assert(totals@ =~= before.update(index as int, entry));
                assert(factions_of(before)[index as int] == faction);
                assert(factions_of(totals@) =~= factions_of(before));
                assert forall|f: Faction| #[trigger]
                    totals_of(totals@, f) == totals_of(before, f) + (if f == faction {
                        population as nat
                    } else {
                        0
                    }) by {
                    lemma_sum_by_update(before, index as int, entry, total_weight(f));
                }
                assert forall|f: Faction| #[trigger]
                    lists(totals@, f) <==> lists(before, f) || f == faction by {
                    if lists(before, f) {
                        let i = choose|i: int|
                            0 <= i < before.len() && (#[trigger] before[i]).faction == f;
                        assert(totals@[i].faction == f);
                    }
                    if lists(totals@, f) {
                        let i = choose|i: int|
                            0 <= i < totals@.len() && (#[trigger] totals@[i]).faction == f;
                        assert(before[i].faction == f);
                    }
                    if f == faction {
                        assert(totals@[index as int].faction == f);
                    }
                }
            }
        },
        None => {
            let entry = TotalPopulation { faction, population };
            totals.push(entry);
            proof {
                assert(totals@ =~= before.push(entry));
                if factions_of(before).contains(faction) {
                    let i = choose|i: int|
                        0 <= i < factions_of(before).len() && factions_of(before)[i] == faction;
                    assert(before[i].faction == faction);
                }
                assert(factions_of(totals@) =~= factions_of(before).push(faction));
                assert forall|f: Faction| #[trigger]
                    totals_of(totals@, f) == totals_of(before, f) + (if f == faction {
                        population as nat
                    } else {
                        0
                    }) by {
                    lemma_sum_by_push(before, entry, total_weight(f));
                }
                assert forall|f: Faction| #[trigger]
                    lists(totals@, f) <==> lists(before, f) || f == faction by {
                    if lists(before, f) {
                        let i = choose|i: int|
                            0 <= i < before.len() && (#[trigger] before[i]).faction == f;
                        assert(totals@[i].faction == f);
                    }
                    if lists(totals@, f) {
                        let i = choose|i: int|
                            0 <= i < totals@.len() && (#[trigger] totals@[i]).faction == f;
                        if i < before.len() {
                            assert(before[i].faction == f);
                        }
                    }
                    if f == faction {
                        assert(totals@[before.len() as int].faction == f);
                    }
                }
            }
        },
    }
}

/// The head count of a world, faction by faction: what each faction's teams
/// count over all zones. A faction is listed once, and only if a team fights
/// for it; the factions stand in the order of their first team. What each
/// faction counts has to fit an amount; the factions together may count
/// more.
pub fn get_total_population(world: &WorldPopulation) -> (total_population: Vec<TotalPopulation>)
    requires
        forall|faction: Faction| #[trigger]
            faction_population(world.zones@, faction) <= PopulationAmount::MAX,
    ensures
        factions_of(total_population@) == factions_met(world.zones@),
        totals_wf(total_population@),
        forall|faction: Faction| #[trigger]
            totals_of(total_population@, faction) == faction_population(world.zones@, faction),
        forall|faction: Faction| #[trigger]
            lists(total_population@, faction) <==> fights(world.zones@, faction),
{
    let ghost zones = world.zones@;
    let mut total_population: Vec<TotalPopulation> = Vec::new();
    let mut zi: usize = 0;
    proof {
        assert(zones.take(0) =~= Seq::empty());
        assert forall|faction: Faction| #[trigger]
            totals_of(total_population@, faction) == faction_population(
                zones.take(0),
                faction,
            ) by {}
        assert(factions_of(total_population@) =~= factions_met(zones.take(0)));
    }
    while zi < world.zones.len()
        invariant
            zi <= world.zones.len(),
            zones == world.zones@,
            forall|faction: Faction| #[trigger]
                faction_population(zones, faction) <= PopulationAmount::MAX,
            factions_of(total_population@) == factions_met(zones.take(zi as int)),
            totals_wf(total_population@),
            forall|faction: Faction| #[trigger]
                totals_of(total_population@, faction) == faction_population(
                    zones.take(zi as int),
                    faction,
                ),
            forall|faction: Faction| #[trigger]
                lists(total_population@, faction) <==> fights(zones.take(zi as int), faction),
        decreases world.zones.len() - zi,
    {
        let zone = &world.zones[zi];
        let ghost teams = zone.teams@;
        let ghost done = zones.take(zi as int);
        let ghost at_start = total_population@;
        let mut ti: usize = 0;
        proof {
            assert(teams.take(0) =~= Seq::empty());
            assert(zones.take(zi + 1) =~= done.push(zones[zi as int]));
            assert(zones.take(zi + 1).drop_last() =~= done);
        }
        while ti < zone.teams.len()
            invariant
                ti <= zone.teams.len(),
                zi < zones.len(),
                zones == world.zones@,
                teams == zone.teams@,
                zones[zi as int].teams@ == teams,
                done == zones.take(zi as int),
                zones.take(zi + 1) == done.push(zones[zi as int]),
                forall|faction: Faction| #[trigger]
                    faction_population(zones, faction) <= PopulationAmount::MAX,
                factions_of(total_population@) == teams_met(
                    factions_met(done),
                    teams.take(ti as int),
                ),
                totals_wf(total_population@),
                forall|faction: Faction| #[trigger]
                    totals_of(total_population@, faction) == faction_population(done, faction)
                        + sum_by(teams.take(ti as int), faction_weight(faction)),
                forall|faction: Faction| #[trigger]
                    lists(total_population@, faction) <==> fights(done, faction) || among(
                        teams,
                        ti as int,
                        faction,
                    ),
            decreases zone.teams.len() - ti,
        {
            let team = &zone.teams[ti];
            let ghost so_far = total_population@;
            proof {
                let faction = team.team_id;
                let seen = teams.take(ti as int);
                assert(teams.take(ti + 1) =~= seen.push(teams[ti as int]));
                assert(teams.take(ti + 1).drop_last() =~= seen);
                lemma_sum_by_push(seen, teams[ti as int], faction_weight(faction));
                lemma_sum_by_prefix(teams, ti + 1, faction_weight(faction));
                lemma_sum_by_push(done, zones[zi as int], zone_faction_weight(faction));
                lemma_sum_by_prefix(zones, zi + 1, zone_faction_weight(faction));
                lemma_sum_by_member(teams, ti as int, faction_weight(faction));
                lemma_sum_by_member(zones, zi as int, zone_faction_weight(faction));
                assert(faction_population(zones, faction) <= PopulationAmount::MAX);
            }
            let population = team_population(&team.loadouts);
            add_team(&mut total_population, team.team_id, population);
            proof {
                let seen = teams.take(ti as int);
                assert forall|faction: Faction| #[trigger]
                    totals_of(total_population@, faction) == faction_population(done, faction)
                        + sum_by(teams.take(ti + 1), faction_weight(faction)) by {
                    lemma_sum_by_push(seen, teams[ti as int], faction_weight(faction));
                    assert(totals_of(so_far, faction) == faction_population(done, faction)
                        + sum_by(seen, faction_weight(faction)));
                }
                assert forall|faction: Faction| #[trigger]
                    lists(total_population@, faction) <==> fights(done, faction) || among(
                        teams,
                        ti + 1,
                        faction,
                    ) by {
                    assert(lists(so_far, faction) <==> fights(done, faction) || among(
                        teams,
                        ti as int,
                        faction,
                    ));
                    if faction == team.team_id {
                        assert(teams[ti as int].team_id == faction);
                    }
                    if among(teams, ti as int, faction) {
                        let j = choose|j: int|
                            0 <= j < ti && j < teams.len() && (#[trigger] teams[j]).team_id
                                == faction;
                        assert(teams[j].team_id == faction);
                    }
                    if among(teams, ti + 1, faction) {
                        let j = choose|j: int|
                            0 <= j < ti + 1 && j < teams.len() && (#[trigger] teams[j]).team_id
                                == faction;
                        if j < ti {
                            assert(teams[j].team_id == faction);
                        }
                    }
                }
            }
            ti = ti + 1;
        }
        proof {
            assert(teams.take(ti as int) =~= teams);
            assert forall|faction: Faction| #[trigger]
                totals_of(total_population@, faction) == faction_population(
                    zones.take(zi + 1),
                    faction,
                ) by {
                lemma_sum_by_push(done, zones[zi as int], zone_faction_weight(faction));
            }
            assert forall|faction: Faction| #[trigger]
                lists(total_population@, faction) <==> fights(zones.take(zi + 1), faction) by {
                let next = zones.take(zi + 1);
                if fights(next, faction) {
                    let (i, j) = choose|i: int, j: int|
                        0 <= i < next.len() && 0 <= j < next[i].teams@.len() && (
                        #[trigger] next[i].teams@[j]).team_id == faction;
                    if i < zi {
                        assert(done[i] == next[i]);
                        assert(done[i].teams@[j].team_id == faction);
                    } else {
                        assert(teams[j].team_id == faction);
                    }
                }
                if fights(done, faction) {
                    let (i, j) = choose|i: int, j: int|
                        0 <= i < done.len() && 0 <= j < done[i].teams@.len() && (
                        #[trigger] done[i].teams@[j]).team_id == faction;
                    assert(next[i] == done[i]);
                    assert(next[i].teams@[j].team_id == faction);
                }
                if among(teams, ti as int, faction) {
                    let j = choose|j: int|
                        0 <= j < ti && j < teams.len() && (#[trigger] teams[j]).team_id == faction;
                    assert(next[zi as int].teams@[j].team_id == faction);
                }
            }
        }
        zi = zi + 1;
    }
    proof {
        assert(zones.take(zi as int) =~= zones);
    }
    total_population
}

} // verus!
