//! The population tree: for every world, zone, team and loadout, how many
//! characters are there.
//!
//! A tree is a list of worlds, each with its zones, each zone with its teams,
//! each team with its loadouts and their head counts. What a tree says is
//! its amount at every position; the order of the entries says nothing.
use crate::census::constants::{Faction, Loadout, TeamID, WorldID, ZoneID};
use crate::census::event::Timestamp;
use crate::controllers::zone::Zone;
use crate::utils::{
    lemma_sum_by_none, lemma_sum_by_positive, lemma_sum_by_prefix, lemma_sum_by_push,
    lemma_sum_by_single, lemma_sum_by_update, sum_by,
};
use vstd::prelude::*;

verus! {

pub type PopulationAmount = u16;

/// A leaf's place in the tree.
#[derive(Clone, Copy, Debug, PartialEq, Eq, Structural)]
pub struct TreePosition {
    pub world: WorldID,
    pub zone: ZoneID,
    pub team: TeamID,
    pub loadout: Loadout,
}

/// How many characters of one team play one loadout.
#[derive(Clone, Copy, Debug, PartialEq, Eq, Structural)]
pub struct LoadoutPopulation {
    pub loadout_id: Loadout,
    pub amount: PopulationAmount,
}

/// One team in a zone, with its loadouts.
#[derive(Clone, Debug, PartialEq, Eq)]
pub struct TeamPopulation {
    pub team_id: TeamID,
    pub loadouts: LoadoutBreakdown,
}

/// One zone of a world, with its teams.
#[derive(Clone, Debug, PartialEq, Eq)]
pub struct ZonePopulation {
    pub zone_id: ZoneID,
    pub teams: TeamBreakdown,
}

/// One world, with its zones.
#[derive(Clone, Debug, PartialEq, Eq)]
pub struct WorldPopulation {
    pub world_id: WorldID,
    pub zones: ZoneBreakdown,
}

pub type LoadoutBreakdown = Vec<LoadoutPopulation>;

pub type TeamBreakdown = Vec<TeamPopulation>;

pub type ZoneBreakdown = Vec<ZonePopulation>;

pub type WorldBreakdown = Vec<WorldPopulation>;

/// What an entry counts towards the loadout `loadout`.
pub open spec fn loadout_weight(loadout: Loadout) -> spec_fn(LoadoutPopulation) -> nat {
    |e: LoadoutPopulation|
        if e.loadout_id == loadout {
            e.amount as nat
        } else {
            0
        }
}

/// What an entry counts towards the whole.
pub open spec fn loadout_size() -> spec_fn(LoadoutPopulation) -> nat {
    |e: LoadoutPopulation| e.amount as nat
}

/// The head count of `loadout` in a team's list.
pub open spec fn loadouts_amount(s: Seq<LoadoutPopulation>, loadout: Loadout) -> nat {
    sum_by(s, loadout_weight(loadout))
}

/// The head count of a team's whole list.
pub open spec fn loadouts_total(s: Seq<LoadoutPopulation>) -> nat {
    sum_by(s, loadout_size())
}

pub open spec fn team_weight(team: TeamID, loadout: Loadout) -> spec_fn(TeamPopulation) -> nat {
    |t: TeamPopulation|
        if t.team_id == team {
            loadouts_amount(t.loadouts@, loadout)
        } else {
            0
        }
}

pub open spec fn team_size() -> spec_fn(TeamPopulation) -> nat {
    |t: TeamPopulation| loadouts_total(t.loadouts@)
}

/// The head count of `loadout` in `team`, in a zone's list.
pub open spec fn teams_amount(s: Seq<TeamPopulation>, team: TeamID, loadout: Loadout) -> nat {
    sum_by(s, team_weight(team, loadout))
}

/// The head count of a zone's whole list.
pub open spec fn teams_total(s: Seq<TeamPopulation>) -> nat {
    sum_by(s, team_size())
}

pub open spec fn zone_weight(zone: ZoneID, team: TeamID, loadout: Loadout) -> spec_fn(
    ZonePopulation,
) -> nat {
    |z: ZonePopulation|
        if z.zone_id == zone {
            teams_amount(z.teams@, team, loadout)
        } else {
            0
        }
}

pub open spec fn zone_size() -> spec_fn(ZonePopulation) -> nat {
    |z: ZonePopulation| teams_total(z.teams@)
}

/// The head count of `loadout` in `team` in `zone`, in a world's list.
pub open spec fn zones_amount(
    s: Seq<ZonePopulation>,
    zone: ZoneID,
    team: TeamID,
    loadout: Loadout,
) -> nat {
    sum_by(s, zone_weight(zone, team, loadout))
}

/// The head count of a world's whole list.
pub open spec fn zones_total(s: Seq<ZonePopulation>) -> nat {
    sum_by(s, zone_size())
}

pub open spec fn world_weight(position: TreePosition) -> spec_fn(WorldPopulation) -> nat {
    |w: WorldPopulation|
        if w.world_id == position.world {
            zones_amount(w.zones@, position.zone, position.team, position.loadout)
        } else {
            0
        }
}

pub open spec fn world_size() -> spec_fn(WorldPopulation) -> nat {
    |w: WorldPopulation| zones_total(w.zones@)
}

/// The head count that a tree holds at `position`; 0 where it has no such
/// leaf.
pub open spec fn worlds_amount(s: Seq<WorldPopulation>, position: TreePosition) -> nat {
    sum_by(s, world_weight(position))
}

/// The head count of a whole tree: the sum of all its leaves.
pub open spec fn worlds_total(s: Seq<WorldPopulation>) -> nat {
    sum_by(s, world_size())
}

/// No loadout is listed twice, and no listed loadout is empty.
pub open spec fn loadouts_wf(s: Seq<LoadoutPopulation>) -> bool {
    &&& forall|i: int, j: int|
        0 <= i < j < s.len() ==> (#[trigger] s[i]).loadout_id != (#[trigger] s[j]).loadout_id
    &&& forall|i: int| 0 <= i < s.len() ==> (#[trigger] s[i]).amount > 0
}

/// No team is listed twice, and every listed team has loadouts.
pub open spec fn teams_wf(s: Seq<TeamPopulation>) -> bool {
    &&& forall|i: int, j: int|
        0 <= i < j < s.len() ==> (#[trigger] s[i]).team_id != (#[trigger] s[j]).team_id
    &&& forall|i: int|
        0 <= i < s.len() ==> (#[trigger] s[i]).loadouts@.len() > 0 && loadouts_wf(s[i].loadouts@)
}

/// No zone is listed twice, and every listed zone has teams.
pub open spec fn zones_wf(s: Seq<ZonePopulation>) -> bool {
    &&& forall|i: int, j: int|
        0 <= i < j < s.len() ==> (#[trigger] s[i]).zone_id != (#[trigger] s[j]).zone_id
    &&& forall|i: int|
        0 <= i < s.len() ==> (#[trigger] s[i]).teams@.len() > 0 && teams_wf(s[i].teams@)
}

/// No world is listed twice, and every listed world has zones.
pub open spec fn worlds_wf(s: Seq<WorldPopulation>) -> bool {
    &&& forall|i: int, j: int|
        0 <= i < j < s.len() ==> (#[trigger] s[i]).world_id != (#[trigger] s[j]).world_id
    &&& forall|i: int|
        0 <= i < s.len() ==> (#[trigger] s[i]).zones@.len() > 0 && zones_wf(s[i].zones@)
}

/// In a well-formed tree the head count at a leaf is that of one entry, and
/// so fits an amount.
pub proof fn lemma_leaf_fits(tree: Seq<WorldPopulation>, position: TreePosition)
    requires
        worlds_wf(tree),
    ensures
        worlds_amount(tree, position) <= PopulationAmount::MAX,
{
    if worlds_amount(tree, position) > 0 {
        let i = lemma_sum_by_positive(tree, world_weight(position));
        assert forall|j: int| 0 <= j < tree.len() && j != i implies world_weight(position)(
            #[trigger] tree[j],
        ) == 0 by {
            if j < i {
                assert(tree[j].world_id != tree[i].world_id);
            } else {
                assert(tree[i].world_id != tree[j].world_id);
            }
        }
        lemma_sum_by_single(tree, i, world_weight(position));
        let zones = tree[i].zones@;
        let zone_w = zone_weight(position.zone, position.team, position.loadout);
        let j = lemma_sum_by_positive(zones, zone_w);
        assert forall|k: int| 0 <= k < zones.len() && k != j implies zone_w(#[trigger] zones[k])
            == 0 by {
            if k < j {
                assert(zones[k].zone_id != zones[j].zone_id);
            } else {
                assert(zones[j].zone_id != zones[k].zone_id);
            }
        }
        lemma_sum_by_single(zones, j, zone_w);
        let teams = zones[j].teams@;
        let team_w = team_weight(position.team, position.loadout);
        let k = lemma_sum_by_positive(teams, team_w);
        assert forall|m: int| 0 <= m < teams.len() && m != k implies team_w(#[trigger] teams[m])
            == 0 by {
            if m < k {
                assert(teams[m].team_id != teams[k].team_id);
            } else {
                assert(teams[k].team_id != teams[m].team_id);
            }
        }
        lemma_sum_by_single(teams, k, team_w);
        let loadouts = teams[k].loadouts@;
        let loadout_w = loadout_weight(position.loadout);
        let l = lemma_sum_by_positive(loadouts, loadout_w);
        assert forall|m: int| 0 <= m < loadouts.len() && m != l implies loadout_w(
            #[trigger] loadouts[m],
        ) == 0 by {
            if m < l {
                assert(loadouts[m].loadout_id != loadouts[l].loadout_id);
            } else {
                assert(loadouts[l].loadout_id != loadouts[m].loadout_id);
            }
        }
        lemma_sum_by_single(loadouts, l, loadout_w);
    }
}

fn find_loadout(loadouts: &LoadoutBreakdown, loadout: Loadout) -> (r: Option<usize>)
    ensures
        match r {
            Some(i) => i < loadouts.len() && loadouts[i as int].loadout_id == loadout,
            None => forall|j: int|
                0 <= j < loadouts.len() ==> (#[trigger] loadouts[j]).loadout_id != loadout,
        },
{
    let mut i: usize = 0;
    while i < loadouts.len()
        invariant
            i <= loadouts.len(),
            forall|j: int| 0 <= j < i ==> (#[trigger] loadouts[j]).loadout_id != loadout,
        decreases loadouts.len() - i,
    {
        if loadouts[i].loadout_id == loadout {
            return Some(i);
        }
        i = i + 1;
    }
    None
}

fn find_team(teams: &TeamBreakdown, team: TeamID) -> (r: Option<usize>)
    ensures
        match r {
            Some(i) => i < teams.len() && teams[i as int].team_id == team,
            None => forall|j: int| 0 <= j < teams.len() ==> (#[trigger] teams[j]).team_id != team,
        },
{
    let mut i: usize = 0;
    while i < teams.len()
        invariant
            i <= teams.len(),
            forall|j: int| 0 <= j < i ==> (#[trigger] teams[j]).team_id != team,
        decreases teams.len() - i,
    {
        if teams[i].team_id == team {
            return Some(i);
        }
        i = i + 1;
    }
    None
}

fn find_zone(zones: &ZoneBreakdown, zone: ZoneID) -> (r: Option<usize>)
    ensures
        match r {
            Some(i) => i < zones.len() && zones[i as int].zone_id == zone,
            None => forall|j: int| 0 <= j < zones.len() ==> (#[trigger] zones[j]).zone_id != zone,
        },
{
    let mut i: usize = 0;
    while i < zones.len()
        invariant
            i <= zones.len(),
            forall|j: int| 0 <= j < i ==> (#[trigger] zones[j]).zone_id != zone,
        decreases zones.len() - i,
    {
        if zones[i].zone_id == zone {
            return Some(i);
        }
        i = i + 1;
    }
    None
}

fn find_world(worlds: &WorldBreakdown, world: WorldID) -> (r: Option<usize>)
    ensures
        match r {
            Some(i) => i < worlds.len() && worlds[i as int].world_id == world,
            None => forall|j: int|
                0 <= j < worlds.len() ==> (#[trigger] worlds[j]).world_id != world,
        },
{
    let mut i: usize = 0;
    while i < worlds.len()
        invariant
            i <= worlds.len(),
            forall|j: int| 0 <= j < i ==> (#[trigger] worlds[j]).world_id != world,
        decreases worlds.len() - i,
    {
        if worlds[i].world_id == world {
            return Some(i);
        }
        i = i + 1;
    }
    None
}

fn loadouts_amount_at(loadouts: &LoadoutBreakdown, loadout: Loadout) -> (amount: PopulationAmount)
    requires
        loadouts_wf(loadouts@),
    ensures
        amount == loadouts_amount(loadouts@, loadout),
{
    match find_loadout(loadouts, loadout) {
        Some(i) => {
            proof {
                assert forall|j: int| 0 <= j < loadouts@.len() && j != i implies loadout_weight(
                    loadout,
                )(#[trigger] loadouts@[j]) == 0 by {
                    assert(loadouts@[j].loadout_id != loadouts@[i as int].loadout_id);
                }
                lemma_sum_by_single(loadouts@, i as int, loadout_weight(loadout));
            }
            loadouts[i].amount
        },
        None => {
            proof {
                lemma_sum_by_none(loadouts@, loadout_weight(loadout));
            }
            0
        },
    }
}

fn teams_amount_at(teams: &TeamBreakdown, team: TeamID, loadout: Loadout) -> (amount:
    PopulationAmount)
    requires
        teams_wf(teams@),
    ensures
        amount == teams_amount(teams@, team, loadout),
{
    match find_team(teams, team) {
        Some(i) => {
            proof {
                assert forall|j: int| 0 <= j < teams@.len() && j != i implies team_weight(
                    team,
                    loadout,
                )(#[trigger] teams@[j]) == 0 by {
                    assert(teams@[j].team_id != teams@[i as int].team_id);
                }
                lemma_sum_by_single(teams@, i as int, team_weight(team, loadout));
            }
            loadouts_amount_at(&teams[i].loadouts, loadout)
        },
        None => {
            proof {
                lemma_sum_by_none(teams@, team_weight(team, loadout));
            }
            0
        },
    }
}

fn zones_amount_at(zones: &ZoneBreakdown, zone: ZoneID, team: TeamID, loadout: Loadout) -> (amount:
    PopulationAmount)
    requires
        zones_wf(zones@),
    ensures
        amount == zones_amount(zones@, zone, team, loadout),
{
    match find_zone(zones, zone) {
        Some(i) => {
            proof {
                assert forall|j: int| 0 <= j < zones@.len() && j != i implies zone_weight(
                    zone,
                    team,
                    loadout,
                )(#[trigger] zones@[j]) == 0 by {
                    assert(zones@[j].zone_id != zones@[i as int].zone_id);
                }
                lemma_sum_by_single(zones@, i as int, zone_weight(zone, team, loadout));
            }
            teams_amount_at(&zones[i].teams, team, loadout)
        },
        None => {
            proof {
                lemma_sum_by_none(zones@, zone_weight(zone, team, loadout));
            }
            0
        },
    }
}

/// The head count that a tree holds at `position`; 0 where it has no such
/// leaf.
pub fn amount_at(tree: &WorldBreakdown, position: TreePosition) -> (amount: PopulationAmount)
    requires
        worlds_wf(tree@),
    ensures
        amount == worlds_amount(tree@, position),
{
    match find_world(tree, position.world) {
        Some(i) => {
            proof {
                assert forall|j: int| 0 <= j < tree@.len() && j != i implies world_weight(
                    position,
                )(#[trigger] tree@[j]) == 0 by {
                    assert(tree@[j].world_id != tree@[i as int].world_id);
                }
                lemma_sum_by_single(tree@, i as int, world_weight(position));
            }
            zones_amount_at(&tree[i].zones, position.zone, position.team, position.loadout)
        },
        None => {
            proof {
                lemma_sum_by_none(tree@, world_weight(position));
            }
            0
        },
    }
}

fn add_to_loadouts(loadouts: &mut LoadoutBreakdown, loadout: Loadout, amount: PopulationAmount)
    requires
        loadouts_wf(old(loadouts)@),
        amount > 0,
        loadouts_amount(old(loadouts)@, loadout) + amount <= PopulationAmount::MAX,
    ensures
        loadouts_wf(final(loadouts)@),
        final(loadouts)@.len() > 0,
        loadouts_total(final(loadouts)@) == loadouts_total(old(loadouts)@) + amount,
        forall|l: Loadout| #[trigger]
            loadouts_amount(final(loadouts)@, l) == loadouts_amount(old(loadouts)@, l) + (if l
                == loadout {
                amount as nat
            } else {
                0
            }),
{
    let ghost before = loadouts@;
    match find_loadout(loadouts, loadout) {
        Some(i) => {
            proof {
                assert forall|j: int| 0 <= j < before.len() && j != i implies loadout_weight(
                    loadout,
                )(#[trigger] before[j]) == 0 by {
                    assert(before[j].loadout_id != before[i as int].loadout_id);
                }
                lemma_sum_by_single(before, i as int, loadout_weight(loadout));
            }
            loadouts[i].amount = loadouts[i].amount + amount;
            proof {
                let entry = loadouts@[i as int];
                assert(loadouts@ =~= before.update(i as int, entry));
                lemma_sum_by_update(before, i as int, entry, loadout_size());
                assert forall|l: Loadout| #[trigger]
                    loadouts_amount(loadouts@, l) == loadouts_amount(before, l) + (if l
                        == loadout {
                        amount as nat
                    } else {
                        0
                    }) by {
                    lemma_sum_by_update(before, i as int, entry, loadout_weight(l));
                }
            }
        },
        None => {
            let entry = LoadoutPopulation { loadout_id: loadout, amount };
            loadouts.push(entry);
            proof {
                assert(loadouts@ =~= before.push(entry));
                lemma_sum_by_push(before, entry, loadout_size());
                assert forall|l: Loadout| #[trigger]
                    loadouts_amount(loadouts@, l) == loadouts_amount(before, l) + (if l
                        == loadout {
                        amount as nat
                    } else {
                        0
                    }) by {
                    lemma_sum_by_push(before, entry, loadout_weight(l));
                }
            }
        },
    }
}

fn add_to_teams(
    teams: &mut TeamBreakdown,
    team: TeamID,
    loadout: Loadout,
    amount: PopulationAmount,
)
    requires
        teams_wf(old(teams)@),
        amount > 0,
        teams_amount(old(teams)@, team, loadout) + amount <= PopulationAmount::MAX,
    ensures
        teams_wf(final(teams)@),
        final(teams)@.len() > 0,
        teams_total(final(teams)@) == teams_total(old(teams)@) + amount,
        forall|t: TeamID, l: Loadout| #[trigger]
            teams_amount(final(teams)@, t, l) == teams_amount(old(teams)@, t, l) + (if t == team
                && l == loadout {
                amount as nat
            } else {
                0
            }),
{
    let ghost before = teams@;
    match find_team(teams, team) {
        Some(i) => {
            proof {
                assert forall|j: int| 0 <= j < before.len() && j != i implies team_weight(
                    team,
                    loadout,
                )(#[trigger] before[j]) == 0 by {
                    assert(before[j].team_id != before[i as int].team_id);
                }
                lemma_sum_by_single(before, i as int, team_weight(team, loadout));
            }
            add_to_loadouts(&mut teams[i].loadouts, loadout, amount);
            proof {
                let entry = teams@[i as int];
                assert(teams@ =~= before.update(i as int, entry));
                lemma_sum_by_update(before, i as int, entry, team_size());
                assert forall|t: TeamID, l: Loadout| #[trigger]
                    teams_amount(teams@, t, l) == teams_amount(before, t, l) + (if t == team && l
                        == loadout {
                        amount as nat
                    } else {
                        0
                    }) by {
                    lemma_sum_by_update(before, i as int, entry, team_weight(t, l));
                    assert(loadouts_amount(entry.loadouts@, l) == loadouts_amount(
                        before[i as int].loadouts@,
                        l,
                    ) + (if l == loadout {
                        amount as nat
                    } else {
                        0
                    }));
                }
            }
        },
        None => {
            let mut loadouts: LoadoutBreakdown = Vec::new();
            proof {
                assert(loadouts_total(loadouts@) == 0);
                assert(loadouts_amount(loadouts@, loadout) == 0);
            }
            add_to_loadouts(&mut loadouts, loadout, amount);
            let entry = TeamPopulation { team_id: team, loadouts };
            teams.push(entry);
            proof {
                assert(teams@ =~= before.push(entry));
                lemma_sum_by_push(before, entry, team_size());
                assert forall|t: TeamID, l: Loadout| #[trigger]
                    teams_amount(teams@, t, l) == teams_amount(before, t, l) + (if t == team && l
                        == loadout {
                        amount as nat
                    } else {
                        0
                    }) by {
                    lemma_sum_by_push(before, entry, team_weight(t, l));
                    assert(loadouts_amount(entry.loadouts@, l) == loadouts_amount(
                        Seq::<LoadoutPopulation>::empty(),
                        l,
                    ) + (if l == loadout {
                        amount as nat
                    } else {
                        0
                    }));
                }
            }
        },
    }
}

fn add_to_zones(
    zones: &mut ZoneBreakdown,
    zone: ZoneID,
    team: TeamID,
    loadout: Loadout,
    amount: PopulationAmount,
)
    requires
        zones_wf(old(zones)@),
        amount > 0,
        zones_amount(old(zones)@, zone, team, loadout) + amount <= PopulationAmount::MAX,
    ensures
        zones_wf(final(zones)@),
        final(zones)@.len() > 0,
        zones_total(final(zones)@) == zones_total(old(zones)@) + amount,
        forall|z: ZoneID, t: TeamID, l: Loadout| #[trigger]
            zones_amount(final(zones)@, z, t, l) == zones_amount(old(zones)@, z, t, l) + (if z
                == zone && t == team && l == loadout {
                amount as nat
            } else {
                0
            }),
{
    let ghost before = zones@;
    match find_zone(zones, zone) {
        Some(i) => {
            proof {
                assert forall|j: int| 0 <= j < before.len() && j != i implies zone_weight(
                    zone,
                    team,
                    loadout,
                )(#[trigger] before[j]) == 0 by {
                    assert(before[j].zone_id != before[i as int].zone_id);
                }
                lemma_sum_by_single(before, i as int, zone_weight(zone, team, loadout));
            }
            add_to_teams(&mut zones[i].teams, team, loadout, amount);
            proof {
                let entry = zones@[i as int];
                assert(zones@ =~= before.update(i as int, entry));
                lemma_sum_by_update(before, i as int, entry, zone_size());
                assert forall|z: ZoneID, t: TeamID, l: Loadout| #[trigger]
                    zones_amount(zones@, z, t, l) == zones_amount(before, z, t, l) + (if z == zone
                        && t == team && l == loadout {
                        amount as nat
                    } else {
                        0
                    }) by {
                    lemma_sum_by_update(before, i as int, entry, zone_weight(z, t, l));
                    assert(teams_amount(entry.teams@, t, l) == teams_amount(
                        before[i as int].teams@,
                        t,
                        l,
                    ) + (if t == team && l == loadout {
                        amount as nat
                    } else {
                        0
                    }));
                }
            }
        },
        None => {
            let mut teams: TeamBreakdown = Vec::new();
            proof {
                assert(teams_total(teams@) == 0);
                assert(teams_amount(teams@, team, loadout) == 0);
            }
            add_to_teams(&mut teams, team, loadout, amount);
            let entry = ZonePopulation { zone_id: zone, teams };
            zones.push(entry);
            proof {
                assert(zones@ =~= before.push(entry));
                lemma_sum_by_push(before, entry, zone_size());
                assert forall|z: ZoneID, t: TeamID, l: Loadout| #[trigger]
                    zones_amount(zones@, z, t, l) == zones_amount(before, z, t, l) + (if z == zone
                        && t == team && l == loadout {
                        amount as nat
                    } else {
                        0
                    }) by {
                    lemma_sum_by_push(before, entry, zone_weight(z, t, l));
                    assert(teams_amount(entry.teams@, t, l) == teams_amount(
                        Seq::<TeamPopulation>::empty(),
                        t,
                        l,
                    ) + (if t == team && l == loadout {
                        amount as nat
                    } else {
                        0
                    }));
                }
            }
        },
    }
}

/// Counts `amount` more characters at `position`, making the nodes on the
/// way where the tree does not have them yet.
pub fn add_population(tree: &mut WorldBreakdown, position: TreePosition, amount: PopulationAmount)
    requires
        worlds_wf(old(tree)@),
        amount > 0,
        worlds_amount(old(tree)@, position) + amount <= PopulationAmount::MAX,
    ensures
        worlds_wf(final(tree)@),
        worlds_total(final(tree)@) == worlds_total(old(tree)@) + amount,
        forall|p: TreePosition| #[trigger]
            worlds_amount(final(tree)@, p) == worlds_amount(old(tree)@, p) + (if p == position {
                amount as nat
            } else {
                0
            }),
{
    let ghost before = tree@;
    match find_world(tree, position.world) {
        Some(i) => {
            proof {
                assert forall|j: int| 0 <= j < before.len() && j != i implies world_weight(
                    position,
                )(#[trigger] before[j]) == 0 by {
                    assert(before[j].world_id != before[i as int].world_id);
                }
                lemma_sum_by_single(before, i as int, world_weight(position));
            }
            add_to_zones(
                &mut tree[i].zones,
                position.zone,
                position.team,
                position.loadout,
                amount,
            );
            proof {
                let entry = tree@[i as int];
                assert(tree@ =~= before.update(i as int, entry));
                lemma_sum_by_update(before, i as int, entry, world_size());
                assert forall|p: TreePosition| #[trigger]
                    worlds_amount(tree@, p) == worlds_amount(before, p) + (if p == position {
                        amount as nat
                    } else {
                        0
                    }) by {
                    lemma_sum_by_update(before, i as int, entry, world_weight(p));
                    assert(zones_amount(entry.zones@, p.zone, p.team, p.loadout) == zones_amount(
                        before[i as int].zones@,
                        p.zone,
                        p.team,
                        p.loadout,
                    ) + (if p.zone == position.zone && p.team == position.team && p.loadout
                        == position.loadout {
                        amount as nat
                    } else {
                        0
                    }));
                }
            }
        },
        None => {
            let mut zones: ZoneBreakdown = Vec::new();
            proof {
                assert(zones_total(zones@) == 0);
                assert(zones_amount(zones@, position.zone, position.team, position.loadout) == 0);
            }
            add_to_zones(&mut zones, position.zone, position.team, position.loadout, amount);
            let entry = WorldPopulation { world_id: position.world, zones };
            tree.push(entry);
            proof {
                assert(tree@ =~= before.push(entry));
                lemma_sum_by_push(before, entry, world_size());
                assert forall|p: TreePosition| #[trigger]
                    worlds_amount(tree@, p) == worlds_amount(before, p) + (if p == position {
                        amount as nat
                    } else {
                        0
                    }) by {
                    lemma_sum_by_push(before, entry, world_weight(p));
                    assert(zones_amount(entry.zones@, p.zone, p.team, p.loadout) == zones_amount(
                        Seq::<ZonePopulation>::empty(),
                        p.zone,
                        p.team,
                        p.loadout,
                    ) + (if p.zone == position.zone && p.team == position.team && p.loadout
                        == position.loadout {
                        amount as nat
                    } else {
                        0
                    }));
                }
            }
        },
    }
}

/// The query that gives, for every world, the rows of the revision that was
/// written last for that world, oldest revision first. Its four parameters
/// are lists of the worlds, zones, teams and loadouts to keep; a list that is
/// null keeps all.
pub const CURRENT_POPULATION_QUERY: &'static str = "SELECT
            p.timestamp,
            p.population_id,
            wp.world_id,
            zp.zone_id,
            tp.team_id,
            lp.loadout_id,
            lp.amount
        FROM population p
        JOIN world_population wp ON p.population_id = wp.population_id
        JOIN zone_population zp ON wp.world_population_id = zp.world_population_id
        JOIN team_population tp ON zp.zone_population_id = tp.zone_population_id
        JOIN loadout_population lp ON tp.team_population_id = lp.team_population_id
        WHERE ($1::INTEGER[] IS NULL OR wp.world_id = ANY($1::INTEGER[]))
            AND ($2::INTEGER[] IS NULL OR zp.zone_id = ANY($2::INTEGER[]))
            AND ($3::SMALLINT[] IS NULL OR tp.team_id = ANY($3::SMALLINT[]))
            AND ($4::SMALLINT[] IS NULL OR lp.loadout_id = ANY($4::SMALLINT[]))
            AND wp.population_id = (
                SELECT MAX(wp2.population_id) FROM world_population wp2
                WHERE wp2.world_id = wp.world_id
            )
        ORDER BY p.timestamp";

/// One row of a stored revision, as a query over the revision's tables
/// returns it: the time and the number of the revision, the numbers of a
/// leaf's world, zone, team and loadout, and the leaf's head count.
#[derive(Clone, Copy, Debug, PartialEq, Eq, Structural)]
pub struct DbResponse {
    pub timestamp: Timestamp,
    pub population_id: i32,
    pub world_id: i32,
    pub zone_id: i32,
    pub team_id: i32,
    pub loadout_id: i32,
    pub amount: i32,
}

/// A population tree and the time it was stored at.
#[derive(Clone, Debug, PartialEq, Eq)]
pub struct PopBreakdown {
    pub timestamp: Timestamp,
    pub worlds: WorldBreakdown,
}

/// The population as it is handed to those who ask for it.
#[derive(Debug)]
pub struct PopulationApiResponse {
    pub timestamp: Timestamp,
    pub worlds: Vec<GenericPopulationLevel>,
}

/// A level of the tree, with or without the number of one node of it.
#[derive(Clone, Copy, Debug, PartialEq, Eq, Structural)]
pub enum ValidPopulationLevel {
    Invalid,
    World(Option<WorldID>),
    Zone(Option<ZoneID>),
    Team(Option<TeamID>),
    Loadout(Option<Loadout>),
}

impl ValidPopulationLevel {
    /// The level below this one; none below the loadouts.
    pub open spec fn spec_next_level(&self) -> Option<ValidPopulationLevel> {
        match self {
            ValidPopulationLevel::World(_) => Some(ValidPopulationLevel::Zone(None)),
            ValidPopulationLevel::Zone(_) => Some(ValidPopulationLevel::Team(None)),
            ValidPopulationLevel::Team(_) => Some(ValidPopulationLevel::Loadout(None)),
            ValidPopulationLevel::Loadout(_) => None,
            ValidPopulationLevel::Invalid => None,
        }
    }

    /// Whether `row` lies under this node: a level with a number selects the
    /// rows that carry that number at that level, a level without one every
    /// row, and `Invalid` none.
    pub open spec fn selects(self, row: DbResponse) -> bool {
        match self {
            ValidPopulationLevel::World(Some(world_id)) => row.world_id == world_id.spec_id(),
            ValidPopulationLevel::Zone(Some(zone_id)) => row.zone_id == zone_id.0 as i32,
            ValidPopulationLevel::Team(Some(team_id)) => row.team_id == team_id.spec_id(),
            ValidPopulationLevel::Loadout(Some(loadout_id)) => row.loadout_id
                == loadout_id.spec_id(),
            ValidPopulationLevel::Invalid => false,
            _ => true,
        }
    }

    #[verifier::when_used_as_spec(spec_next_level)]
    pub fn get_next_level(&self) -> (next: Option<ValidPopulationLevel>)
        ensures
            next == self.spec_next_level(),
    {
        match self {
            ValidPopulationLevel::World(_) => Some(ValidPopulationLevel::Zone(None)),
            ValidPopulationLevel::Zone(_) => Some(ValidPopulationLevel::Team(None)),
            ValidPopulationLevel::Team(_) => Some(ValidPopulationLevel::Loadout(None)),
            ValidPopulationLevel::Loadout(_) => None,
            ValidPopulationLevel::Invalid => None,
        }
    }

    /// Applies this node as a filter to `row`.
    pub fn get_db_filter(&self, row: &DbResponse) -> (keep: bool)
        ensures
            keep == self.selects(*row),
    {
        match self {
            ValidPopulationLevel::World(Some(world_id)) => row.world_id == world_id.id() as i32,
            ValidPopulationLevel::Zone(Some(zone_id)) => row.zone_id == #[verifier::truncate]
            (zone_id.0 as i32),
            ValidPopulationLevel::Team(Some(team_id)) => row.team_id == team_id.id() as i32,
            ValidPopulationLevel::Loadout(Some(loadout_id)) => row.loadout_id
                == loadout_id.id() as i32,
            ValidPopulationLevel::Invalid => false,
            _ => true,
        }
    }
}

/// What more is known of a node than its number.
#[derive(Clone, Debug)]
pub enum ValidFullLevelData {
    Zone(Zone),
}

/// One node of the tree as it is handed out: which node it is, how many
/// characters are under it, and the nodes below it.
#[derive(Debug)]
pub struct GenericPopulationLevel {
    pub level_id: ValidPopulationLevel,
    pub full_level_data: Option<ValidFullLevelData>,
    pub population: PopulationAmount,
    pub lower_levels: Option<Vec<GenericPopulationLevel>>,
}

/// The leaf that a row speaks of. A row speaks of one where its world, its
/// team and its loadout are each the number of a known one; a number below
/// zero, or above the widest identifier, is the number of none. The zone is
/// the row's number read as an unsigned one.
pub open spec fn row_position(row: DbResponse) -> Option<TreePosition> {
    if 0 <= row.world_id <= u16::MAX && 0 <= row.team_id <= u16::MAX && 0 <= row.loadout_id
        <= u16::MAX {
        match (
            WorldID::spec_from_repr(row.world_id as u16),
            Faction::spec_from_repr(row.team_id as u16),
            Loadout::spec_from_repr(row.loadout_id as u16),
        ) {
            (Some(world), Some(team), Some(loadout)) => Some(
                TreePosition { world, zone: ZoneID(row.zone_id as u32), team, loadout },
            ),
            _ => None,
        }
    } else {
        None
    }
}

/// The head count that a row carries; a row with an amount below zero
/// carries none.
pub open spec fn row_amount(row: DbResponse) -> nat {
    if row.amount > 0 {
        row.amount as nat
    } else {
        0
    }
}

/// What a row counts towards the leaf `position`.
pub open spec fn row_weight(position: TreePosition) -> spec_fn(DbResponse) -> nat {
    |row: DbResponse|
        if row_position(row) == Some(position) {
            row_amount(row)
        } else {
            0
        }
}

/// What a row counts towards the whole.
pub open spec fn row_size() -> spec_fn(DbResponse) -> nat {
    |row: DbResponse|
        if row_position(row) is Some {
            row_amount(row)
        } else {
            0
        }
}

/// What a row adds to its leaf when the leaf counts `counted` so far: its
/// head count, or nothing where the leaf could not hold the sum.
pub open spec fn accepted_amount(row: DbResponse, counted: nat) -> nat {
    if counted + row_amount(row) <= PopulationAmount::MAX {
        row_amount(row)
    } else {
        0
    }
}

/// The head count at `position` of the tree that `rows` make, read in
/// order: the sum of the rows that name the leaf, each of them counted
/// unless the leaf could not hold it on top of those before it.
pub open spec fn rows_amount(rows: Seq<DbResponse>, position: TreePosition) -> nat
    decreases rows.len(),
{
    if rows.len() == 0 {
        0
    } else if row_position(rows.last()) == Some(position) {
        rows_amount(rows.drop_last(), position) + accepted_amount(
            rows.last(),
            rows_amount(rows.drop_last(), position),
        )
    } else {
        rows_amount(rows.drop_last(), position)
    }
}

/// The head count of the tree that `rows` make, read in order: what each
/// row adds to its leaf, summed over the rows.
pub open spec fn rows_total(rows: Seq<DbResponse>) -> nat
    decreases rows.len(),
{
    if rows.len() == 0 {
        0
    } else {
        rows_total(rows.drop_last()) + match row_position(rows.last()) {
            Some(position) => accepted_amount(
                rows.last(),
                rows_amount(rows.drop_last(), position),
            ),
            None => 0,
        }
    }
}

/// Where the rows that name a leaf fit an amount together, none of them is
/// passed over: the leaf counts their sum, in whatever order they come.
pub proof fn lemma_rows_that_fit_at(rows: Seq<DbResponse>, position: TreePosition)
    requires
        sum_by(rows, row_weight(position)) <= PopulationAmount::MAX,
    ensures
        rows_amount(rows, position) == sum_by(rows, row_weight(position)),
    decreases rows.len(),
{
    if rows.len() > 0 {
        lemma_rows_that_fit_at(rows.drop_last(), position);
    }
}

/// Where that holds of every leaf, the tree counts what the rows count in
/// all.
pub proof fn lemma_rows_that_fit(rows: Seq<DbResponse>)
    requires
        forall|position: TreePosition| #[trigger]
            sum_by(rows, row_weight(position)) <= PopulationAmount::MAX,
    ensures
        rows_total(rows) == sum_by(rows, row_size()),
        forall|position: TreePosition| #[trigger]
            rows_amount(rows, position) == sum_by(rows, row_weight(position)),
    decreases rows.len(),
{
    assert forall|position: TreePosition| #[trigger]
        rows_amount(rows, position) == sum_by(rows, row_weight(position)) by {
        lemma_rows_that_fit_at(rows, position);
    }
    if rows.len() > 0 {
        let rest = rows.drop_last();
        assert forall|position: TreePosition| #[trigger]
            sum_by(rest, row_weight(position)) <= PopulationAmount::MAX by {
            assert(sum_by(rows, row_weight(position)) <= PopulationAmount::MAX);
        }
        lemma_rows_that_fit(rest);
        match row_position(rows.last()) {
            Some(position) => {
                lemma_rows_that_fit_at(rest, position);
                assert(sum_by(rows, row_weight(position)) <= PopulationAmount::MAX);
            },
            None => {},
        }
    }
}

impl DbResponse {
    /// Reads the leaf and the head count off the row; nothing where the row
    /// names no known world, team or loadout. Each number is held against
    /// the range of an identifier before it is taken as one.
    pub fn leaf(&self) -> (r: Option<(TreePosition, u32)>)
        ensures
            match r {
                Some((position, amount)) => row_position(*self) == Some(position) && amount
                    == row_amount(*self),
                None => row_position(*self) is None,
            },
    {
        if self.world_id < 0 || self.world_id > 65535 || self.team_id < 0 || self.team_id > 65535
            || self.loadout_id < 0 || self.loadout_id > 65535 {
            return None;
        }
        let world = match WorldID::from_repr(self.world_id as u16) {
            Some(world) => world,
            None => return None,
        };
        let team = match Faction::from_repr(self.team_id as u16) {
            Some(team) => team,
            None => return None,
        };
        let loadout = match Loadout::from_repr(self.loadout_id as u16) {
            Some(loadout) => loadout,
            None => return None,
        };
        let zone = ZoneID(#[verifier::truncate] (self.zone_id as u32));
        let amount: u32 = if self.amount > 0 {
            self.amount as u32
        } else {
            0
        };
        Some((TreePosition { world, zone, team, loadout }, amount))
    }
}

/// Whether, among `rows`, `row` is of the revision that was written last
/// for its world: no row of that world is of a later revision.
pub open spec fn is_current(rows: Seq<DbResponse>, row: DbResponse) -> bool {
    forall|j: int|
        0 <= j < rows.len() && (#[trigger] rows[j]).world_id == row.world_id
            ==> rows[j].population_id <= row.population_id
}

/// Those of `rows` that are current among `all`, in their order.
pub open spec fn current_of(rows: Seq<DbResponse>, all: Seq<DbResponse>) -> Seq<DbResponse>
    decreases rows.len(),
{
    if rows.len() == 0 {
        Seq::empty()
    } else if is_current(all, rows.last()) {
        current_of(rows.drop_last(), all).push(rows.last())
    } else {
        current_of(rows.drop_last(), all)
    }
}

/// The current population among `rows`: for every world, the rows of the
/// revision that was written last for it.
pub open spec fn current_rows(rows: Seq<DbResponse>) -> Seq<DbResponse> {
    current_of(rows, rows)
}

/// Rows that are all current are all kept.
pub proof fn lemma_current_of_current(rows: Seq<DbResponse>, all: Seq<DbResponse>)
    requires
        forall|i: int| 0 <= i < rows.len() ==> is_current(all, #[trigger] rows[i]),
    ensures
        current_of(rows, all) == rows,
    decreases rows.len(),
{
    if rows.len() > 0 {
        assert forall|i: int| 0 <= i < rows.drop_last().len() implies is_current(
            all,
            #[trigger] rows.drop_last()[i],
        ) by {
            assert(rows.drop_last()[i] == rows[i]);
        }
        lemma_current_of_current(rows.drop_last(), all);
        assert(rows.last() == rows[rows.len() - 1]);
        assert(rows.drop_last().push(rows.last()) =~= rows);
    } else {
        assert(rows =~= Seq::empty());
    }
}

fn current(rows: &Vec<DbResponse>, row: &DbResponse) -> (r: bool)
    ensures
        r == is_current(rows@, *row),
{
    let mut j: usize = 0;
    while j < rows.len()
        invariant
            j <= rows.len(),
            forall|k: int|
                0 <= k < j && (#[trigger] rows@[k]).world_id == row.world_id
                    ==> rows@[k].population_id <= row.population_id,
        decreases rows.len() - j,
    {
        if rows[j].world_id == row.world_id && rows[j].population_id > row.population_id {
            return false;
        }
        j = j + 1;
    }
    true
}

/// Picks the current population out of `rows`: for every world, the rows of
/// the revision that was written last for it, in their order.
pub fn get_current_rows(rows: &Vec<DbResponse>) -> (kept: Vec<DbResponse>)
    ensures
        kept@ == current_rows(rows@),
{
    let mut kept: Vec<DbResponse> = Vec::new();
    let mut i: usize = 0;
    proof {
        assert(rows@.take(0) =~= Seq::empty());
    }
    while i < rows.len()
        invariant
            i <= rows.len(),
            kept@ == current_of(rows@.take(i as int), rows@),
        decreases rows.len() - i,
    {
        proof {
            assert(rows@.take(i + 1).drop_last() =~= rows@.take(i as int));
            assert(rows@.take(i + 1).last() == rows@[i as int]);
        }
        if current(rows, &rows[i]) {
            kept.push(rows[i]);
        }
        i = i + 1;
    }
    proof {
        assert(rows@.take(i as int) =~= rows@);
    }
    kept
}

/// Whether `read` is a tree of the current population among `rows`: well
/// formed, and with the head counts that the current rows give, at every
/// leaf and in all.
pub open spec fn read_from(read: Seq<WorldPopulation>, rows: Seq<DbResponse>) -> bool {
    &&& worlds_wf(read)
    &&& worlds_total(read) == rows_total(current_rows(rows))
    &&& forall|position: TreePosition| #[trigger]
        worlds_amount(read, position) == rows_amount(current_rows(rows), position)
}

/// Builds the population tree of the current population among `population`.
/// Without rows there is nothing to build. Of every world, only the rows of
/// its last revision count. A row that names no known world, team or
/// loadout is passed over, and so is one whose head count its leaf could not
/// hold on top of what the leaf counts already. So every leaf whose rows fit
/// an amount together counts their sum. The tree carries the time of the
/// first row.
pub fn get_current_as_hashmap_tree(population: &Vec<DbResponse>) -> (r: Option<PopBreakdown>)
    ensures
        r is None <==> population@.len() == 0,
        r matches Some(breakdown) ==> {
            &&& breakdown.timestamp == population@[0].timestamp
            &&& read_from(breakdown.worlds@, population@)
            &&& forall|position: TreePosition|
                sum_by(current_rows(population@), row_weight(position)) <= PopulationAmount::MAX
                    ==> #[trigger] worlds_amount(breakdown.worlds@, position) == sum_by(
                    current_rows(population@),
                    row_weight(position),
                )
        },
{
    if population.len() == 0 {
        return None;
    }
    let timestamp = population[0].timestamp;
    let rows = get_current_rows(population);
    let mut world_breakdown: WorldBreakdown = Vec::new();
    let mut i: usize = 0;
    proof {
        assert(rows@.take(0) =~= Seq::empty());
        assert(worlds_total(world_breakdown@) == 0);
        assert forall|position: TreePosition| #[trigger]
            worlds_amount(world_breakdown@, position) == rows_amount(rows@.take(0), position) by {}
    }
    while i < rows.len()
        invariant
            i <= rows.len(),
            worlds_wf(world_breakdown@),
            worlds_total(world_breakdown@) == rows_total(rows@.take(i as int)),
            forall|position: TreePosition| #[trigger]
                worlds_amount(world_breakdown@, position) == rows_amount(
                    rows@.take(i as int),
                    position,
                ),
        decreases rows.len() - i,
    {
        let ghost seen = rows@.take(i as int);
        let ghost built = world_breakdown@;
        proof {
            assert(rows@.take(i + 1).drop_last() =~= seen);
            assert(rows@.take(i + 1).last() == rows@[i as int]);
        }
        match rows[i].leaf() {
            Some((position, amount)) => {
                assert(worlds_amount(built, position) == rows_amount(seen, position));
                let counted = amount_at(&world_breakdown, position);
                if amount > 0 && amount <= (PopulationAmount::MAX - counted) as u32 {
                    add_population(&mut world_breakdown, position, amount as PopulationAmount);
                }
            },
            None => {},
        }
        proof {
            assert forall|position: TreePosition| #[trigger]
                worlds_amount(world_breakdown@, position) == rows_amount(
                    rows@.take(i + 1),
                    position,
                ) by {
                assert(worlds_amount(built, position) == rows_amount(seen, position));
            }
        }
        i = i + 1;
    }
    proof {
        assert(rows@.take(i as int) =~= rows@);
        assert forall|position: TreePosition|
            sum_by(rows@, row_weight(position)) <= PopulationAmount::MAX implies #[trigger]
            worlds_amount(world_breakdown@, position) == sum_by(rows@, row_weight(position)) by {
            lemma_rows_that_fit_at(rows@, position);
        }
    }
    Some(PopBreakdown { timestamp, worlds: world_breakdown })
}

/// Whether `level` hands out the leaf `entry`.
pub open spec fn shows_loadout(level: GenericPopulationLevel, entry: LoadoutPopulation) -> bool {
    &&& level.level_id == ValidPopulationLevel::Loadout(Some(entry.loadout_id))
    &&& level.full_level_data is None
    &&& level.population == entry.amount
    &&& level.lower_levels is None
}

/// Whether `levels` hand out the loadouts `entries`, one for one and in
/// their order.
pub open spec fn shows_loadouts(
    levels: Seq<GenericPopulationLevel>,
    entries: Seq<LoadoutPopulation>,
) -> bool {
    &&& levels.len() == entries.len()
    &&& forall|i: int| 0 <= i < levels.len() ==> shows_loadout(#[trigger] levels[i], entries[i])
}

/// Whether `level` hands out the team `entry`: its number, the head count of
/// all its loadouts, and below it its loadouts.
pub open spec fn shows_team(level: GenericPopulationLevel, entry: TeamPopulation) -> bool {
    &&& level.level_id == ValidPopulationLevel::Team(Some(entry.team_id))
    &&& level.full_level_data is None
    &&& level.population == loadouts_total(entry.loadouts@)
    &&& level.lower_levels matches Some(lower) && shows_loadouts(lower@, entry.loadouts@)
}

pub open spec fn shows_teams(
    levels: Seq<GenericPopulationLevel>,
    entries: Seq<TeamPopulation>,
) -> bool {
    &&& levels.len() == entries.len()
    &&& forall|i: int| 0 <= i < levels.len() ==> shows_team(#[trigger] levels[i], entries[i])
}

/// Whether `level` hands out the zone `entry`: its number, the head count of
/// all its teams, and below it its teams.
pub open spec fn shows_zone(level: GenericPopulationLevel, entry: ZonePopulation) -> bool {
    &&& level.level_id == ValidPopulationLevel::Zone(Some(entry.zone_id))
    &&& level.full_level_data is None
    &&& level.population == teams_total(entry.teams@)
    &&& level.lower_levels matches Some(lower) && shows_teams(lower@, entry.teams@)
}

pub open spec fn shows_zones(
    levels: Seq<GenericPopulationLevel>,
    entries: Seq<ZonePopulation>,
) -> bool {
    &&& levels.len() == entries.len()
    &&& forall|i: int| 0 <= i < levels.len() ==> shows_zone(#[trigger] levels[i], entries[i])
}

/// Whether `level` hands out the world `entry`: its number, the head count of
/// all its zones, and below it its zones.
pub open spec fn shows_world(level: GenericPopulationLevel, entry: WorldPopulation) -> bool {
    &&& level.level_id == ValidPopulationLevel::World(Some(entry.world_id))
    &&& level.full_level_data is None
    &&& level.population == zones_total(entry.zones@)
    &&& level.lower_levels matches Some(lower) && shows_zones(lower@, entry.zones@)
}

/// Whether `levels` hand out the tree `entries`: every node once, in the
/// tree's order, each with the head count of all that is below it.
pub open spec fn shows_worlds(
    levels: Seq<GenericPopulationLevel>,
    entries: Seq<WorldPopulation>,
) -> bool {
    &&& levels.len() == entries.len()
    &&& forall|i: int| 0 <= i < levels.len() ==> shows_world(#[trigger] levels[i], entries[i])
}

/// Whether an amount can hold the head count of the world `entry`.
pub open spec fn world_fits(entry: WorldPopulation) -> bool {
    zones_total(entry.zones@) <= PopulationAmount::MAX
}

/// Whether an amount can hold the head count of every world of the tree.
pub open spec fn worlds_fit(entries: Seq<WorldPopulation>) -> bool {
    forall|i: int| 0 <= i < entries.len() ==> world_fits(#[trigger] entries[i])
}

/// The worlds of the tree whose head count an amount can hold, in their
/// order.
pub open spec fn worlds_that_fit(entries: Seq<WorldPopulation>) -> Seq<WorldPopulation>
    decreases entries.len(),
{
    if entries.len() == 0 {
        Seq::empty()
    } else if world_fits(entries.last()) {
        worlds_that_fit(entries.drop_last()).push(entries.last())
    } else {
        worlds_that_fit(entries.drop_last())
    }
}

/// Where every world fits, the worlds that fit are all the worlds.
pub proof fn lemma_all_worlds_fit(entries: Seq<WorldPopulation>)
    requires
        worlds_fit(entries),
    ensures
        worlds_that_fit(entries) == entries,
    decreases entries.len(),
{
    if entries.len() > 0 {
        assert forall|i: int| 0 <= i < entries.drop_last().len() implies world_fits(
            #[trigger] entries.drop_last()[i],
        ) by {
            assert(entries.drop_last()[i] == entries[i]);
        }
        lemma_all_worlds_fit(entries.drop_last());
        assert(entries.last() == entries[entries.len() - 1]);
        assert(entries.drop_last().push(entries.last()) =~= entries);
    } else {
        assert(entries =~= Seq::empty());
    }
}

fn loadout_levels(entries: &LoadoutBreakdown) -> (r: Option<
    (Vec<GenericPopulationLevel>, PopulationAmount),
>)
    ensures
        r is Some <==> loadouts_total(entries@) <= PopulationAmount::MAX,
        r matches Some((levels, total)) ==> shows_loadouts(levels@, entries@) && total
            == loadouts_total(entries@),
{
    let mut levels: Vec<GenericPopulationLevel> = Vec::new();
    let mut total: PopulationAmount = 0;
    let mut i: usize = 0;
    proof {
        assert(entries@.take(0) =~= Seq::empty());
    }
    while i < entries.len()
        invariant
            i <= entries.len(),
            shows_loadouts(levels@, entries@.take(i as int)),
            total == loadouts_total(entries@.take(i as int)),
        decreases entries.len() - i,
    {
        proof {
            assert(entries@.take(i + 1) =~= entries@.take(i as int).push(entries@[i as int]));
            lemma_sum_by_push(entries@.take(i as int), entries@[i as int], loadout_size());
            lemma_sum_by_prefix(entries@, i + 1, loadout_size());
        }
        let entry = &entries[i];
        if entry.amount > PopulationAmount::MAX - total {
            return None;
        }
        levels.push(
            GenericPopulationLevel {
                level_id: ValidPopulationLevel::Loadout(Some(entry.loadout_id)),
                full_level_data: None,
                population: entry.amount,
                lower_levels: None,
            },
        );
        total = total + entry.amount;
        i = i + 1;
    }
    proof {
        assert(entries@.take(i as int) =~= entries@);
    }
    Some((levels, total))
}

fn team_levels(entries: &TeamBreakdown) -> (r: Option<
    (Vec<GenericPopulationLevel>, PopulationAmount),
>)
    ensures
        r is Some <==> teams_total(entries@) <= PopulationAmount::MAX,
        r matches Some((levels, total)) ==> shows_teams(levels@, entries@) && total == teams_total(
            entries@,
        ),
{
    let mut levels: Vec<GenericPopulationLevel> = Vec::new();
    let mut total: PopulationAmount = 0;
    let mut i: usize = 0;
    proof {
        assert(entries@.take(0) =~= Seq::empty());
    }
    while i < entries.len()
        invariant
            i <= entries.len(),
            shows_teams(levels@, entries@.take(i as int)),
            total == teams_total(entries@.take(i as int)),
        decreases entries.len() - i,
    {
        proof {
            assert(entries@.take(i + 1) =~= entries@.take(i as int).push(entries@[i as int]));
            lemma_sum_by_push(entries@.take(i as int), entries@[i as int], team_size());
            lemma_sum_by_prefix(entries@, i + 1, team_size());
        }
        let entry = &entries[i];
        let (lower, population) = match loadout_levels(&entry.loadouts) {
            Some(below) => below,
            None => return None,
        };
        if population > PopulationAmount::MAX - total {
            return None;
        }
        levels.push(
            GenericPopulationLevel {
                level_id: ValidPopulationLevel::Team(Some(entry.team_id)),
                full_level_data: None,
                population,
                lower_levels: Some(lower),
            },
        );
        total = total + population;
        i = i + 1;
    }
    proof {
        assert(entries@.take(i as int) =~= entries@);
    }
    Some((levels, total))
}

fn zone_levels(entries: &ZoneBreakdown) -> (r: Option<
    (Vec<GenericPopulationLevel>, PopulationAmount),
>)
    ensures
        r is Some <==> zones_total(entries@) <= PopulationAmount::MAX,
        r matches Some((levels, total)) ==> shows_zones(levels@, entries@) && total == zones_total(
            entries@,
        ),
{
    let mut levels: Vec<GenericPopulationLevel> = Vec::new();
    let mut total: PopulationAmount = 0;
    let mut i: usize = 0;
    proof {
        assert(entries@.take(0) =~= Seq::empty());
    }
    while i < entries.len()
        invariant
            i <= entries.len(),
            shows_zones(levels@, entries@.take(i as int)),
            total == zones_total(entries@.take(i as int)),
        decreases entries.len() - i,
    {
        proof {
            assert(entries@.take(i + 1) =~= entries@.take(i as int).push(entries@[i as int]));
            lemma_sum_by_push(entries@.take(i as int), entries@[i as int], zone_size());
            lemma_sum_by_prefix(entries@, i + 1, zone_size());
        }
        let entry = &entries[i];
        let (lower, population) = match team_levels(&entry.teams) {
            Some(below) => below,
            None => return None,
        };
        if population > PopulationAmount::MAX - total {
            return None;
        }
        levels.push(
            GenericPopulationLevel {
                level_id: ValidPopulationLevel::Zone(Some(entry.zone_id)),
                full_level_data: None,
                population,
                lower_levels: Some(lower),
            },
        );
        total = total + population;
        i = i + 1;
    }
    proof {
        assert(entries@.take(i as int) =~= entries@);
    }
    Some((levels, total))
}

/// Lays out the worlds of a tree whose head count an amount can hold, and
/// leaves the others out.
fn world_levels(entries: &WorldBreakdown) -> (levels: Vec<GenericPopulationLevel>)
    ensures
        shows_worlds(levels@, worlds_that_fit(entries@)),
{
    let mut levels: Vec<GenericPopulationLevel> = Vec::new();
    let mut i: usize = 0;
    proof {
        assert(entries@.take(0) =~= Seq::empty());
    }
    while i < entries.len()
        invariant
            i <= entries.len(),
            shows_worlds(levels@, worlds_that_fit(entries@.take(i as int))),
        decreases entries.len() - i,
    {
        proof {
            assert(entries@.take(i + 1).drop_last() =~= entries@.take(i as int));
            assert(entries@.take(i + 1).last() == entries@[i as int]);
        }
        let entry = &entries[i];
        match zone_levels(&entry.zones) {
            Some((lower, population)) => {
                levels.push(
                    GenericPopulationLevel {
                        level_id: ValidPopulationLevel::World(Some(entry.world_id)),
                        full_level_data: None,
                        population,
                        lower_levels: Some(lower),
                    },
                );
            },
            None => {},
        }
        i = i + 1;
    }
    proof {
        assert(entries@.take(i as int) =~= entries@);
    }
    levels
}

/// Lays a population tree out as it is handed out: every node with the head
/// count of all that is below it. The head count of each world has to fit
/// an amount; the worlds together may count more.
pub fn build_tree(entries: &WorldBreakdown) -> (levels: Vec<GenericPopulationLevel>)
    requires
        worlds_fit(entries@),
    ensures
        shows_worlds(levels@, entries@),
{
    proof {
        lemma_all_worlds_fit(entries@);
    }
    world_levels(entries)
}

/// Lays a stored population out as it is handed out, under the time it was
/// stored at.
pub fn get_pop_worlds_from_world_breakdown(population: PopBreakdown) -> (response:
    PopulationApiResponse)
    requires
        worlds_fit(population.worlds@),
    ensures
        response.timestamp == population.timestamp,
        shows_worlds(response.worlds@, population.worlds@),
{
    let worlds = build_tree(&population.worlds);
    PopulationApiResponse { timestamp: population.timestamp, worlds }
}

/// Whether `levels` hand out the current population among `rows`: some
/// well-formed tree has, at every leaf, the head count that the current
/// rows give it, and `levels` hand out the worlds of that tree whose head
/// count an amount can hold.
pub open spec fn shows_revision(
    levels: Seq<GenericPopulationLevel>,
    rows: Seq<DbResponse>,
) -> bool {
    exists|worlds: Seq<WorldPopulation>|
        {
            &&& #[trigger] shows_worlds(levels, worlds_that_fit(worlds))
            &&& read_from(worlds, rows)
        }
}

/// Builds what is handed out of a stored revision from its rows; nothing
/// where there are no rows. Every node carries the sum of what is below it.
/// A world that counts more than an amount holds cannot be handed out and is
/// left out; where every world fits, the whole tree is handed out.
pub fn get_current_tree(population: &Vec<DbResponse>) -> (r: Option<PopulationApiResponse>)
    ensures
        r is None <==> population@.len() == 0,
        r matches Some(response) ==> {
            &&& response.timestamp == population@[0].timestamp
            &&& shows_revision(response.worlds@, population@)
        },
{
    match get_current_as_hashmap_tree(population) {
        Some(breakdown) => {
            let worlds = world_levels(&breakdown.worlds);
            assert(shows_worlds(worlds@, worlds_that_fit(breakdown.worlds@)));
            Some(PopulationApiResponse { timestamp: breakdown.timestamp, worlds })
        },
        None => None,
    }
}

} // verus!
