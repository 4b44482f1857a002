//! Which nodes a population tree lists, and why the head counts say so.
//!
//! A well-formed tree lists a node exactly where it counts at least one
//! character below it. Two well-formed trees that count the same at every
//! leaf therefore list the same nodes: they are the same tree, but for the
//! order of their entries.
use crate::census::constants::{Loadout, TeamID, WorldID, ZoneID};
use crate::controllers::population::{
    loadout_weight, loadouts_amount, loadouts_wf, team_weight, teams_amount, teams_wf,
    world_weight, worlds_amount, worlds_wf, zone_weight, zones_amount, zones_wf,
    LoadoutPopulation, TeamPopulation, TreePosition, WorldPopulation, ZonePopulation,
};
use crate::utils::{lemma_sum_by_member, lemma_sum_by_positive};
use vstd::prelude::*;

verus! {

/// Whether a team's list has an entry for `loadout`.
pub open spec fn lists_loadout(s: Seq<LoadoutPopulation>, loadout: Loadout) -> bool {
    exists|i: int| 0 <= i < s.len() && (#[trigger] s[i]).loadout_id == loadout
}

/// Whether a zone's list has an entry for `team`.
pub open spec fn lists_team(s: Seq<TeamPopulation>, team: TeamID) -> bool {
    exists|i: int| 0 <= i < s.len() && (#[trigger] s[i]).team_id == team
}

/// Whether a zone's list has an entry for `loadout` under `team`.
pub open spec fn lists_team_loadout(
    s: Seq<TeamPopulation>,
    team: TeamID,
    loadout: Loadout,
) -> bool {
    exists|i: int|
        0 <= i < s.len() && (#[trigger] s[i]).team_id == team && lists_loadout(
            s[i].loadouts@,
            loadout,
        )
}

/// Whether a world's list has an entry for `zone`.
pub open spec fn lists_zone(s: Seq<ZonePopulation>, zone: ZoneID) -> bool {
    exists|i: int| 0 <= i < s.len() && (#[trigger] s[i]).zone_id == zone
}

/// Whether a world's list has an entry for `team` under `zone`.
pub open spec fn lists_zone_team(s: Seq<ZonePopulation>, zone: ZoneID, team: TeamID) -> bool {
    exists|i: int|
        0 <= i < s.len() && (#[trigger] s[i]).zone_id == zone && lists_team(s[i].teams@, team)
}

/// Whether a world's list has an entry for `loadout` under `team` under
/// `zone`.
pub open spec fn lists_zone_leaf(
    s: Seq<ZonePopulation>,
    zone: ZoneID,
    team: TeamID,
    loadout: Loadout,
) -> bool {
    exists|i: int|
        0 <= i < s.len() && (#[trigger] s[i]).zone_id == zone && lists_team_loadout(
            s[i].teams@,
            team,
            loadout,
        )
}

/// Whether the tree lists the world `world`.
pub open spec fn lists_world(tree: Seq<WorldPopulation>, world: WorldID) -> bool {
    exists|i: int| 0 <= i < tree.len() && (#[trigger] tree[i]).world_id == world
}

/// Whether the tree lists the zone `zone` of the world `world`.
pub open spec fn lists_world_zone(
    tree: Seq<WorldPopulation>,
    world: WorldID,
    zone: ZoneID,
) -> bool {
    exists|i: int|
        0 <= i < tree.len() && (#[trigger] tree[i]).world_id == world && lists_zone(
            tree[i].zones@,
            zone,
        )
}

/// Whether the tree lists the team `team` in the zone `zone` of the world
/// `world`.
pub open spec fn lists_world_team(
    tree: Seq<WorldPopulation>,
    world: WorldID,
    zone: ZoneID,
    team: TeamID,
) -> bool {
    exists|i: int|
        0 <= i < tree.len() && (#[trigger] tree[i]).world_id == world && lists_zone_team(
            tree[i].zones@,
            zone,
            team,
        )
}

/// Whether the tree lists the leaf at `position`.
pub open spec fn lists_leaf(tree: Seq<WorldPopulation>, position: TreePosition) -> bool {
    exists|i: int|
        0 <= i < tree.len() && (#[trigger] tree[i]).world_id == position.world
            && lists_zone_leaf(tree[i].zones@, position.zone, position.team, position.loadout)
}

/// Whether the tree counts a character in the world `world`.
pub open spec fn counts_in_world(tree: Seq<WorldPopulation>, world: WorldID) -> bool {
    exists|p: TreePosition| p.world == world && #[trigger] worlds_amount(tree, p) > 0
}

/// Whether the tree counts a character in the zone `zone` of the world
/// `world`.
pub open spec fn counts_in_zone(tree: Seq<WorldPopulation>, world: WorldID, zone: ZoneID) -> bool {
    exists|p: TreePosition|
        p.world == world && p.zone == zone && #[trigger] worlds_amount(tree, p) > 0
}

/// Whether the tree counts a character of the team `team` in the zone `zone`
/// of the world `world`.
pub open spec fn counts_in_team(
    tree: Seq<WorldPopulation>,
    world: WorldID,
    zone: ZoneID,
    team: TeamID,
) -> bool {
    exists|p: TreePosition|
        p.world == world && p.zone == zone && p.team == team && #[trigger] worlds_amount(tree, p)
            > 0
}

proof fn lemma_loadout_listed(s: Seq<LoadoutPopulation>, loadout: Loadout)
    requires
        loadouts_wf(s),
    ensures
        lists_loadout(s, loadout) <==> loadouts_amount(s, loadout) > 0,
{
    if lists_loadout(s, loadout) {
        let i = choose|i: int| 0 <= i < s.len() && (#[trigger] s[i]).loadout_id == loadout;
        lemma_sum_by_member(s, i, loadout_weight(loadout));
    }
    if loadouts_amount(s, loadout) > 0 {
        let i = lemma_sum_by_positive(s, loadout_weight(loadout));
        assert(s[i].loadout_id == loadout);
    }
}

proof fn lemma_team_leaf_listed(s: Seq<TeamPopulation>, team: TeamID, loadout: Loadout)
    requires
        teams_wf(s),
    ensures
        lists_team_loadout(s, team, loadout) <==> teams_amount(s, team, loadout) > 0,
{
    if lists_team_loadout(s, team, loadout) {
        let i = choose|i: int|
            0 <= i < s.len() && (#[trigger] s[i]).team_id == team && lists_loadout(
                s[i].loadouts@,
                loadout,
            );
        lemma_loadout_listed(s[i].loadouts@, loadout);
        lemma_sum_by_member(s, i, team_weight(team, loadout));
    }
    if teams_amount(s, team, loadout) > 0 {
        let i = lemma_sum_by_positive(s, team_weight(team, loadout));
        lemma_loadout_listed(s[i].loadouts@, loadout);
        assert(s[i].team_id == team && lists_loadout(s[i].loadouts@, loadout));
    }
}

proof fn lemma_team_listed(s: Seq<TeamPopulation>, team: TeamID)
    requires
        teams_wf(s),
    ensures
        lists_team(s, team) <==> exists|loadout: Loadout| #[trigger]
            teams_amount(s, team, loadout) > 0,
{
    if lists_team(s, team) {
        let i = choose|i: int| 0 <= i < s.len() && (#[trigger] s[i]).team_id == team;
        let first = s[i].loadouts@[0];
        assert(lists_loadout(s[i].loadouts@, first.loadout_id));
        assert(lists_team_loadout(s, team, first.loadout_id));
        lemma_team_leaf_listed(s, team, first.loadout_id);
        assert(teams_amount(s, team, first.loadout_id) > 0);
    }
    if exists|loadout: Loadout| #[trigger] teams_amount(s, team, loadout) > 0 {
        let loadout = choose|loadout: Loadout| #[trigger] teams_amount(s, team, loadout) > 0;
        let i = lemma_sum_by_positive(s, team_weight(team, loadout));
        assert(s[i].team_id == team);
    }
}

proof fn lemma_zone_leaf_listed(
    s: Seq<ZonePopulation>,
    zone: ZoneID,
    team: TeamID,
    loadout: Loadout,
)
    requires
        zones_wf(s),
    ensures
        lists_zone_leaf(s, zone, team, loadout) <==> zones_amount(s, zone, team, loadout) > 0,
{
    if lists_zone_leaf(s, zone, team, loadout) {
        let i = choose|i: int|
            0 <= i < s.len() && (#[trigger] s[i]).zone_id == zone && lists_team_loadout(
                s[i].teams@,
                team,
                loadout,
            );
        lemma_team_leaf_listed(s[i].teams@, team, loadout);
        lemma_sum_by_member(s, i, zone_weight(zone, team, loadout));
    }
    if zones_amount(s, zone, team, loadout) > 0 {
        let i = lemma_sum_by_positive(s, zone_weight(zone, team, loadout));
        lemma_team_leaf_listed(s[i].teams@, team, loadout);
        assert(s[i].zone_id == zone && lists_team_loadout(s[i].teams@, team, loadout));
    }
}

proof fn lemma_zone_team_listed(s: Seq<ZonePopulation>, zone: ZoneID, team: TeamID)
    requires
        zones_wf(s),
    ensures
        lists_zone_team(s, zone, team) <==> exists|loadout: Loadout| #[trigger]
            zones_amount(s, zone, team, loadout) > 0,
{
    if lists_zone_team(s, zone, team) {
        let i = choose|i: int|
            0 <= i < s.len() && (#[trigger] s[i]).zone_id == zone && lists_team(s[i].teams@, team);
        lemma_team_listed(s[i].teams@, team);
        let loadout = choose|loadout: Loadout| #[trigger]
            teams_amount(s[i].teams@, team, loadout) > 0;
        lemma_sum_by_member(s, i, zone_weight(zone, team, loadout));
        assert(zones_amount(s, zone, team, loadout) > 0);
    }
    if exists|loadout: Loadout| #[trigger] zones_amount(s, zone, team, loadout) > 0 {
        let loadout = choose|loadout: Loadout| #[trigger]
            zones_amount(s, zone, team, loadout) > 0;
        let i = lemma_sum_by_positive(s, zone_weight(zone, team, loadout));
        assert(teams_amount(s[i].teams@, team, loadout) > 0);
        lemma_team_listed(s[i].teams@, team);
        assert(s[i].zone_id == zone && lists_team(s[i].teams@, team));
    }
}

proof fn lemma_zone_listed(s: Seq<ZonePopulation>, zone: ZoneID)
    requires
        zones_wf(s),
    ensures
        lists_zone(s, zone) <==> exists|team: TeamID, loadout: Loadout| #[trigger]
            zones_amount(s, zone, team, loadout) > 0,
{
    if lists_zone(s, zone) {
        let i = choose|i: int| 0 <= i < s.len() && (#[trigger] s[i]).zone_id == zone;
        let first = s[i].teams@[0];
        assert(lists_team(s[i].teams@, first.team_id));
        assert(lists_zone_team(s, zone, first.team_id));
        lemma_zone_team_listed(s, zone, first.team_id);
        let loadout = choose|loadout: Loadout| #[trigger]
            zones_amount(s, zone, first.team_id, loadout) > 0;
        assert(zones_amount(s, zone, first.team_id, loadout) > 0);
    }
    if exists|team: TeamID, loadout: Loadout| #[trigger]
        zones_amount(s, zone, team, loadout) > 0 {
        let (team, loadout) = choose|team: TeamID, loadout: Loadout| #[trigger]
            zones_amount(s, zone, team, loadout) > 0;
        let i = lemma_sum_by_positive(s, zone_weight(zone, team, loadout));
        assert(s[i].zone_id == zone);
    }
}

/// A well-formed tree lists a leaf exactly where it counts a character at
/// it.
pub proof fn lemma_leaf_listed(tree: Seq<WorldPopulation>, position: TreePosition)
    requires
        worlds_wf(tree),
    ensures
        lists_leaf(tree, position) <==> worlds_amount(tree, position) > 0,
{
    if lists_leaf(tree, position) {
        let i = choose|i: int|
            0 <= i < tree.len() && (#[trigger] tree[i]).world_id == position.world
                && lists_zone_leaf(
                tree[i].zones@,
                position.zone,
                position.team,
                position.loadout,
            );
        lemma_zone_leaf_listed(tree[i].zones@, position.zone, position.team, position.loadout);
        lemma_sum_by_member(tree, i, world_weight(position));
    }
    if worlds_amount(tree, position) > 0 {
        let i = lemma_sum_by_positive(tree, world_weight(position));
        lemma_zone_leaf_listed(tree[i].zones@, position.zone, position.team, position.loadout);
        assert(tree[i].world_id == position.world && lists_zone_leaf(
            tree[i].zones@,
            position.zone,
            position.team,
            position.loadout,
        ));
    }
}

/// A well-formed tree lists a team exactly where it counts a character of
/// it.
pub proof fn lemma_world_team_listed(
    tree: Seq<WorldPopulation>,
    world: WorldID,
    zone: ZoneID,
    team: TeamID,
)
    requires
        worlds_wf(tree),
    ensures
        lists_world_team(tree, world, zone, team) <==> counts_in_team(tree, world, zone, team),
{
    if lists_world_team(tree, world, zone, team) {
        let i = choose|i: int|
            0 <= i < tree.len() && (#[trigger] tree[i]).world_id == world && lists_zone_team(
                tree[i].zones@,
                zone,
                team,
            );
        lemma_zone_team_listed(tree[i].zones@, zone, team);
        let loadout = choose|loadout: Loadout| #[trigger]
            zones_amount(tree[i].zones@, zone, team, loadout) > 0;
        let p = TreePosition { world, zone, team, loadout };
        lemma_sum_by_member(tree, i, world_weight(p));
        assert(worlds_amount(tree, p) > 0);
    }
    if counts_in_team(tree, world, zone, team) {
        let p = choose|p: TreePosition|
            p.world == world && p.zone == zone && p.team == team && #[trigger] worlds_amount(
                tree,
                p,
            ) > 0;
        let i = lemma_sum_by_positive(tree, world_weight(p));
        assert(zones_amount(tree[i].zones@, zone, team, p.loadout) > 0);
        lemma_zone_team_listed(tree[i].zones@, zone, team);
        assert(tree[i].world_id == world && lists_zone_team(tree[i].zones@, zone, team));
    }
}

/// A well-formed tree lists a zone exactly where it counts a character in
/// it.
pub proof fn lemma_world_zone_listed(tree: Seq<WorldPopulation>, world: WorldID, zone: ZoneID)
    requires
        worlds_wf(tree),
    ensures
        lists_world_zone(tree, world, zone) <==> counts_in_zone(tree, world, zone),
{
    if lists_world_zone(tree, world, zone) {
        let i = choose|i: int|
            0 <= i < tree.len() && (#[trigger] tree[i]).world_id == world && lists_zone(
                tree[i].zones@,
                zone,
            );
        lemma_zone_listed(tree[i].zones@, zone);
        let (team, loadout) = choose|team: TeamID, loadout: Loadout| #[trigger]
            zones_amount(tree[i].zones@, zone, team, loadout) > 0;
        let p = TreePosition { world, zone, team, loadout };
        lemma_sum_by_member(tree, i, world_weight(p));
        assert(worlds_amount(tree, p) > 0);
    }
    if counts_in_zone(tree, world, zone) {
        let p = choose|p: TreePosition|
            p.world == world && p.zone == zone && #[trigger] worlds_amount(tree, p) > 0;
        let i = lemma_sum_by_positive(tree, world_weight(p));
        assert(zones_amount(tree[i].zones@, zone, p.team, p.loadout) > 0);
        lemma_zone_listed(tree[i].zones@, zone);
        assert(tree[i].world_id == world && lists_zone(tree[i].zones@, zone));
    }
}

/// A well-formed tree lists a world exactly where it counts a character in
/// it.
pub proof fn lemma_world_listed(tree: Seq<WorldPopulation>, world: WorldID)
    requires
        worlds_wf(tree),
    ensures
        lists_world(tree, world) <==> counts_in_world(tree, world),
{
    if lists_world(tree, world) {
        let i = choose|i: int| 0 <= i < tree.len() && (#[trigger] tree[i]).world_id == world;
        let first = tree[i].zones@[0];
        assert(lists_zone(tree[i].zones@, first.zone_id));
        assert(lists_world_zone(tree, world, first.zone_id));
        lemma_world_zone_listed(tree, world, first.zone_id);
        let p = choose|p: TreePosition|
            p.world == world && p.zone == first.zone_id && #[trigger] worlds_amount(tree, p) > 0;
        assert(worlds_amount(tree, p) > 0);
    }
    if counts_in_world(tree, world) {
        let p = choose|p: TreePosition| p.world == world && #[trigger] worlds_amount(tree, p) > 0;
        let i = lemma_sum_by_positive(tree, world_weight(p));
        assert(tree[i].world_id == world);
    }
}

/// Two well-formed trees that count the same at every leaf list the same
/// worlds, zones, teams and leaves.
pub proof fn lemma_same_amounts_same_nodes(
    first: Seq<WorldPopulation>,
    second: Seq<WorldPopulation>,
)
    requires
        worlds_wf(first),
        worlds_wf(second),
        forall|p: TreePosition| #[trigger] worlds_amount(first, p) == worlds_amount(second, p),
    ensures
        forall|world: WorldID| #[trigger]
            lists_world(first, world) <==> lists_world(second, world),
        forall|world: WorldID, zone: ZoneID| #[trigger]
            lists_world_zone(first, world, zone) <==> lists_world_zone(second, world, zone),
        forall|world: WorldID, zone: ZoneID, team: TeamID| #[trigger]
            lists_world_team(first, world, zone, team) <==> lists_world_team(
                second,
                world,
                zone,
                team,
            ),
        forall|p: TreePosition| #[trigger] lists_leaf(first, p) <==> lists_leaf(second, p),
{
    assert forall|world: WorldID| #[trigger]
        lists_world(first, world) <==> lists_world(second, world) by {
        lemma_world_listed(first, world);
        lemma_world_listed(second, world);
        if counts_in_world(first, world) {
            let p = choose|p: TreePosition|
                p.world == world && #[trigger] worlds_amount(first, p) > 0;
            assert(worlds_amount(second, p) > 0);
        }
        if counts_in_world(second, world) {
            let p = choose|p: TreePosition|
                p.world == world && #[trigger] worlds_amount(second, p) > 0;
            assert(worlds_amount(first, p) > 0);
        }
    }
    assert forall|world: WorldID, zone: ZoneID| #[trigger]
        lists_world_zone(first, world, zone) <==> lists_world_zone(second, world, zone) by {
        lemma_world_zone_listed(first, world, zone);
        lemma_world_zone_listed(second, world, zone);
        if counts_in_zone(first, world, zone) {
            let p = choose|p: TreePosition|
                p.world == world && p.zone == zone && #[trigger] worlds_amount(first, p) > 0;
            assert(worlds_amount(second, p) > 0);
        }
        if counts_in_zone(second, world, zone) {
            let p = choose|p: TreePosition|
                p.world == world && p.zone == zone && #[trigger] worlds_amount(second, p) > 0;
            assert(worlds_amount(first, p) > 0);
        }
    }
    assert forall|world: WorldID, zone: ZoneID, team: TeamID| #[trigger]
        lists_world_team(first, world, zone, team) <==> lists_world_team(
            second,
            world,
            zone,
            team,
        ) by {
        lemma_world_team_listed(first, world, zone, team);
        lemma_world_team_listed(second, world, zone, team);
        if counts_in_team(first, world, zone, team) {
            let p = choose|p: TreePosition|
                p.world == world && p.zone == zone && p.team == team && #[trigger] worlds_amount(
                    first,
                    p,
                ) > 0;
            assert(worlds_amount(second, p) > 0);
        }
        if counts_in_team(second, world, zone, team) {
            let p = choose|p: TreePosition|
                p.world == world && p.zone == zone && p.team == team && #[trigger] worlds_amount(
                    second,
                    p,
                ) > 0;
            assert(worlds_amount(first, p) > 0);
        }
    }
    assert forall|p: TreePosition| #[trigger] lists_leaf(first, p) <==> lists_leaf(second, p) by {
        lemma_leaf_listed(first, p);
        lemma_leaf_listed(second, p);
    }
}

} // verus!
