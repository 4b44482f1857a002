//! What the store gives back of a revision that was written to it, and why
//! that is the tree that was written.
//!
//! The store is modelled by what a query over a revision's tables returns
//! once the steps of the revision have all been carried out: one row for
//! each leaf, carrying the numbers of the world, zone and team rows that
//! the leaf's row hangs under.
use crate::active_players::{
    loadout_insert, loadout_inserts, revision_inserts, team_inserts, world_inserts, zone_inserts,
    Insert,
};
use crate::census::constants::{TeamID, WorldID, ZoneID};
use crate::census::event::Timestamp;
use crate::controllers::nodes::{
    lemma_same_amounts_same_nodes, lists_leaf, lists_world, lists_world_team, lists_world_zone,
};
use crate::controllers::population::{
    is_current, lemma_current_of_current, lemma_leaf_fits, lemma_rows_that_fit,
    loadouts_amount, loadouts_total, read_from, row_amount, row_position, row_size, row_weight,
    rows_amount, rows_total, teams_amount, teams_total, worlds_amount, worlds_total, worlds_wf,
    zones_amount, zones_total, DbResponse, LoadoutPopulation, TeamPopulation, TreePosition,
    WorldPopulation, ZonePopulation,
};
use crate::utils::{lemma_sum_by_any_order, lemma_sum_by_concat, lemma_sum_by_push, sum_by};
use vstd::prelude::*;

verus! {

/// The row that opens a revision: the number that the store gave it, and the
/// time it was written at.
pub struct Revision {
    pub population_id: i32,
    pub timestamp: Timestamp,
}

/// The rows that the next steps hang under: the numbers that the last world,
/// zone and team steps wrote.
pub struct Cursor {
    pub world_id: i32,
    pub zone_id: i64,
    pub team_id: i32,
}

/// Where the cursor stands once the steps of `plan` have been carried out
/// from `start`.
pub open spec fn cursor_after(plan: Seq<Insert>, start: Cursor) -> Cursor
    decreases plan.len(),
{
    if plan.len() == 0 {
        start
    } else {
        let at = cursor_after(plan.drop_last(), start);
        match plan.last() {
            Insert::World { world_id } => Cursor {
                world_id,
                zone_id: at.zone_id,
                team_id: at.team_id,
            },
            Insert::Zone { zone_id } => Cursor {
                world_id: at.world_id,
                zone_id,
                team_id: at.team_id,
            },
            Insert::Team { team_id } => Cursor {
                world_id: at.world_id,
                zone_id: at.zone_id,
                team_id,
            },
            _ => at,
        }
    }
}

/// The row that a leaf step leaves in the store when it is carried out at
/// `at`. The store keeps a zone's number in 32 bits.
pub open spec fn leaf_row(
    at: Cursor,
    loadout_id: i32,
    amount: i32,
    revision: Revision,
) -> DbResponse {
    DbResponse {
        timestamp: revision.timestamp,
        population_id: revision.population_id,
        world_id: at.world_id,
        zone_id: at.zone_id as i32,
        team_id: at.team_id,
        loadout_id,
        amount,
    }
}

/// The rows that the steps of `plan`, carried out from `start`, leave in the
/// store, in the order in which they were written.
pub open spec fn rows_after(plan: Seq<Insert>, start: Cursor, revision: Revision) -> Seq<
    DbResponse,
>
    decreases plan.len(),
{
    if plan.len() == 0 {
        Seq::empty()
    } else {
        let rows = rows_after(plan.drop_last(), start, revision);
        match plan.last() {
            Insert::Loadout { loadout_id, amount } => rows.push(
                leaf_row(cursor_after(plan.drop_last(), start), loadout_id, amount, revision),
            ),
            _ => rows,
        }
    }
}

/// The rows that a whole revision leaves in the store when it is written
/// under the row `revision`.
pub open spec fn stored_rows(plan: Seq<Insert>, revision: Revision) -> Seq<DbResponse> {
    rows_after(plan, Cursor { world_id: 0, zone_id: 0, team_id: 0 }, revision)
}

/// Whether the store can keep the number of every zone of the tree.
pub open spec fn zones_storable(tree: Seq<WorldPopulation>) -> bool {
    forall|i: int, j: int|
        0 <= i < tree.len() && 0 <= j < tree[i].zones@.len() ==> (
        #[trigger] tree[i].zones@[j]).zone_id.0 <= i32::MAX
}

/// Steps carried out one run after another leave the rows of the first run,
/// then those of the second run begun where the first left the cursor.
pub proof fn lemma_steps_concat(
    first: Seq<Insert>,
    second: Seq<Insert>,
    start: Cursor,
    revision: Revision,
)
    ensures
        cursor_after(first + second, start) == cursor_after(second, cursor_after(first, start)),
        rows_after(first + second, start, revision) == rows_after(first, start, revision)
            + rows_after(second, cursor_after(first, start), revision),
    decreases second.len(),
{
    if second.len() == 0 {
        assert(first + second =~= first);
        assert(rows_after(first, start, revision) + Seq::<DbResponse>::empty() =~= rows_after(
            first,
            start,
            revision,
        ));
    } else {
        let rest = second.drop_last();
        lemma_steps_concat(first, rest, start, revision);
        assert((first + second).drop_last() =~= first + rest);
        assert((first + second).last() == second.last());
        let rows_first = rows_after(first, start, revision);
        let rows_rest = rows_after(rest, cursor_after(first, start), revision);
        match second.last() {
            Insert::Loadout { loadout_id, amount } => {
                let row = leaf_row(
                    cursor_after(rest, cursor_after(first, start)),
                    loadout_id,
                    amount,
                    revision,
                );
                assert((rows_first + rows_rest).push(row) =~= rows_first + rows_rest.push(row));
            },
            _ => {},
        }
    }
}

proof fn lemma_step_pushed(plan: Seq<Insert>, step: Insert)
    ensures
        plan.push(step).drop_last() == plan,
        plan.push(step).last() == step,
{
    assert(plan.push(step).drop_last() =~= plan);
}

proof fn lemma_loadout_rows(
    entries: Seq<LoadoutPopulation>,
    start: Cursor,
    revision: Revision,
    world: WorldID,
    zone: ZoneID,
    team: TeamID,
    position: TreePosition,
)
    requires
        start.world_id == world.spec_id(),
        start.zone_id == zone.0,
        start.team_id == team.spec_id(),
        zone.0 <= i32::MAX,
    ensures
        cursor_after(loadout_inserts(entries), start) == start,
        sum_by(rows_after(loadout_inserts(entries), start, revision), row_size())
            == loadouts_total(entries),
        sum_by(rows_after(loadout_inserts(entries), start, revision), row_weight(position)) == (
        if position.world == world && position.zone == zone && position.team == team {
            loadouts_amount(entries, position.loadout)
        } else {
            0
        }),
    decreases entries.len(),
{
    if entries.len() > 0 {
        let rest = entries.drop_last();
        let entry = entries.last();
        lemma_loadout_rows(rest, start, revision, world, zone, team, position);
        let plan = loadout_inserts(rest);
        lemma_step_pushed(plan, loadout_insert(entry));
        let rows = rows_after(plan, start, revision);
        let row = leaf_row(
            start,
            entry.loadout_id.spec_id() as i32,
            entry.amount as i32,
            revision,
        );
        assert(rows_after(loadout_inserts(entries), start, revision) == rows.push(row));
        assert(row_position(row) == Some(
            TreePosition { world, zone, team, loadout: entry.loadout_id },
        ));
        assert(row_amount(row) == entry.amount);
        lemma_sum_by_push(rows, row, row_size());
        lemma_sum_by_push(rows, row, row_weight(position));
    }
}

proof fn lemma_team_rows(
    entries: Seq<TeamPopulation>,
    start: Cursor,
    revision: Revision,
    world: WorldID,
    zone: ZoneID,
    position: TreePosition,
)
    requires
        start.world_id == world.spec_id(),
        start.zone_id == zone.0,
        zone.0 <= i32::MAX,
    ensures
        cursor_after(team_inserts(entries), start).world_id == start.world_id,
        cursor_after(team_inserts(entries), start).zone_id == start.zone_id,
        sum_by(rows_after(team_inserts(entries), start, revision), row_size()) == teams_total(
            entries,
        ),
        sum_by(rows_after(team_inserts(entries), start, revision), row_weight(position)) == (
        if position.world == world && position.zone == zone {
            teams_amount(entries, position.team, position.loadout)
        } else {
            0
        }),
    decreases entries.len(),
{
    if entries.len() > 0 {
        let rest = entries.drop_last();
        let entry = entries.last();
        lemma_team_rows(rest, start, revision, world, zone, position);
        let step = Insert::Team { team_id: entry.team_id.spec_id() as i32 };
        let head = team_inserts(rest).push(step);
        let below = loadout_inserts(entry.loadouts@);
        lemma_step_pushed(team_inserts(rest), step);
        lemma_steps_concat(head, below, start, revision);
        let at = cursor_after(head, start);
        lemma_loadout_rows(entry.loadouts@, at, revision, world, zone, entry.team_id, position);
        let rows_head = rows_after(head, start, revision);
        let rows_below = rows_after(below, at, revision);
        assert(rows_head == rows_after(team_inserts(rest), start, revision));
        lemma_sum_by_concat(rows_head, rows_below, row_size());
        lemma_sum_by_concat(rows_head, rows_below, row_weight(position));
    }
}

proof fn lemma_zone_rows(
    entries: Seq<ZonePopulation>,
    start: Cursor,
    revision: Revision,
    world: WorldID,
    position: TreePosition,
)
    requires
        start.world_id == world.spec_id(),
        forall|j: int| 0 <= j < entries.len() ==> (#[trigger] entries[j]).zone_id.0 <= i32::MAX,
    ensures
        cursor_after(zone_inserts(entries), start).world_id == start.world_id,
        sum_by(rows_after(zone_inserts(entries), start, revision), row_size()) == zones_total(
            entries,
        ),
        sum_by(rows_after(zone_inserts(entries), start, revision), row_weight(position)) == (
        if position.world == world {
            zones_amount(entries, position.zone, position.team, position.loadout)
        } else {
            0
        }),
    decreases entries.len(),
{
    if entries.len() > 0 {
        let rest = entries.drop_last();
        let entry = entries.last();
        assert forall|j: int| 0 <= j < rest.len() implies (#[trigger] rest[j]).zone_id.0
            <= i32::MAX by {
            assert(rest[j] == entries[j]);
        }
        assert(entry == entries[entries.len() - 1]);
        lemma_zone_rows(rest, start, revision, world, position);
        let step = Insert::Zone { zone_id: entry.zone_id.0 as i64 };
        let head = zone_inserts(rest).push(step);
        let below = team_inserts(entry.teams@);
        lemma_step_pushed(zone_inserts(rest), step);
        lemma_steps_concat(head, below, start, revision);
        let at = cursor_after(head, start);
        lemma_team_rows(entry.teams@, at, revision, world, entry.zone_id, position);
        let rows_head = rows_after(head, start, revision);
        let rows_below = rows_after(below, at, revision);
        assert(rows_head == rows_after(zone_inserts(rest), start, revision));
        lemma_sum_by_concat(rows_head, rows_below, row_size());
        lemma_sum_by_concat(rows_head, rows_below, row_weight(position));
    }
}

proof fn lemma_world_rows(
    entries: Seq<WorldPopulation>,
    start: Cursor,
    revision: Revision,
    position: TreePosition,
)
    requires
        zones_storable(entries),
    ensures
        sum_by(rows_after(world_inserts(entries), start, revision), row_size()) == worlds_total(
            entries,
        ),
        sum_by(rows_after(world_inserts(entries), start, revision), row_weight(position))
            == worlds_amount(entries, position),
    decreases entries.len(),
{
    if entries.len() > 0 {
        let rest = entries.drop_last();
        let entry = entries.last();
        assert forall|i: int, j: int|
            0 <= i < rest.len() && 0 <= j < rest[i].zones@.len() implies (
        #[trigger] rest[i].zones@[j]).zone_id.0 <= i32::MAX by {
            assert(rest[i] == entries[i]);
        }
        assert(entry == entries[entries.len() - 1]);
        lemma_world_rows(rest, start, revision, position);
        let step = Insert::World { world_id: entry.world_id.spec_id() as i32 };
        let head = world_inserts(rest).push(step);
        let below = zone_inserts(entry.zones@);
        lemma_step_pushed(world_inserts(rest), step);
        lemma_steps_concat(head, below, start, revision);
        let at = cursor_after(head, start);
        lemma_zone_rows(entry.zones@, at, revision, entry.world_id, position);
        let rows_head = rows_after(head, start, revision);
        let rows_below = rows_after(below, at, revision);
        assert(rows_head == rows_after(world_inserts(rest), start, revision));
        lemma_sum_by_concat(rows_head, rows_below, row_size());
        lemma_sum_by_concat(rows_head, rows_below, row_weight(position));
    }
}

/// Every row that the steps of one revision leave carries the number of
/// that revision.
pub proof fn lemma_rows_of_one_revision(plan: Seq<Insert>, start: Cursor, revision: Revision)
    ensures
        forall|i: int|
            0 <= i < rows_after(plan, start, revision).len() ==> (#[trigger] rows_after(
                plan,
                start,
                revision,
            )[i]).population_id == revision.population_id,
    decreases plan.len(),
{
    let rows = rows_after(plan, start, revision);
    if plan.len() > 0 {
        let before = rows_after(plan.drop_last(), start, revision);
        lemma_rows_of_one_revision(plan.drop_last(), start, revision);
        assert forall|i: int| 0 <= i < rows.len() implies (#[trigger] rows[i]).population_id
            == revision.population_id by {
            if i < before.len() {
                assert(rows[i] == before[i]);
            }
        }
    }
}

/// The rows of a written revision count, at every leaf and in all, what
/// the tree counts that was written.
pub proof fn lemma_world_rows_of(
    tree: Seq<WorldPopulation>,
    revision: Revision,
    position: TreePosition,
)
    requires
        zones_storable(tree),
    ensures
        sum_by(stored_rows(revision_inserts(tree), revision), row_size()) == worlds_total(tree),
        sum_by(stored_rows(revision_inserts(tree), revision), row_weight(position))
            == worlds_amount(tree, position),
{
    let start = Cursor { world_id: 0, zone_id: 0, team_id: 0 };
    let nothing = Seq::<Insert>::empty();
    let opening = nothing.push(Insert::Population);
    assert(seq![Insert::Population] =~= opening);
    lemma_steps_concat(opening, world_inserts(tree), start, revision);
    lemma_step_pushed(nothing, Insert::Population);
    assert(rows_after(nothing, start, revision) =~= Seq::<DbResponse>::empty());
    assert(cursor_after(nothing, start) == start);
    assert(rows_after(opening, start, revision) =~= Seq::<DbResponse>::empty());
    assert(cursor_after(opening, start) == start);
    let rows = stored_rows(revision_inserts(tree), revision);
    assert(rows =~= rows_after(world_inserts(tree), start, revision));
    lemma_world_rows(tree, start, revision, position);
}

/// Writing and reading back keeps the tree. When the steps that write a
/// tree have all been carried out, the rows of that revision make a tree
/// with the same head count at every leaf and the same head count in all:
/// the tree that was written, but for the order of its entries. This holds
/// of every well-formed tree whose zones the store can keep, however many
/// characters it counts in all.
pub proof fn lemma_revision_round_trip(tree: Seq<WorldPopulation>, revision: Revision)
    requires
        worlds_wf(tree),
        zones_storable(tree),
    ensures
        rows_total(stored_rows(revision_inserts(tree), revision)) == worlds_total(tree),
        forall|position: TreePosition| #[trigger]
            rows_amount(stored_rows(revision_inserts(tree), revision), position)
                == worlds_amount(tree, position),
{
    let rows = stored_rows(revision_inserts(tree), revision);
    assert forall|position: TreePosition| #[trigger]
        sum_by(rows, row_weight(position)) <= u16::MAX by {
        lemma_world_rows_of(tree, revision, position);
        lemma_leaf_fits(tree, position);
    }
    lemma_rows_that_fit(rows);
    assert forall|position: TreePosition| #[trigger]
        rows_amount(rows, position) == worlds_amount(tree, position) by {
        lemma_world_rows_of(tree, revision, position);
    }
    lemma_world_rows_of(tree, revision, arbitrary::<TreePosition>());
}

/// What is read back is what was written, in whatever order the rows
/// come back. Let a well-formed tree whose zones the store can keep be
/// written as a revision, let `rows` be the rows of that revision in any
/// order, and let a tree be read from them. Then the two trees count the
/// same at every leaf and in all, and they list the same worlds, zones,
/// teams and leaves: they differ in the order of their entries at most.
pub proof fn lemma_read_back_is_same_tree(
    written: Seq<WorldPopulation>,
    revision: Revision,
    rows: Seq<DbResponse>,
    read: Seq<WorldPopulation>,
)
    requires
        worlds_wf(written),
        zones_storable(written),
        rows.to_multiset() == stored_rows(revision_inserts(written), revision).to_multiset(),
        read_from(read, rows),
    ensures
        worlds_total(read) == worlds_total(written),
        forall|position: TreePosition| #[trigger]
            worlds_amount(read, position) == worlds_amount(written, position),
        forall|world: WorldID| #[trigger] lists_world(read, world) <==> lists_world(written, world),
        forall|world: WorldID, zone: ZoneID| #[trigger]
            lists_world_zone(read, world, zone) <==> lists_world_zone(written, world, zone),
        forall|world: WorldID, zone: ZoneID, team: TeamID| #[trigger]
            lists_world_team(read, world, zone, team) <==> lists_world_team(
                written,
                world,
                zone,
                team,
            ),
        forall|position: TreePosition| #[trigger]
            lists_leaf(read, position) <==> lists_leaf(written, position),
{
    let stored = stored_rows(revision_inserts(written), revision);
    lemma_revision_round_trip(written, revision);
    lemma_rows_of_one_revision(
        revision_inserts(written),
        Cursor { world_id: 0, zone_id: 0, team_id: 0 },
        revision,
    );
    rows.to_multiset_ensures();
    stored.to_multiset_ensures();
    assert forall|i: int| 0 <= i < rows.len() implies is_current(rows, #[trigger] rows[i]) by {
        assert forall|j: int| 0 <= j < rows.len() implies (#[trigger] rows[j]).population_id
            == revision.population_id by {
            assert(rows.contains(rows[j]));
            assert(rows.to_multiset().count(rows[j]) > 0);
            assert(stored.to_multiset().count(rows[j]) > 0);
            assert(stored.contains(rows[j]));
            let k = choose|k: int| 0 <= k < stored.len() && stored[k] == rows[j];
            assert(stored[k].population_id == revision.population_id);
        }
    }
    lemma_current_of_current(rows, rows);
    assert forall|position: TreePosition| #[trigger]
        sum_by(rows, row_weight(position)) <= u16::MAX by {
        lemma_sum_by_any_order(rows, stored, row_weight(position));
        lemma_world_rows_of(written, revision, position);
        lemma_leaf_fits(written, position);
    }
    lemma_rows_that_fit(rows);
    assert forall|position: TreePosition| #[trigger]
        worlds_amount(read, position) == worlds_amount(written, position) by {
        lemma_sum_by_any_order(rows, stored, row_weight(position));
        lemma_world_rows_of(written, revision, position);
    }
    lemma_sum_by_any_order(rows, stored, row_size());
    lemma_world_rows_of(written, revision, arbitrary::<TreePosition>());
    lemma_same_amounts_same_nodes(read, written);
}

} // verus!
