//! The presence store: for every character that was active of late, where
//! it was last seen. Records that have not been touched for longer than the
//! idle threshold are swept out, and what is left is counted into a
//! population tree.
use crate::census::constants::{CharacterID, Faction, Loadout, WorldID, ZoneID};
use crate::census::event::{GainExperience, Timestamp};
use crate::controllers::population::{
    add_population, amount_at, lemma_leaf_fits, worlds_amount, worlds_total, worlds_wf,
    LoadoutBreakdown, LoadoutPopulation, PopulationAmount, TeamBreakdown, TeamPopulation,
    TreePosition, WorldBreakdown, WorldPopulation, ZoneBreakdown, ZonePopulation,
};
use crate::utils::{lemma_sum_by_prefix, lemma_sum_by_push, sum_by};
use std::collections::HashMap;
use vstd::prelude::*;
use vstd::std_specs::convert::FromSpecImpl;
use vstd::std_specs::hash::{group_hash_axioms, spec_hash_map_iter};
use vstd::std_specs::iter::IteratorSpec;

verus! {

/// After how many seconds without an event a character counts as gone.
pub const IDLE_THRESHOLD: i64 = 180;

/// How many seconds lie between two sweeps of the store.
pub const CLEAN_INTERVAL: u64 = 30;

/// How many seconds lie between two counts of the store.
pub const PROCESS_INTERVAL: u64 = 30;

/// Where a character was when it was last heard of, and when that was.
#[derive(Debug, Clone, Copy, PartialEq, Eq, Structural)]
pub struct ActivePlayer {
    pub world: WorldID,
    pub zone: ZoneID,
    pub loadout: Loadout,
    pub team_id: Faction,
    pub last_change: Timestamp,
}

impl ActivePlayer {
    /// The leaf of the population tree under which this character counts.
    pub open spec fn position(self) -> TreePosition {
        TreePosition {
            world: self.world,
            zone: self.zone,
            team: self.team_id,
            loadout: self.loadout,
        }
    }

    /// The record that an event leaves of its character.
    pub open spec fn of_event(event: GainExperience) -> ActivePlayer {
        ActivePlayer {
            world: event.world_id,
            zone: event.zone_id,
            loadout: event.loadout_id,
            team_id: event.team_id,
            last_change: event.timestamp,
        }
    }

    /// Whether, at the time `now`, this record has gone without an event for
    /// longer than `idle_threshold`.
    pub open spec fn is_idle(self, idle_threshold: i64, now: Timestamp) -> bool {
        now - self.last_change > idle_threshold
    }

    /// Whether, at the time `now`, this record has gone without an event for
    /// longer than `idle_threshold`.
    pub fn idle(&self, idle_threshold: i64, now: Timestamp) -> (r: bool)
        ensures
            r == self.is_idle(idle_threshold, now),
    {
        (now as i128) - (self.last_change as i128) > (idle_threshold as i128)
    }

    /// The leaf of the population tree under which this character counts.
    pub fn tree_position(&self) -> (position: TreePosition)
        ensures
            position == self.position(),
    {
        TreePosition {
            world: self.world,
            zone: self.zone,
            team: self.team_id,
            loadout: self.loadout,
        }
    }
}

impl From<GainExperience> for ActivePlayer {
    fn from(event: GainExperience) -> (r: Self) {
        Self {
            world: event.world_id,
            zone: event.zone_id,
            loadout: event.loadout_id,
            team_id: event.team_id,
            last_change: event.timestamp,
        }
    }
}

impl FromSpecImpl<GainExperience> for ActivePlayer {
    open spec fn obeys_from_spec() -> bool {
        true
    }

    open spec fn from_spec(event: GainExperience) -> Self {
        ActivePlayer::of_event(event)
    }
}

/// The store: at most one record for each character.
pub type ActivePlayerHashmap = HashMap<CharacterID, ActivePlayer>;

/// What a record counts towards the leaf `position`: one or nothing.
pub open spec fn record_weight(position: TreePosition) -> spec_fn(
    (CharacterID, ActivePlayer),
) -> nat {
    |record: (CharacterID, ActivePlayer)|
        if record.1.position() == position {
            1
        } else {
            0
        }
}

/// How many of the listed records belong to the leaf `position`.
pub open spec fn records_at(
    records: Seq<(CharacterID, ActivePlayer)>,
    position: TreePosition,
) -> nat {
    sum_by(records, record_weight(position))
}

/// How many characters of the store belong to the leaf `position`.
pub open spec fn population_at(
    players: Map<CharacterID, ActivePlayer>,
    position: TreePosition,
) -> nat {
    players.dom().filter(|id: CharacterID| players[id].position() == position).len()
}

/// Whether `records` lists each record of `players` once, in some order.
pub open spec fn lists_all(
    records: Seq<(CharacterID, ActivePlayer)>,
    players: Map<CharacterID, ActivePlayer>,
) -> bool {
    &&& records.len() == players.len()
    &&& forall|i: int, j: int|
        0 <= i < j < records.len() ==> (#[trigger] records[i]).0 != (#[trigger] records[j]).0
    &&& forall|i: int|
        0 <= i < records.len() ==> players.contains_key((#[trigger] records[i]).0)
            && players[records[i].0] == records[i].1
    &&& forall|id: CharacterID| #[trigger]
        players.contains_key(id) ==> records.contains((id, players[id]))
}

/// The characters among `records` that belong to the leaf `position`.
pub open spec fn ids_at(
    records: Seq<(CharacterID, ActivePlayer)>,
    position: TreePosition,
) -> Set<CharacterID>
    decreases records.len(),
{
    if records.len() == 0 {
        Set::empty()
    } else if records.last().1.position() == position {
        ids_at(records.drop_last(), position).insert(records.last().0)
    } else {
        ids_at(records.drop_last(), position)
    }
}

proof fn lemma_ids_at(records: Seq<(CharacterID, ActivePlayer)>, position: TreePosition)
    requires
        forall|i: int, j: int|
            0 <= i < j < records.len() ==> (#[trigger] records[i]).0 != (#[trigger] records[j]).0,
    ensures
        ids_at(records, position).finite(),
        ids_at(records, position).len() == records_at(records, position),
        forall|id: CharacterID|
            ids_at(records, position).contains(id) <==> exists|i: int|
                0 <= i < records.len() && (#[trigger] records[i]).0 == id
                    && records[i].1.position() == position,
    decreases records.len(),
{
    if records.len() > 0 {
        let rest = records.drop_last();
        let last = records.last();
        assert forall|i: int, j: int| 0 <= i < j < rest.len() implies (#[trigger] rest[i]).0 != (
        #[trigger] rest[j]).0 by {
            assert(rest[i] == records[i]);
            assert(rest[j] == records[j]);
        }
        lemma_ids_at(rest, position);
        assert forall|id: CharacterID|
            ids_at(records, position).contains(id) <==> exists|i: int|
                0 <= i < records.len() && (#[trigger] records[i]).0 == id
                    && records[i].1.position() == position by {
            if ids_at(records, position).contains(id) {
                if ids_at(rest, position).contains(id) {
                    let i = choose|i: int|
                        0 <= i < rest.len() && (#[trigger] rest[i]).0 == id
                            && rest[i].1.position() == position;
                    assert(records[i] == rest[i]);
                } else {
                    assert(records[records.len() - 1] == last);
                }
            }
            if exists|i: int|
                0 <= i < records.len() && (#[trigger] records[i]).0 == id
                    && records[i].1.position() == position {
                let i = choose|i: int|
                    0 <= i < records.len() && (#[trigger] records[i]).0 == id
                        && records[i].1.position() == position;
                if i < rest.len() {
                    assert(rest[i] == records[i]);
                }
            }
        }
        if last.1.position() == position {
            if ids_at(rest, position).contains(last.0) {
                let i = choose|i: int|
                    0 <= i < rest.len() && (#[trigger] rest[i]).0 == last.0
                        && rest[i].1.position() == position;
                assert(rest[i] == records[i]);
                assert(records[records.len() - 1] == last);
                assert(false);
            }
        }
    }
}

/// A list that holds each record of the store once holds, for every leaf,
/// as many records as the store has characters there.
pub proof fn lemma_records_at_is_population(
    records: Seq<(CharacterID, ActivePlayer)>,
    players: Map<CharacterID, ActivePlayer>,
    position: TreePosition,
)
    requires
        lists_all(records, players),
    ensures
        records_at(records, position) == population_at(players, position),
{
    lemma_ids_at(records, position);
    let listed = ids_at(records, position);
    let stored = players.dom().filter(|id: CharacterID| players[id].position() == position);
    assert forall|id: CharacterID| listed.contains(id) <==> stored.contains(id) by {
        if listed.contains(id) {
            let i = choose|i: int|
                0 <= i < records.len() && (#[trigger] records[i]).0 == id
                    && records[i].1.position() == position;
            assert(players.contains_key(records[i].0));
        }
        if stored.contains(id) {
            assert(players.contains_key(id));
            assert(records.contains((id, players[id])));
            let i = choose|i: int| 0 <= i < records.len() && records[i] == (id, players[id]);
            assert(records[i].0 == id);
        }
    }
    assert(listed =~= stored);
}

/// A copy of the store's records, each once, in no particular order.
pub fn snapshot(active_players: &ActivePlayerHashmap) -> (records: Vec<
    (CharacterID, ActivePlayer),
>)
    ensures
        lists_all(records@, active_players@),
{
    broadcast use group_hash_axioms;

    let mut records: Vec<(CharacterID, ActivePlayer)> = Vec::new();
    for (id, player) in it: active_players.iter()
        invariant
            it.seq() == spec_hash_map_iter(active_players).remaining(),
            it.seq().no_duplicates(),
            records@.len() == it.index(),
            forall|i: int|
                0 <= i < it.index() ==> records@[i] == (
                    *(#[trigger] it.seq()[i]).0,
                    *it.seq()[i].1,
                ),
    {
        records.push((*id, *player));
    }
    proof {
        let s = spec_hash_map_iter(active_players).remaining();
        let players = active_players@;
        assert(records@ =~= s.unref());
        assert forall|i: int, j: int| 0 <= i < j < records@.len() implies (
        #[trigger] records@[i]).0 != (#[trigger] records@[j]).0 by {
            assert(players.contains_key(*s[i].0) && players[*s[i].0] == *s[i].1);
            assert(players.contains_key(*s[j].0) && players[*s[j].0] == *s[j].1);
            if records@[i].0 == records@[j].0 {
                assert(s[i] == s[j]);
            }
        }
        assert forall|i: int| 0 <= i < records@.len() implies players.contains_key(
            (#[trigger] records@[i]).0,
        ) && players[records@[i].0] == records@[i].1 by {
            assert(players.contains_key(*s[i].0) && players[*s[i].0] == *s[i].1);
        }
        assert forall|id: CharacterID| #[trigger]
            players.contains_key(id) implies records@.contains((id, players[id])) by {
            assert(s.contains((&id, &players[id])));
            let i = choose|i: int| 0 <= i < s.len() && s[i] == (&id, &players[id]);
            assert(records@[i] == (id, players[id]));
        }
    }
    records
}

/// Sweeps the store at the time `now`: every record that has gone without an
/// event for longer than `idle_threshold` leaves, every other record stays
/// as it is. Returns how many records left.
pub fn clean(
    active_players: &mut ActivePlayerHashmap,
    idle_threshold: i64,
    now: Timestamp,
) -> (removed: usize)
    ensures
        forall|id: CharacterID|
            final(active_players)@.contains_key(id) <==> old(active_players)@.contains_key(id)
                && !old(active_players)@[id].is_idle(idle_threshold, now),
        forall|id: CharacterID|
            final(active_players)@.contains_key(id) ==> final(active_players)@[id] == old(
                active_players,
            )@[id],
        removed == old(active_players)@.len() - final(active_players)@.len(),
{
    broadcast use group_hash_axioms;

    let ghost before = active_players@;
    let records = snapshot(active_players);
    let mut removed: usize = 0;
    let mut i: usize = 0;
    while i < records.len()
        invariant
            i <= records.len(),
            lists_all(records@, before),
            before.dom().finite(),
            removed <= i,
            removed == before.len() - active_players@.len(),
            forall|id: CharacterID| #[trigger]
                active_players@.contains_key(id) ==> before.contains_key(id)
                    && active_players@[id] == before[id],
            forall|k: int|
                0 <= k < records.len() ==> (active_players@.contains_key(
                    (#[trigger] records@[k]).0,
                ) <==> (k >= i || !records@[k].1.is_idle(idle_threshold, now))),
        decreases records.len() - i,
    {
        let id = records[i].0;
        let player = records[i].1;
        if player.idle(idle_threshold, now) {
            let ghost current = active_players@;
            assert(current.contains_key(id));
            active_players.remove(&id);
            assert(active_players@ == current.remove(id));
            removed = removed + 1;
            proof {
                assert forall|other: CharacterID| #[trigger]
                    active_players@.contains_key(other) implies before.contains_key(other)
                    && active_players@[other] == before[other] by {
                    assert(current.contains_key(other));
                }
                assert forall|k: int| 0 <= k < records.len() implies (active_players@.contains_key(
                    (#[trigger] records@[k]).0,
                ) <==> (k >= i + 1 || !records@[k].1.is_idle(idle_threshold, now))) by {
                    if k != i {
                        assert(records@[k].0 != records@[i as int].0);
                    }
                }
            }
        }
        i = i + 1;
    }
    proof {
        assert forall|id: CharacterID|
            active_players@.contains_key(id) <==> before.contains_key(id) && !before[id].is_idle(
                idle_threshold,
                now,
            ) by {
            if before.contains_key(id) {
                assert(records@.contains((id, before[id])));
                let k = choose|k: int| 0 <= k < records@.len() && records@[k] == (id, before[id]);
                assert(records@[k].0 == id);
            }
        }
    }
    removed
}

/// Whether no leaf has more characters than an amount can count.
pub open spec fn countable(players: Map<CharacterID, ActivePlayer>) -> bool {
    forall|position: TreePosition| #[trigger]
        population_at(players, position) <= PopulationAmount::MAX
}

/// Whether `tree` is the count of `players`: well formed, with a leaf for
/// every place that has characters, each leaf counting the characters of
/// its place, and all leaves together counting every character once.
pub open spec fn counts(tree: Seq<WorldPopulation>, players: Map<CharacterID, ActivePlayer>) -> bool {
    &&& worlds_wf(tree)
    &&& worlds_total(tree) == players.len()
    &&& forall|position: TreePosition| #[trigger]
        worlds_amount(tree, position) == population_at(players, position)
}

/// Counts the store into a population tree, if it can be counted: every
/// character counts once, under the leaf of its record. There is no tree
/// where a leaf would have more characters than an amount can count.
pub fn checked_loadout_breakdown(active_players: &ActivePlayerHashmap) -> (r: Option<
    WorldBreakdown,
>)
    ensures
        r is Some <==> countable(active_players@),
        r matches Some(tree) ==> counts(tree@, active_players@),
{
    let records = snapshot(active_players);
    let mut tree: WorldBreakdown = Vec::new();
    let mut i: usize = 0;
    proof {
        assert(worlds_total(tree@) == 0);
        assert forall|position: TreePosition| #[trigger]
            worlds_amount(tree@, position) == records_at(records@.take(0), position) by {
            assert(records@.take(0) =~= Seq::empty());
        }
    }
    while i < records.len()
        invariant
            i <= records.len(),
            lists_all(records@, active_players@),
            worlds_wf(tree@),
            worlds_total(tree@) == i,
            forall|position: TreePosition| #[trigger]
                worlds_amount(tree@, position) == records_at(records@.take(i as int), position),
        decreases records.len() - i,
    {
        let ghost counted = tree@;
        let ghost seen = records@.take(i as int);
        let position = records[i].1.tree_position();
        proof {
            assert(records@.take(i + 1) =~= seen.push(records@[i as int]));
            lemma_sum_by_push(seen, records@[i as int], record_weight(position));
            lemma_sum_by_prefix(records@, i + 1, record_weight(position));
            lemma_records_at_is_population(records@, active_players@, position);
            assert(worlds_amount(counted, position) == records_at(seen, position));
        }
        if amount_at(&tree, position) == PopulationAmount::MAX {
            proof {
                assert(population_at(active_players@, position) > PopulationAmount::MAX);
            }
            return None;
        }
        add_population(&mut tree, position, 1);
        proof {
            assert forall|p: TreePosition| #[trigger]
                worlds_amount(tree@, p) == records_at(records@.take(i + 1), p) by {
                lemma_sum_by_push(seen, records@[i as int], record_weight(p));
                assert(worlds_amount(counted, p) == records_at(seen, p));
            }
        }
        i = i + 1;
    }
    proof {
        assert(records@.take(i as int) =~= records@);
        assert forall|position: TreePosition| #[trigger]
            worlds_amount(tree@, position) == population_at(active_players@, position) by {
            lemma_records_at_is_population(records@, active_players@, position);
        }
        assert forall|position: TreePosition| #[trigger]
            population_at(active_players@, position) <= PopulationAmount::MAX by {
            assert(worlds_amount(tree@, position) == population_at(active_players@, position));
            lemma_leaf_fits(tree@, position);
        }
    }
    Some(tree)
}

/// Counts the store into a population tree: every character counts once,
/// under the leaf of its record. No leaf may have more characters than an
/// amount can count.
pub fn loadout_breakdown(active_players: &ActivePlayerHashmap) -> (tree: WorldBreakdown)
    requires
        countable(active_players@),
    ensures
        counts(tree@, active_players@),
{
    match checked_loadout_breakdown(active_players) {
        Some(tree) => tree,
        None => Vec::new(),
    }
}

/// No leaf has more characters than the store has in all.
pub proof fn lemma_population_within_len(
    players: Map<CharacterID, ActivePlayer>,
    position: TreePosition,
)
    requires
        players.dom().finite(),
    ensures
        population_at(players, position) <= players.len(),
{
    vstd::set_lib::lemma_len_subset(
        players.dom().filter(|id: CharacterID| players[id].position() == position),
        players.dom(),
    );
}

/// One upsert after another for the same character leaves what the second
/// alone would have left: one record, equal to the second, and no more
/// characters than after the first.
pub proof fn lemma_upsert_overwrites(
    players: Map<CharacterID, ActivePlayer>,
    id: CharacterID,
    first: ActivePlayer,
    second: ActivePlayer,
)
    requires
        players.dom().finite(),
    ensures
        players.insert(id, first).insert(id, second) == players.insert(id, second),
        players.insert(id, first).insert(id, second)[id] == second,
        players.insert(id, first).insert(id, second).len() == players.insert(id, first).len(),
{
    assert(players.insert(id, first).insert(id, second) =~= players.insert(id, second));
    assert(players.insert(id, first).insert(id, second).dom() =~= players.insert(id, first).dom());
}

/// One step of writing a revision to the store. The steps of a revision are
/// carried out in order; each row that a step makes hangs under the row that
/// the last step of the level above made.
#[derive(Clone, Copy, Debug, PartialEq, Eq, Structural)]
pub enum Insert {
    /// Opens the revision: a row of its own, with the time of writing.
    Population,
    /// Makes the world known, if it is not, and gives it a row under the
    /// revision.
    World { world_id: i32 },
    /// Makes the zone known, if it is not, and gives it a row under the last
    /// world.
    Zone { zone_id: i64 },
    /// Makes the faction known, if it is not, and gives the team a row under
    /// the last zone.
    Team { team_id: i32 },
    /// Makes the loadout known, if it is not, and gives it a row under the
    /// last team, with the head count.
    Loadout { loadout_id: i32, amount: i32 },
}

/// Opens a revision. Gives back the number of the revision's row.
pub const INSERT_POPULATION: &'static str =
    "INSERT INTO population (timestamp) VALUES (default) RETURNING population_id";

/// Makes a world known. Its parameter is the world's number.
pub const INSERT_WORLD: &'static str =
    "INSERT INTO world (world_id) VALUES ($1) ON CONFLICT DO NOTHING";

/// Writes a world's row. Its parameters are the world's number and the
/// number of the revision's row; it gives back the number of the new row.
pub const INSERT_WORLD_POPULATION: &'static str =
    "INSERT INTO world_population (world_id, population_id) VALUES ($1, $2) \
     RETURNING world_population_id";

/// Makes a zone known. Its parameter is the zone's number.
pub const INSERT_ZONE: &'static str =
    "INSERT INTO zone (zone_id) VALUES ($1) ON CONFLICT DO NOTHING";

/// Writes a zone's row. Its parameters are the zone's number and the number
/// of the world's row; it gives back the number of the new row.
pub const INSERT_ZONE_POPULATION: &'static str =
    "INSERT INTO zone_population (zone_id, world_population_id) VALUES ($1, $2) \
     RETURNING zone_population_id";

/// Makes a faction known. Its parameter is the faction's number.
pub const INSERT_FACTION: &'static str =
    "INSERT INTO faction (faction_id) VALUES ($1) ON CONFLICT DO NOTHING";

/// Writes a team's row. Its parameters are the team's number and the number
/// of the zone's row; it gives back the number of the new row.
pub const INSERT_TEAM_POPULATION: &'static str =
    "INSERT INTO team_population (team_id, zone_population_id) VALUES ($1, $2) \
     RETURNING team_population_id";

/// Makes a loadout known. Its parameter is the loadout's number.
pub const INSERT_LOADOUT: &'static str =
    "INSERT INTO loadout (loadout_id) VALUES ($1) ON CONFLICT DO NOTHING";

/// Writes a leaf's row. Its parameters are the loadout's number, the number
/// of the team's row and the head count.
pub const INSERT_LOADOUT_POPULATION: &'static str =
    "INSERT INTO loadout_population (loadout_id, team_population_id, amount) \
     VALUES ($1, $2, $3)";

impl Insert {
    /// The statement that makes the step's subject known to the store where
    /// it is not known yet; none for the opening of a revision.
    pub open spec fn spec_reference_statement(self) -> Option<Seq<char>> {
        match self {
            Insert::Population => None,
            Insert::World { .. } => Some(INSERT_WORLD@),
            Insert::Zone { .. } => Some(INSERT_ZONE@),
            Insert::Team { .. } => Some(INSERT_FACTION@),
            Insert::Loadout { .. } => Some(INSERT_LOADOUT@),
        }
    }

    /// The statement that writes the step's row.
    pub open spec fn spec_row_statement(self) -> Seq<char> {
        match self {
            Insert::Population => INSERT_POPULATION@,
            Insert::World { .. } => INSERT_WORLD_POPULATION@,
            Insert::Zone { .. } => INSERT_ZONE_POPULATION@,
            Insert::Team { .. } => INSERT_TEAM_POPULATION@,
            Insert::Loadout { .. } => INSERT_LOADOUT_POPULATION@,
        }
    }

    /// The statement that makes the step's subject known to the store.
    pub fn reference_statement(&self) -> (statement: Option<&'static str>)
        ensures
            match statement {
                Some(text) => self.spec_reference_statement() == Some(text@),
                None => self.spec_reference_statement() is None,
            },
    {
        match self {
            Insert::Population => None,
            Insert::World { .. } => Some(INSERT_WORLD),
            Insert::Zone { .. } => Some(INSERT_ZONE),
            Insert::Team { .. } => Some(INSERT_FACTION),
            Insert::Loadout { .. } => Some(INSERT_LOADOUT),
        }
    }

    /// The statement that writes the step's row.
    pub fn row_statement(&self) -> (statement: &'static str)
        ensures
            statement@ == self.spec_row_statement(),
    {
        match self {
            Insert::Population => INSERT_POPULATION,
            Insert::World { .. } => INSERT_WORLD_POPULATION,
            Insert::Zone { .. } => INSERT_ZONE_POPULATION,
            Insert::Team { .. } => INSERT_TEAM_POPULATION,
            Insert::Loadout { .. } => INSERT_LOADOUT_POPULATION,
        }
    }
}

/// The step that writes one leaf.
pub open spec fn loadout_insert(entry: LoadoutPopulation) -> Insert {
    Insert::Loadout { loadout_id: entry.loadout_id.spec_id() as i32, amount: entry.amount as i32 }
}

/// The steps that write a team's loadouts, in the order of the list.
pub open spec fn loadout_inserts(entries: Seq<LoadoutPopulation>) -> Seq<Insert>
    decreases entries.len(),
{
    if entries.len() == 0 {
        Seq::empty()
    } else {
        loadout_inserts(entries.drop_last()).push(loadout_insert(entries.last()))
    }
}

/// The steps that write a zone's teams: each team, then its loadouts.
pub open spec fn team_inserts(entries: Seq<TeamPopulation>) -> Seq<Insert>
    decreases entries.len(),
{
    if entries.len() == 0 {
        Seq::empty()
    } else {
        team_inserts(entries.drop_last()).push(
            Insert::Team { team_id: entries.last().team_id.spec_id() as i32 },
        ) + loadout_inserts(entries.last().loadouts@)
    }
}

/// The steps that write a world's zones: each zone, then its teams.
pub open spec fn zone_inserts(entries: Seq<ZonePopulation>) -> Seq<Insert>
    decreases entries.len(),
{
    if entries.len() == 0 {
        Seq::empty()
    } else {
        zone_inserts(entries.drop_last()).push(
            Insert::Zone { zone_id: entries.last().zone_id.0 as i64 },
        ) + team_inserts(entries.last().teams@)
    }
}

/// The steps that write a tree's worlds: each world, then its zones.
pub open spec fn world_inserts(entries: Seq<WorldPopulation>) -> Seq<Insert>
    decreases entries.len(),
{
    if entries.len() == 0 {
        Seq::empty()
    } else {
        world_inserts(entries.drop_last()).push(
            Insert::World { world_id: entries.last().world_id.spec_id() as i32 },
        ) + zone_inserts(entries.last().zones@)
    }
}

/// The steps that write a tree as one revision: the revision's own row
/// first, then the tree from the top down.
pub open spec fn revision_inserts(tree: Seq<WorldPopulation>) -> Seq<Insert> {
    seq![Insert::Population] + world_inserts(tree)
}

fn insert_loadout(loadout_map: &LoadoutBreakdown, plan: &mut Vec<Insert>)
    ensures
        final(plan)@ == old(plan)@ + loadout_inserts(loadout_map@),
{
    let ghost before = plan@;
    let mut i: usize = 0;
    proof {
        assert(loadout_map@.take(0) =~= Seq::empty());
        assert(plan@ =~= before + loadout_inserts(loadout_map@.take(0)));
    }
    while i < loadout_map.len()
        invariant
            i <= loadout_map.len(),
            plan@ == before + loadout_inserts(loadout_map@.take(i as int)),
        decreases loadout_map.len() - i,
    {
        let entry = &loadout_map[i];
        plan.push(
            Insert::Loadout {
                loadout_id: entry.loadout_id.id() as i32,
                amount: entry.amount as i32,
            },
        );
        proof {
            let seen = loadout_map@.take(i as int);
            assert(loadout_map@.take(i + 1).drop_last() =~= seen);
            assert(plan@ =~= before + loadout_inserts(loadout_map@.take(i + 1)));
        }
        i = i + 1;
    }
    proof {
        assert(loadout_map@.take(i as int) =~= loadout_map@);
    }
}

fn insert_team(team_map: &TeamBreakdown, plan: &mut Vec<Insert>)
    ensures
        final(plan)@ == old(plan)@ + team_inserts(team_map@),
{
    let ghost before = plan@;
    let mut i: usize = 0;
    proof {
        assert(team_map@.take(0) =~= Seq::empty());
        assert(plan@ =~= before + team_inserts(team_map@.take(0)));
    }
    while i < team_map.len()
        invariant
            i <= team_map.len(),
            plan@ == before + team_inserts(team_map@.take(i as int)),
        decreases team_map.len() - i,
    {
        let entry = &team_map[i];
        plan.push(Insert::Team { team_id: entry.team_id.id() as i32 });
        insert_loadout(&entry.loadouts, plan);
        proof {
            let seen = team_map@.take(i as int);
            assert(team_map@.take(i + 1).drop_last() =~= seen);
            assert(plan@ =~= before + team_inserts(team_map@.take(i + 1)));
        }
        i = i + 1;
    }
    proof {
        assert(team_map@.take(i as int) =~= team_map@);
    }
}

fn insert_zone(zone_map: &ZoneBreakdown, plan: &mut Vec<Insert>)
    ensures
        final(plan)@ == old(plan)@ + zone_inserts(zone_map@),
{
    let ghost before = plan@;
    let mut i: usize = 0;
    proof {
        assert(zone_map@.take(0) =~= Seq::empty());
        assert(plan@ =~= before + zone_inserts(zone_map@.take(0)));
    }
    while i < zone_map.len()
        invariant
            i <= zone_map.len(),
            plan@ == before + zone_inserts(zone_map@.take(i as int)),
        decreases zone_map.len() - i,
    {
        let entry = &zone_map[i];
        plan.push(Insert::Zone { zone_id: entry.zone_id.0 as i64 });
        insert_team(&entry.teams, plan);
        proof {
            let seen = zone_map@.take(i as int);
            assert(zone_map@.take(i + 1).drop_last() =~= seen);
            assert(plan@ =~= before + zone_inserts(zone_map@.take(i + 1)));
        }
        i = i + 1;
    }
    proof {
        assert(zone_map@.take(i as int) =~= zone_map@);
    }
}

/// Lays out the writing of a population tree as one revision: the steps to
/// carry out, in order.
pub fn store_pop(loadout_breakdown: &WorldBreakdown) -> (plan: Vec<Insert>)
    ensures
        plan@ == revision_inserts(loadout_breakdown@),
{
    let mut plan: Vec<Insert> = Vec::new();
    plan.push(Insert::Population);
    let ghost before = plan@;
    let mut i: usize = 0;
    proof {
        assert(before =~= seq![Insert::Population]);
        assert(loadout_breakdown@.take(0) =~= Seq::empty());
        assert(plan@ =~= before + world_inserts(loadout_breakdown@.take(0)));
    }
    while i < loadout_breakdown.len()
        invariant
            i <= loadout_breakdown.len(),
            plan@ == before + world_inserts(loadout_breakdown@.take(i as int)),
        decreases loadout_breakdown.len() - i,
    {
        let entry = &loadout_breakdown[i];
        plan.push(Insert::World { world_id: entry.world_id.id() as i32 });
        insert_zone(&entry.zones, &mut plan);
        proof {
            let seen = loadout_breakdown@.take(i as int);
            assert(loadout_breakdown@.take(i + 1).drop_last() =~= seen);
            assert(plan@ =~= before + world_inserts(loadout_breakdown@.take(i + 1)));
        }
        i = i + 1;
    }
    proof {
        assert(loadout_breakdown@.take(i as int) =~= loadout_breakdown@);
    }
    plan
}

} // verus!
