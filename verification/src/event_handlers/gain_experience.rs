//! What an activity pulse does to the presence store.
use crate::active_players::{ActivePlayer, ActivePlayerHashmap};
use crate::census::event::GainExperience;
use vstd::prelude::*;
use vstd::std_specs::hash::group_hash_axioms;

verus! {

/// Records the character of `event` as seen where and when the event says,
/// in place of whatever the store held of it.
pub fn handle(event: &GainExperience, active_players: &mut ActivePlayerHashmap)
    ensures
        final(active_players)@ == old(active_players)@.insert(
            event.character_id,
            ActivePlayer::of_event(*event),
        ),
{
    broadcast use group_hash_axioms;

    active_players.insert(event.character_id, ActivePlayer::from(*event));
}

} // verus!
