//! The dispatch of feed events to their handlers.
pub mod gain_experience;

use crate::active_players::{ActivePlayer, ActivePlayerHashmap};
use crate::census::event::Event;
use vstd::prelude::*;

verus! {

/// What the presence store holds once `event` has been dispatched: an
/// activity pulse puts its character's record in place, every other kind of
/// event leaves the store as it was.
pub open spec fn store_after(
    players: Map<u64, ActivePlayer>,
    event: Event,
) -> Map<u64, ActivePlayer> {
    match event {
        Event::GainExperience(pulse) => players.insert(
            pulse.character_id,
            ActivePlayer::of_event(pulse),
        ),
        _ => players,
    }
}

/// Hands `event` to its handler. Returns whether the event was recorded in
/// the store: only an activity pulse is, and no kind of event is an error.
pub fn receive_events(event: Event, active_players: &mut ActivePlayerHashmap) -> (recorded: bool)
    ensures
        final(active_players)@ == store_after(old(active_players)@, event),
        recorded == (event is GainExperience),
{
    match event {
        Event::GainExperience(event) => {
            gain_experience::handle(&event, active_players);
            true
        },
        Event::PlayerLogin(_) => false,
        Event::PlayerLogout(_) => false,
        Event::Death(_) => false,
        Event::VehicleDestroy(_) => false,
        Event::PlayerFacilityCapture(_) => false,
        Event::PlayerFacilityDefend(_) => false,
        Event::ContinentLock(_) => false,
        Event::ContinentUnlock(_) => false,
        Event::FacilityControl(_) => false,
        Event::MetagameEvent(_) => false,
        Event::ItemAdded => false,
        Event::AchievementEarned => false,
        Event::SkillAdded => false,
        Event::BattleRankUp => false,
        Event::Unhandled => false,
    }
}

/// No event but an activity pulse changes the presence store.
pub proof fn lemma_other_events_change_nothing(players: Map<u64, ActivePlayer>, event: Event)
    requires
        !(event is GainExperience),
    ensures
        store_after(players, event) == players,
{
}

} // verus!
