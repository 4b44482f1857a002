//! What a subscription asks of the feed.
use crate::census::constants::{CharacterID, WorldID};
use crate::census::event::EventNames;
use crate::census::utils::{
    serialize_all_subscription, serialize_char_ids_subscription,
    serialize_world_ids_subscription, spec_serialize_all_subscription,
    spec_serialize_char_ids_subscription, spec_serialize_world_ids_subscription,
};
use crate::census::Service;
use crate::json::{items_view, lemma_array_view, Json, JsonValue};
use vstd::prelude::*;

verus! {

/// The characters whose events are asked for.
#[derive(Clone, Debug)]
#[allow(dead_code)]
pub enum CharacterSubscription {
    All,
    Ids(Vec<CharacterID>),
}

/// The worlds whose events are asked for.
#[derive(Clone, Debug)]
#[allow(dead_code)]
pub enum WorldSubscription {
    All,
    Ids(Vec<WorldID>),
}

/// The kinds of event that are asked for.
#[derive(Clone, Debug)]
#[allow(dead_code)]
pub enum EventSubscription {
    All,
    Ids(Vec<EventNames>),
}

/// A subscription: which events, of which characters, on which worlds, and
/// whether an event has to match both the characters and the worlds.
#[derive(Clone, Debug)]
#[allow(dead_code)]
pub struct SubscriptionSettings {
    pub event_names: Option<EventSubscription>,
    pub characters: Option<CharacterSubscription>,
    pub logical_and_characters_with_worlds: Option<bool>,
    pub worlds: Option<WorldSubscription>,
    pub service: Service,
}

impl CharacterSubscription {
    /// How the choice of characters is written in a request.
    pub open spec fn spec_json(self) -> JsonValue {
        match self {
            CharacterSubscription::All => spec_serialize_all_subscription(),
            CharacterSubscription::Ids(ids) => spec_serialize_char_ids_subscription(ids@),
        }
    }

    /// Writes the choice of characters as it stands in a request.
    pub fn to_json(&self) -> (document: Json)
        ensures
            document@ == self.spec_json(),
    {
        match self {
            CharacterSubscription::All => serialize_all_subscription(),
            CharacterSubscription::Ids(ids) => serialize_char_ids_subscription(ids.as_slice()),
        }
    }
}

impl WorldSubscription {
    /// How the choice of worlds is written in a request.
    pub open spec fn spec_json(self) -> JsonValue {
        match self {
            WorldSubscription::All => spec_serialize_all_subscription(),
            WorldSubscription::Ids(ids) => spec_serialize_world_ids_subscription(ids@),
        }
    }

    /// Writes the choice of worlds as it stands in a request.
    pub fn to_json(&self) -> (document: Json)
        ensures
            document@ == self.spec_json(),
    {
        match self {
            WorldSubscription::All => serialize_all_subscription(),
            WorldSubscription::Ids(ids) => serialize_world_ids_subscription(ids),
        }
    }
}

impl EventSubscription {
    /// How the choice of events is written in a request: the list of their
    /// names.
    pub open spec fn spec_json(self) -> JsonValue {
        match self {
            EventSubscription::All => spec_serialize_all_subscription(),
            EventSubscription::Ids(names) => JsonValue::Array(
                Seq::new(names@.len(), |i: int| JsonValue::Text(names@[i].spec_serialize())),
            ),
        }
    }

    /// Writes the choice of events as it stands in a request.
    pub fn to_json(&self) -> (document: Json)
        ensures
            document@ == self.spec_json(),
    {
        match self {
            EventSubscription::All => serialize_all_subscription(),
            EventSubscription::Ids(names) => {
                let mut items: Vec<Json> = Vec::new();
                let mut i: usize = 0;
                while i < names.len()
                    invariant
                        i <= names.len(),
                        items@.len() == i,
                        forall|j: int|
                            0 <= j < i ==> (#[trigger] items@[j])@ == JsonValue::Text(
                                names@[j].spec_serialize(),
                            ),
                    decreases names.len() - i,
                {
                    items.push(Json::Text(names[i].serialize()));
                    i = i + 1;
                }
                proof {
                    lemma_array_view(items);
                    assert(items_view(items@) =~= Seq::new(
                        names@.len(),
                        |i: int| JsonValue::Text(names@[i].spec_serialize()),
                    ));
                }
                Json::Array(items)
            },
        }
    }
}

impl Default for SubscriptionSettings {
    fn default() -> (settings: Self)
        ensures
            settings.event_names == Some(EventSubscription::All),
            settings.characters == Some(CharacterSubscription::All),
            settings.logical_and_characters_with_worlds == None::<bool>,
            settings.worlds == Some(WorldSubscription::All),
            settings.service == Service::Event,
    {
        Self {
            event_names: Some(EventSubscription::All),
            characters: Some(CharacterSubscription::All),
            logical_and_characters_with_worlds: None,
            worlds: Some(WorldSubscription::All),
            service: Service::Event,
        }
    }
}

} // verus!
