//! The feed's messages: what is sent to it and what it sends.
pub mod address;
pub mod constants;
pub mod event;
pub mod realtime;
pub mod rest;
pub mod structs;
pub mod subscription;
pub mod utils;

use crate::census::event::{Event, EventView};
use crate::census::subscription::{
    CharacterSubscription, EventSubscription, SubscriptionSettings, WorldSubscription,
};
use crate::census::utils::{
    field, number_field, serialize_optional_bool, spec_field, spec_number_field,
    spec_serialize_optional_bool, spec_text_field, text_field, DecodeError,
};
use crate::json::{
    get, items_view, lemma_array_view, lemma_object_view, member, members_view,
    parsed_document, rendered_document, Json, JsonValue, Member, MemberValue,
};
use crate::text::{chars_of, spells};
use vstd::prelude::*;
use vstd::string::StringExecFns;

verus! {

/// Where the feed is reached when nothing else is configured.
pub const REALTIME_URL: &'static str = "wss://push.planetside2.com/streaming";

/// Where the game's query service is reached when nothing else is
/// configured.
pub const CENSUS_URL: &'static str = "https://census.daybreakgames.com";

/// The service of the feed that a request is meant for.
#[derive(Clone, Copy, Debug, PartialEq, Eq, Structural)]
pub enum Service {
    Event,
}

impl Service {
    /// The word that names the service in a request.
    pub open spec fn spec_name(self) -> Seq<char> {
        "event"@
    }

    /// The word that names the service in a request.
    pub fn name(&self) -> (name: &'static str)
        ensures
            name@ == self.spec_name(),
    {
        "event"
    }
}

/// A request to the feed.
#[derive(Debug)]
#[allow(dead_code)]
pub enum Action {
    Echo { payload: Json, service: Service },
    Subscribe(SubscriptionSettings),
    ClearSubscribe {
        all: Option<bool>,
        event_names: Option<EventSubscription>,
        characters: Option<CharacterSubscription>,
        worlds: Option<WorldSubscription>,
        service: Service,
    },
    RecentCharacterIds { service: Service },
    RecentCharacterIdsCount { service: Service },
}

/// The member `name` with the value `value`; nothing where there is no
/// value.
pub open spec fn optional_member(name: Seq<char>, value: Option<JsonValue>) -> Seq<MemberValue> {
    match value {
        Some(value) => seq![MemberValue { name, value }],
        None => Seq::empty(),
    }
}

/// The member `name` with the text `value`.
pub open spec fn text_entry(name: Seq<char>, value: Seq<char>) -> MemberValue {
    MemberValue { name, value: JsonValue::Text(value) }
}

/// How the choice of events stands in a request, if it stands there.
pub open spec fn events_json(choice: Option<EventSubscription>) -> Option<JsonValue> {
    match choice {
        Some(choice) => Some(choice.spec_json()),
        None => None,
    }
}

/// How the choice of characters stands in a request, if it stands there.
pub open spec fn characters_json(choice: Option<CharacterSubscription>) -> Option<JsonValue> {
    match choice {
        Some(choice) => Some(choice.spec_json()),
        None => None,
    }
}

/// How the choice of worlds stands in a request, if it stands there.
pub open spec fn worlds_json(choice: Option<WorldSubscription>) -> Option<JsonValue> {
    match choice {
        Some(choice) => Some(choice.spec_json()),
        None => None,
    }
}

/// How a flag stands in a request as itself, if it stands there.
pub open spec fn flag_json(flag: Option<bool>) -> Option<JsonValue> {
    match flag {
        Some(flag) => Some(JsonValue::Bool(flag)),
        None => None,
    }
}

/// How a flag stands in a request as a word, if it stands there.
pub open spec fn flag_word_json(flag: Option<bool>) -> Option<JsonValue> {
    match flag {
        Some(_) => Some(spec_serialize_optional_bool(flag)),
        None => None,
    }
}

/// The members that a subscription contributes to a request: each choice
/// that was made, under its name, and the service.
pub open spec fn settings_members(settings: SubscriptionSettings) -> Seq<MemberValue> {
    optional_member("eventNames"@, events_json(settings.event_names)) + optional_member(
        "characters"@,
        characters_json(settings.characters),
    ) + optional_member(
        "logicalAndCharactersWithWorlds"@,
        flag_json(settings.logical_and_characters_with_worlds),
    ) + optional_member("worlds"@, worlds_json(settings.worlds)).push(
        text_entry("service"@, settings.service.spec_name()),
    )
}

impl Action {
    /// The document that a request is sent as: an object that names the
    /// action first and then carries what the action needs.
    pub open spec fn spec_json(self) -> JsonValue {
        match self {
            Action::Echo { payload, service } => JsonValue::Object(
                seq![
                    text_entry("action"@, "echo"@),
                    MemberValue { name: "payload"@, value: payload@ },
                    text_entry("service"@, service.spec_name()),
                ],
            ),
            Action::Subscribe(settings) => JsonValue::Object(
                seq![text_entry("action"@, "subscribe"@)] + settings_members(settings),
            ),
            Action::ClearSubscribe { all, event_names, characters, worlds, service } => {
                JsonValue::Object(
                    seq![text_entry("action"@, "clearSubscribe"@)] + optional_member(
                        "all"@,
                        flag_word_json(all),
                    ) + optional_member("eventNames"@, events_json(event_names))
                        + optional_member("characters"@, characters_json(characters))
                        + optional_member("worlds"@, worlds_json(worlds)).push(
                        text_entry("service"@, service.spec_name()),
                    ),
                )
            },
            Action::RecentCharacterIds { service } => JsonValue::Object(
                seq![
                    text_entry("action"@, "recentCharacterIds"@),
                    text_entry("service"@, service.spec_name()),
                ],
            ),
            Action::RecentCharacterIdsCount { service } => JsonValue::Object(
                seq![
                    text_entry("action"@, "recentCharacterIdsCount"@),
                    text_entry("service"@, service.spec_name()),
                ],
            ),
        }
    }

    /// Lays the request out as the document that it is sent as.
    pub fn serialize(self) -> (document: Json)
        ensures
            document@ == self.spec_json(),
    {
        let mut members: Vec<Member> = Vec::new();
        match self {
            Action::Echo { payload, service } => {
                push_text(&mut members, "action", "echo");
                let ghost named = members_view(members@);
                members.push(Member { name: String::from_str("payload"), value: payload });
                proof {
                    assert(members_view(members@) =~= named.push(
                        MemberValue { name: "payload"@, value: payload@ },
                    ));
                }
                push_text(&mut members, "service", service.name());
                proof {
                    assert(members_view(members@) =~= seq![
                        text_entry("action"@, "echo"@),
                        MemberValue { name: "payload"@, value: payload@ },
                        text_entry("service"@, service.spec_name()),
                    ]);
                }
            },
            Action::Subscribe(settings) => {
                return Action::subscribe_document(&settings);
            },
            Action::ClearSubscribe { all, event_names, characters, worlds, service } => {
                push_text(&mut members, "action", "clearSubscribe");
                let word = match all {
                    Some(_) => Some(serialize_optional_bool(&all)),
                    None => None,
                };
                push_optional(&mut members, "all", word);
                let events = match &event_names {
                    Some(choice) => Some(choice.to_json()),
                    None => None,
                };
                push_optional(&mut members, "eventNames", events);
                let chosen = match &characters {
                    Some(choice) => Some(choice.to_json()),
                    None => None,
                };
                push_optional(&mut members, "characters", chosen);
                let places = match &worlds {
                    Some(choice) => Some(choice.to_json()),
                    None => None,
                };
                push_optional(&mut members, "worlds", places);
                push_text(&mut members, "service", service.name());
                proof {
                    assert(members_view(members@) =~= seq![
                        text_entry("action"@, "clearSubscribe"@),
                    ] + optional_member("all"@, flag_word_json(all)) + optional_member(
                        "eventNames"@,
                        events_json(event_names),
                    ) + optional_member("characters"@, characters_json(characters))
                        + optional_member("worlds"@, worlds_json(worlds)).push(
                        text_entry("service"@, service.spec_name()),
                    ));
                }
            },
            Action::RecentCharacterIds { service } => {
                push_text(&mut members, "action", "recentCharacterIds");
                push_text(&mut members, "service", service.name());
                proof {
                    assert(members_view(members@) =~= seq![
                        text_entry("action"@, "recentCharacterIds"@),
                        text_entry("service"@, service.spec_name()),
                    ]);
                }
            },
            Action::RecentCharacterIdsCount { service } => {
                push_text(&mut members, "action", "recentCharacterIdsCount");
                push_text(&mut members, "service", service.name());
                proof {
                    assert(members_view(members@) =~= seq![
                        text_entry("action"@, "recentCharacterIdsCount"@),
                        text_entry("service"@, service.spec_name()),
                    ]);
                }
            },
        }
        proof {
            lemma_object_view(members);
        }
        Json::Object(members)
    }

    /// Lays out the request that subscribes to `settings`.
    pub fn subscribe_document(settings: &SubscriptionSettings) -> (document: Json)
        ensures
            document@ == Action::Subscribe(*settings).spec_json(),
    {
        let mut members: Vec<Member> = Vec::new();
        push_text(&mut members, "action", "subscribe");
        let events = match &settings.event_names {
            Some(choice) => Some(choice.to_json()),
            None => None,
        };
        push_optional(&mut members, "eventNames", events);
        let characters = match &settings.characters {
            Some(choice) => Some(choice.to_json()),
            None => None,
        };
        push_optional(&mut members, "characters", characters);
        let flag = match settings.logical_and_characters_with_worlds {
            Some(flag) => Some(Json::Bool(flag)),
            None => None,
        };
        push_optional(&mut members, "logicalAndCharactersWithWorlds", flag);
        let worlds = match &settings.worlds {
            Some(choice) => Some(choice.to_json()),
            None => None,
        };
        push_optional(&mut members, "worlds", worlds);
        push_text(&mut members, "service", settings.service.name());
        proof {
            assert(members_view(members@) =~= seq![text_entry("action"@, "subscribe"@)]
                + settings_members(*settings));
            lemma_object_view(members);
        }
        Json::Object(members)
    }

    /// Writes the request that subscribes to `settings` as the text that is
    /// sent.
    pub fn subscribe_text(settings: &SubscriptionSettings) -> (text: String)
        ensures
            text@ == rendered_document(Action::Subscribe(*settings).spec_json()),
    {
        Action::subscribe_document(settings).render()
    }

    /// Writes the request as the text that is sent.
    pub fn to_text(self) -> (text: String)
        ensures
            text@ == rendered_document(self.spec_json()),
    {
        self.serialize().render()
    }
}

fn push_text(members: &mut Vec<Member>, name: &str, value: &str)
    ensures
        members_view(final(members)@) == members_view(old(members)@).push(
            text_entry(name@, value@),
        ),
{
    let ghost before = members_view(members@);
    members.push(
        Member { name: String::from_str(name), value: Json::Text(String::from_str(value)) },
    );
    proof {
        assert(members_view(members@) =~= before.push(text_entry(name@, value@)));
    }
}

/// The view of a document that may be there.
pub open spec fn optional_view(value: Option<Json>) -> Option<JsonValue> {
    match value {
        Some(value) => Some(value@),
        None => None,
    }
}

fn push_optional(members: &mut Vec<Member>, name: &str, value: Option<Json>)
    ensures
        members_view(final(members)@) == members_view(old(members)@) + optional_member(
            name@,
            optional_view(value),
        ),
{
    let ghost before = members_view(members@);
    match value {
        Some(value) => {
            let ghost viewed = value@;
            members.push(Member { name: String::from_str(name), value });
            proof {
                assert(members_view(members@) =~= before + optional_member(name@, Some(viewed)));
            }
        },
        None => {
            proof {
                assert(members_view(members@) =~= before + optional_member(name@, None));
            }
        },
    }
}

/// What the feed says it has subscribed us to.
#[derive(Clone, PartialEq, Eq, Debug)]
pub struct Subscription {
    pub character_count: u64,
    pub event_names: Vec<String>,
    pub logical_and_characters_with_worlds: bool,
    pub worlds: Vec<String>,
}

/// A subscription report as a value of specifications.
pub struct SubscriptionView {
    pub character_count: u64,
    pub event_names: Seq<Seq<char>>,
    pub logical_and_characters_with_worlds: bool,
    pub worlds: Seq<Seq<char>>,
}

/// The texts of a list, each by its characters.
pub open spec fn texts_view(texts: Seq<String>) -> Seq<Seq<char>> {
    Seq::new(texts.len(), |i: int| texts[i]@)
}

impl View for Subscription {
    type V = SubscriptionView;

    open spec fn view(&self) -> SubscriptionView {
        SubscriptionView {
            character_count: self.character_count,
            event_names: texts_view(self.event_names@),
            logical_and_characters_with_worlds: self.logical_and_characters_with_worlds,
            worlds: texts_view(self.worlds@),
        }
    }
}

/// Whether one of the feed's servers is up, as a heartbeat reports it.
#[derive(Clone, PartialEq, Eq, Debug)]
pub struct EndpointStatus {
    pub endpoint: String,
    pub online: String,
}

/// The report on one server as a value of specifications.
pub struct EndpointStatusView {
    pub endpoint: Seq<char>,
    pub online: Seq<char>,
}

/// The reports of a heartbeat, each by its view.
pub open spec fn statuses_view(statuses: Seq<EndpointStatus>) -> Seq<EndpointStatusView> {
    Seq::new(
        statuses.len(),
        |i: int|
            EndpointStatusView { endpoint: statuses[i].endpoint@, online: statuses[i].online@ },
    )
}

/// A message of the feed.
#[derive(Clone, PartialEq, Eq, Debug)]
#[allow(inconsistent_fields)]
pub enum CensusMessage {
    ConnectionStateChanged { connected: bool },
    Heartbeat { online: Vec<EndpointStatus> },
    ServiceMessage { payload: Event },
    ServiceStateChanged { online: bool, detail: String },
    Subscription { subscription: Subscription },
}

/// A message of the feed as a value of specifications.
#[allow(inconsistent_fields)]
pub enum CensusMessageView {
    ConnectionStateChanged { connected: bool },
    Heartbeat { online: Seq<EndpointStatusView> },
    ServiceMessage { payload: EventView },
    ServiceStateChanged { online: bool, detail: Seq<char> },
    Subscription { subscription: SubscriptionView },
}

impl View for CensusMessage {
    type V = CensusMessageView;

    open spec fn view(&self) -> CensusMessageView {
        match self {
            CensusMessage::ConnectionStateChanged { connected } => {
                CensusMessageView::ConnectionStateChanged { connected: *connected }
            },
            CensusMessage::Heartbeat { online } => CensusMessageView::Heartbeat {
                online: statuses_view(online@),
            },
            CensusMessage::ServiceMessage { payload } => CensusMessageView::ServiceMessage {
                payload: payload@,
            },
            CensusMessage::ServiceStateChanged { online, detail } => {
                CensusMessageView::ServiceStateChanged { online: *online, detail: detail@ }
            },
            CensusMessage::Subscription { subscription } => CensusMessageView::Subscription {
                subscription: subscription@,
            },
        }
    }
}

/// Whether every item of a list is a string.
pub open spec fn all_texts(items: Seq<JsonValue>) -> bool {
    forall|i: int| 0 <= i < items.len() ==> (#[trigger] items[i]) is Text
}

/// What a document stands for as a list of texts: it has to be a list, and
/// each of its items a string.
pub open spec fn spec_texts(value: JsonValue) -> Result<Seq<Seq<char>>, DecodeError> {
    match value {
        JsonValue::Array(items) => if all_texts(items) {
            Ok(Seq::new(items.len(), |i: int| items[i]->Text_0))
        } else {
            Err(DecodeError::InvalidType)
        },
        _ => Err(DecodeError::InvalidType),
    }
}

/// What the member `key` stands for as a list of texts.
pub open spec fn spec_texts_field(members: Seq<MemberValue>, key: Seq<char>) -> Result<
    Seq<Seq<char>>,
    DecodeError,
> {
    match member(members, key) {
        Some(value) => spec_texts(value),
        None => Err(DecodeError::MissingField),
    }
}

/// Whether every member of an object is a string.
pub open spec fn all_text_members(members: Seq<MemberValue>) -> bool {
    forall|i: int| 0 <= i < members.len() ==> (#[trigger] members[i]).value is Text
}

/// What a document stands for as the reports of a heartbeat: it has to be
/// an object, and each of its members a string.
pub open spec fn spec_statuses(value: JsonValue) -> Result<Seq<EndpointStatusView>, DecodeError> {
    match value {
        JsonValue::Object(members) => if all_text_members(members) {
            Ok(
                Seq::new(
                    members.len(),
                    |i: int|
                        EndpointStatusView {
                            endpoint: members[i].name,
                            online: members[i].value->Text_0,
                        },
                ),
            )
        } else {
            Err(DecodeError::InvalidType)
        },
        _ => Err(DecodeError::InvalidType),
    }
}

/// What the member `key` stands for as a flag written as itself.
pub open spec fn spec_bool_field(members: Seq<MemberValue>, key: Seq<char>) -> Result<
    bool,
    DecodeError,
> {
    match member(members, key) {
        Some(JsonValue::Bool(flag)) => Ok(flag),
        Some(_) => Err(DecodeError::InvalidType),
        None => Err(DecodeError::MissingField),
    }
}

impl Subscription {
    /// What a document stands for as a subscription report.
    pub open spec fn spec_decode(value: JsonValue) -> Result<SubscriptionView, DecodeError> {
        match value {
            JsonValue::Object(members) => {
                let character_count = spec_number_field(members, "characterCount"@);
                let event_names = spec_texts_field(members, "eventNames"@);
                let logical = spec_bool_field(members, "logicalAndCharactersWithWorlds"@);
                let worlds = spec_texts_field(members, "worlds"@);
                if character_count is Err {
                    Err(character_count->Err_0)
                } else if event_names is Err {
                    Err(event_names->Err_0)
                } else if logical is Err {
                    Err(logical->Err_0)
                } else if worlds is Err {
                    Err(worlds->Err_0)
                } else {
                    Ok(
                        SubscriptionView {
                            character_count: character_count->Ok_0,
                            event_names: event_names->Ok_0,
                            logical_and_characters_with_worlds: logical->Ok_0,
                            worlds: worlds->Ok_0,
                        },
                    )
                }
            },
            _ => Err(DecodeError::InvalidType),
        }
    }

    /// Reads a subscription report from its document.
    pub fn decode(value: &Json) -> (r: Result<Subscription, DecodeError>)
        ensures
            match r {
                Ok(subscription) => Self::spec_decode(value@) == Ok::<
                    SubscriptionView,
                    DecodeError,
                >(subscription@),
                Err(e) => Self::spec_decode(value@) == Err::<SubscriptionView, DecodeError>(e),
            },
    {
        match value {
            Json::Object(members) => {
                proof {
                    lemma_object_view(*members);
                }
                let character_count = number_field(members, "characterCount")?;
                let event_names = texts_field(members, "eventNames")?;
                let logical_and_characters_with_worlds = bool_field(
                    members,
                    "logicalAndCharactersWithWorlds",
                )?;
                let worlds = texts_field(members, "worlds")?;
                Ok(
                    Subscription {
                        character_count,
                        event_names,
                        logical_and_characters_with_worlds,
                        worlds,
                    },
                )
            },
            _ => Err(DecodeError::InvalidType),
        }
    }
}

fn texts(value: &Json) -> (r: Result<Vec<String>, DecodeError>)
    ensures
        match r {
            Ok(texts) => spec_texts(value@) == Ok::<Seq<Seq<char>>, DecodeError>(
                texts_view(texts@),
            ),
            Err(e) => spec_texts(value@) == Err::<Seq<Seq<char>>, DecodeError>(e),
        },
{
    match value {
        Json::Array(items) => {
            proof {
                lemma_array_view(*items);
            }
            let ghost viewed = items_view(items@);
            let mut texts: Vec<String> = Vec::new();
            let mut i: usize = 0;
            while i < items.len()
                invariant
                    i <= items.len(),
                    viewed == items_view(items@),
                    value@ == JsonValue::Array(viewed),
                    texts@.len() == i,
                    forall|j: int| 0 <= j < i ==> (#[trigger] viewed[j]) is Text,
                    forall|j: int| 0 <= j < i ==> (#[trigger] texts@[j])@ == viewed[j]->Text_0,
                decreases items.len() - i,
            {
                match &items[i] {
                    Json::Text(text) => {
                        texts.push(text.clone());
                    },
                    _ => {
                        assert(!(viewed[i as int] is Text));
                        assert(!all_texts(viewed));
                        return Err(DecodeError::InvalidType);
                    },
                }
                i = i + 1;
            }
            proof {
                assert(all_texts(viewed));
                assert(texts_view(texts@) =~= Seq::new(viewed.len(), |i: int| viewed[i]->Text_0));
            }
            Ok(texts)
        },
        _ => Err(DecodeError::InvalidType),
    }
}

fn texts_field(members: &Vec<Member>, key: &str) -> (r: Result<Vec<String>, DecodeError>)
    ensures
        match r {
            Ok(texts) => spec_texts_field(members_view(members@), key@) == Ok::<
                Seq<Seq<char>>,
                DecodeError,
            >(texts_view(texts@)),
            Err(e) => spec_texts_field(members_view(members@), key@) == Err::<
                Seq<Seq<char>>,
                DecodeError,
            >(e),
        },
{
    match get(members, key) {
        Some(value) => texts(value),
        None => Err(DecodeError::MissingField),
    }
}

fn bool_field(members: &Vec<Member>, key: &str) -> (r: Result<bool, DecodeError>)
    ensures
        r == spec_bool_field(members_view(members@), key@),
{
    match get(members, key) {
        Some(Json::Bool(flag)) => Ok(*flag),
        Some(_) => Err(DecodeError::InvalidType),
        None => Err(DecodeError::MissingField),
    }
}

fn statuses(value: &Json) -> (r: Result<Vec<EndpointStatus>, DecodeError>)
    ensures
        match r {
            Ok(statuses) => spec_statuses(value@) == Ok::<Seq<EndpointStatusView>, DecodeError>(
                statuses_view(statuses@),
            ),
            Err(e) => spec_statuses(value@) == Err::<Seq<EndpointStatusView>, DecodeError>(e),
        },
{
    match value {
        Json::Object(members) => {
            proof {
                lemma_object_view(*members);
            }
            let ghost viewed = members_view(members@);
            let mut statuses: Vec<EndpointStatus> = Vec::new();
            let mut i: usize = 0;
            while i < members.len()
                invariant
                    i <= members.len(),
                    viewed == members_view(members@),
                    value@ == JsonValue::Object(viewed),
                    statuses@.len() == i,
                    forall|j: int| 0 <= j < i ==> (#[trigger] viewed[j]).value is Text,
                    forall|j: int|
                        0 <= j < i ==> (#[trigger] statuses@[j]).endpoint@ == viewed[j].name
                            && statuses@[j].online@ == viewed[j].value->Text_0,
                decreases members.len() - i,
            {
                match &members[i].value {
                    Json::Text(text) => {
                        statuses.push(
                            EndpointStatus {
                                endpoint: members[i].name.clone(),
                                online: text.clone(),
                            },
                        );
                    },
                    _ => {
                        assert(!(viewed[i as int].value is Text));
                        assert(!all_text_members(viewed));
                        return Err(DecodeError::InvalidType);
                    },
                }
                i = i + 1;
            }
            proof {
                assert(all_text_members(viewed));
                assert(statuses_view(statuses@) =~= Seq::new(
                    viewed.len(),
                    |i: int|
                        EndpointStatusView {
                            endpoint: viewed[i].name,
                            online: viewed[i].value->Text_0,
                        },
                ));
            }
            Ok(statuses)
        },
        _ => Err(DecodeError::InvalidType),
    }
}

impl CensusMessage {
    /// What a document stands for as a message of the feed. The document
    /// has to be an object; its member `type` says which kind of message it
    /// is, and the other members are read as that kind asks.
    pub open spec fn spec_decode(document: JsonValue) -> Result<CensusMessageView, DecodeError> {
        match document {
            JsonValue::Object(members) => match member(members, "type"@) {
                None => Err(DecodeError::MissingField),
                Some(JsonValue::Text(kind)) => {
                    if kind == "connectionStateChanged"@ {
                        match spec_field::<bool>(members, "connected"@) {
                            Ok(connected) => Ok(
                                CensusMessageView::ConnectionStateChanged { connected },
                            ),
                            Err(e) => Err(e),
                        }
                    } else if kind == "heartbeat"@ {
                        match member(members, "online"@) {
                            None => Err(DecodeError::MissingField),
                            Some(value) => match spec_statuses(value) {
                                Ok(online) => Ok(CensusMessageView::Heartbeat { online }),
                                Err(e) => Err(e),
                            },
                        }
                    } else if kind == "serviceMessage"@ {
                        match member(members, "payload"@) {
                            None => Err(DecodeError::MissingField),
                            Some(JsonValue::Object(payload)) => match Event::spec_decode(payload) {
                                Ok(payload) => Ok(CensusMessageView::ServiceMessage { payload }),
                                Err(e) => Err(e),
                            },
                            Some(_) => Err(DecodeError::InvalidType),
                        }
                    } else if kind == "serviceStateChanged"@ {
                        let online = spec_field::<bool>(members, "online"@);
                        let detail = spec_text_field(members, "detail"@);
                        if online is Err {
                            Err(online->Err_0)
                        } else if detail is Err {
                            Err(detail->Err_0)
                        } else {
                            Ok(
                                CensusMessageView::ServiceStateChanged {
                                    online: online->Ok_0,
                                    detail: detail->Ok_0,
                                },
                            )
                        }
                    } else if kind == "subscription"@ {
                        match member(members, "subscription"@) {
                            None => Err(DecodeError::MissingField),
                            Some(value) => match Subscription::spec_decode(value) {
                                Ok(subscription) => Ok(
                                    CensusMessageView::Subscription { subscription },
                                ),
                                Err(e) => Err(e),
                            },
                        }
                    } else {
                        Err(DecodeError::UnknownVariant)
                    }
                },
                Some(_) => Err(DecodeError::InvalidType),
            },
            _ => Err(DecodeError::InvalidType),
        }
    }

    /// What a text stands for as a message of the feed: the message of the
    /// document that the text reads as.
    pub open spec fn spec_parse(text: Seq<char>) -> Result<CensusMessageView, DecodeError> {
        match parsed_document(text) {
            Some(document) => Self::spec_decode(document),
            None => Err(DecodeError::Syntax),
        }
    }

    /// Reads a message of the feed from its document.
    pub fn decode(document: &Json) -> (r: Result<CensusMessage, DecodeError>)
        ensures
            match r {
                Ok(message) => Self::spec_decode(document@) == Ok::<
                    CensusMessageView,
                    DecodeError,
                >(message@),
                Err(e) => Self::spec_decode(document@) == Err::<CensusMessageView, DecodeError>(
                    e,
                ),
            },
    {
        let members = match document {
            Json::Object(members) => members,
            _ => return Err(DecodeError::InvalidType),
        };
        proof {
            lemma_object_view(*members);
        }
        let kind = match get(members, "type") {
            None => return Err(DecodeError::MissingField),
            Some(Json::Text(kind)) => chars_of(kind.as_str()),
            Some(_) => return Err(DecodeError::InvalidType),
        };
        if spells(&kind, "connectionStateChanged") {
            let connected = field::<bool>(members, "connected")?;
            Ok(CensusMessage::ConnectionStateChanged { connected })
        } else if spells(&kind, "heartbeat") {
            match get(members, "online") {
                None => Err(DecodeError::MissingField),
                Some(value) => {
                    let online = statuses(value)?;
                    Ok(CensusMessage::Heartbeat { online })
                },
            }
        } else if spells(&kind, "serviceMessage") {
            match get(members, "payload") {
                None => Err(DecodeError::MissingField),
                Some(Json::Object(payload)) => {
                    proof {
                        lemma_object_view(*payload);
                    }
                    let payload = Event::decode(payload)?;
                    Ok(CensusMessage::ServiceMessage { payload })
                },
                Some(_) => Err(DecodeError::InvalidType),
            }
        } else if spells(&kind, "serviceStateChanged") {
            let online = field::<bool>(members, "online")?;
            let detail = text_field(members, "detail")?;
            Ok(CensusMessage::ServiceStateChanged { online, detail })
        } else if spells(&kind, "subscription") {
            match get(members, "subscription") {
                None => Err(DecodeError::MissingField),
                Some(value) => {
                    let subscription = Subscription::decode(value)?;
                    Ok(CensusMessage::Subscription { subscription })
                },
            }
        } else {
            Err(DecodeError::UnknownVariant)
        }
    }

    /// Reads a message of the feed from its text.
    pub fn parse(text: &str) -> (r: Result<CensusMessage, DecodeError>)
        ensures
            match r {
                Ok(message) => Self::spec_parse(text@) == Ok::<CensusMessageView, DecodeError>(
                    message@,
                ),
                Err(e) => Self::spec_parse(text@) == Err::<CensusMessageView, DecodeError>(e),
            },
    {
        match Json::parse(text) {
            Some(document) => Self::decode(&document),
            None => Err(DecodeError::Syntax),
        }
    }
}

} // verus!
