//! The client of the feed, as the decisions it takes: what to do when the
//! connection opens, when a frame comes in, when the connection is lost.
//! The one who runs the client carries out what is decided.
use crate::census::address::{parse_url, parsed_url};
use crate::census::event::{Event, EventNames};
use crate::census::subscription::{
    CharacterSubscription, EventSubscription, SubscriptionSettings, WorldSubscription,
};
use crate::census::utils::DecodeError;
use crate::census::{Action, CensusMessage, CensusMessageView, Service, REALTIME_URL};
use crate::json::rendered_document;
use vstd::prelude::*;
use vstd::string::StringExecFns;

verus! {

/// How far the connection to the feed has come.
#[derive(Clone, Copy, Debug, PartialEq, Eq, Structural)]
pub enum Phase {
    /// No connection, and none being made.
    Disconnected,
    /// The transport is being opened.
    Connecting,
    /// The transport is open; the feed has yet to say that it is ready.
    Subscribing,
    /// The subscription was sent; events come in.
    Streaming,
}

/// The state of the client: how far the connection has come, and how many
/// times in a row it was lost before it got to stream.
#[derive(Clone, Copy, Debug, PartialEq, Eq, Structural)]
pub struct State {
    pub phase: Phase,
    pub attempts: u32,
}

/// Where and as whom the feed is reached.
#[derive(Debug, Clone)]
pub struct RealtimeClientConfig {
    pub environment: String,
    pub service_id: String,
    /// The address of the feed, as a URL; the usual one where there is none.
    pub realtime_url: Option<String>,
}

/// How long to wait before the connection is made again: twice as long
/// after every loss, up to a longest wait. Both are in milliseconds.
#[derive(Clone, Copy, Debug, PartialEq, Eq, Structural)]
pub struct Backoff {
    pub initial: u64,
    pub maximum: u64,
}

/// What the one who runs the client is to do next.
#[derive(Debug)]
pub enum Command {
    /// Nothing.
    Idle,
    /// Open the transport to this address.
    Connect { address: String },
    /// Send this request, which subscribes to the events, and count one
    /// more connection.
    Subscribe { request: String },
    /// Hand this event to the dispatcher.
    Dispatch { event: Event },
    /// Count one more heartbeat.
    Heartbeat,
    /// Log that a frame was not understood, and count one more error.
    Report { error: DecodeError },
    /// Close the connection in the regular way, giving this reason.
    Close { reason: String },
    /// Wait this many milliseconds, then connect again.
    Retry { delay: u64 },
    /// Give up: there is no address to connect to.
    Abort,
}

/// `initial` doubled `times` times.
pub open spec fn doubled(initial: nat, times: nat) -> nat
    decreases times,
{
    if times == 0 {
        initial
    } else {
        2 * doubled(initial, (times - 1) as nat)
    }
}

proof fn lemma_doubled_grows(initial: nat, times: nat, more: nat)
    requires
        times <= more,
    ensures
        doubled(initial, times) <= doubled(initial, more),
    decreases more,
{
    if times < more {
        lemma_doubled_grows(initial, times, (more - 1) as nat);
    }
}

impl Backoff {
    /// The wait before the connection is made again after `attempts` losses
    /// in a row: the first wait doubled once for each loss, but no longer
    /// than the longest wait.
    pub open spec fn spec_delay(self, attempts: u32) -> nat {
        if doubled(self.initial as nat, attempts as nat) <= self.maximum {
            doubled(self.initial as nat, attempts as nat)
        } else {
            self.maximum as nat
        }
    }

    /// The wait before the connection is made again after `attempts` losses
    /// in a row.
    pub fn delay(&self, attempts: u32) -> (delay: u64)
        ensures
            delay == self.spec_delay(attempts),
            delay <= self.maximum,
    {
        if self.initial == 0 {
            proof {
                lemma_doubled_zero(attempts as nat);
            }
            return 0;
        }
        let mut wait: u64 = self.initial;
        let mut i: u32 = 0;
        while i < attempts && wait <= self.maximum / 2
            invariant
                i <= attempts,
                wait == doubled(self.initial as nat, i as nat),
                wait >= 1,
            decreases attempts - i,
        {
            wait = wait * 2;
            i = i + 1;
        }
        if i < attempts {
            proof {
                assert(doubled(self.initial as nat, (i + 1) as nat) > self.maximum);
                lemma_doubled_grows(self.initial as nat, (i + 1) as nat, attempts as nat);
            }
            self.maximum
        } else if wait <= self.maximum {
            wait
        } else {
            self.maximum
        }
    }
}

proof fn lemma_doubled_zero(times: nat)
    ensures
        doubled(0, times) == 0,
    decreases times,
{
    if times > 0 {
        lemma_doubled_zero((times - 1) as nat);
    }
}

/// What follows the address of the feed in the address to connect to: who
/// connects, and to which of the feed's environments.
pub open spec fn address_query(config: RealtimeClientConfig) -> Seq<char> {
    "?environment="@ + config.environment@ + "&service-id=s:"@ + config.service_id@
}

/// The address to connect to: the configured address of the feed, or else
/// the usual one as the `url` crate reads and writes it, followed by who
/// connects. Empty where the usual address should not read as a URL.
pub open spec fn spec_census_address(config: RealtimeClientConfig) -> Seq<char> {
    match config.realtime_url {
        Some(url) => url@ + address_query(config),
        None => match parsed_url(REALTIME_URL@) {
            Some(url) => url + address_query(config),
            None => Seq::empty(),
        },
    }
}

/// Puts together the address to connect to.
pub fn get_census_address(config: &RealtimeClientConfig) -> (address: String)
    ensures
        address@ == spec_census_address(*config),
{
    let base_url = match &config.realtime_url {
        Some(url) => url.clone(),
        None => match parse_url(REALTIME_URL) {
            Ok(url) => url,
            Err(_) => {
                return String::new();
            },
        },
    };
    let address = base_url.concat("?environment=").concat(config.environment.as_str()).concat(
        "&service-id=s:",
    ).concat(config.service_id.as_str());
    proof {
        assert(address@ =~= spec_census_address(*config));
    }
    address
}

/// The subscription that the client asks for: the activity pulses of all
/// characters on all worlds.
pub fn get_subscription_settings() -> (settings: SubscriptionSettings)
    ensures
        settings.event_names matches Some(EventSubscription::Ids(names)) && names@
            == seq![EventNames::GainExperience],
        settings.characters == Some(CharacterSubscription::All),
        settings.worlds == Some(WorldSubscription::All),
        settings.logical_and_characters_with_worlds == Some(true),
        settings.service == Service::Event,
{
    let mut names: Vec<EventNames> = Vec::new();
    names.push(EventNames::GainExperience);
    proof {
        assert(names@ =~= seq![EventNames::GainExperience]);
    }
    SubscriptionSettings {
        event_names: Some(EventSubscription::Ids(names)),
        characters: Some(CharacterSubscription::All),
        worlds: Some(WorldSubscription::All),
        logical_and_characters_with_worlds: Some(true),
        service: Service::Event,
    }
}

/// What the feed's word on the connection calls for: once the feed says
/// that it is connected, the subscription is sent; when it says that it is
/// not, there is nothing to do.
pub fn handle_connection_state(connected: bool, subscription: &SubscriptionSettings) -> (command:
    Command)
    ensures
        connected ==> (command matches Command::Subscribe { request } && request@
            == rendered_document(Action::Subscribe(*subscription).spec_json())),
        !connected ==> command is Idle,
{
    if !connected {
        return Command::Idle;
    }
    Command::Subscribe { request: Action::subscribe_text(subscription) }
}

impl State {
    /// The state before anything has happened.
    pub fn new() -> (state: State)
        ensures
            state == (State { phase: Phase::Disconnected, attempts: 0 }),
    {
        State { phase: Phase::Disconnected, attempts: 0 }
    }

    /// Whether the transport is open, so that frames can come in.
    pub open spec fn is_open(self) -> bool {
        self.phase == Phase::Subscribing || self.phase == Phase::Streaming
    }

    /// The transport was opened.
    pub fn on_connect(&mut self)
        ensures
            final(self).attempts == old(self).attempts,
            final(self).phase == (if old(self).phase == Phase::Connecting {
                Phase::Subscribing
            } else {
                old(self).phase
            }),
    {
        if self.phase == Phase::Connecting {
            self.phase = Phase::Subscribing;
        }
    }

    /// A frame of text came in. A frame that is understood is handled as
    /// the message that it is. One that is not understood is reported and
    /// changes nothing: the connection goes on.
    pub fn on_text(&mut self, subscription: &SubscriptionSettings, text: &str) -> (command:
        Command)
        ensures
            CensusMessage::spec_parse(text@) is Err ==> *final(self) == *old(self) && (
            command matches Command::Report { error } && CensusMessage::spec_parse(text@) == Err::<
                CensusMessageView,
                DecodeError,
            >(error)),
            CensusMessage::spec_parse(text@) matches Ok(message) ==> follows(
                *old(self),
                *subscription,
                message,
                *final(self),
                command,
            ),
    {
        match CensusMessage::parse(text) {
            Ok(message) => handle_census_msg(self, subscription, message),
            Err(error) => Command::Report { error },
        }
    }

    /// The subscription could not be sent: the connection is closed in the
    /// regular way.
    pub fn on_send_failed(&mut self) -> (command: Command)
        ensures
            *final(self) == *old(self),
            command matches Command::Close { reason } && reason@ == "adios!"@,
    {
        Command::Close { reason: String::from_str("adios!") }
    }

    /// The connection was lost or closed. The client is disconnected, and
    /// is to connect again after a wait that doubles with every loss in a
    /// row.
    pub fn on_close(&mut self, backoff: &Backoff) -> (command: Command)
        ensures
            final(self).phase == Phase::Disconnected,
            final(self).attempts == (if old(self).attempts == u32::MAX {
                u32::MAX
            } else {
                (old(self).attempts + 1) as u32
            }),
            command == (Command::Retry { delay: backoff.spec_delay(old(self).attempts) as u64 }),
    {
        let delay = backoff.delay(self.attempts);
        self.phase = Phase::Disconnected;
        if self.attempts < u32::MAX {
            self.attempts = self.attempts + 1;
        }
        Command::Retry { delay }
    }
}

/// What the address to connect to reads as, as a URL.
pub open spec fn spec_target(config: RealtimeClientConfig) -> Option<Seq<char>> {
    parsed_url(spec_census_address(config))
}

/// Starts the client: where it is disconnected and the address to connect
/// to reads as a URL, the transport is to be opened to it; where the
/// address does not read as a URL, the client gives up. A client that is
/// connecting or connected is left alone.
pub fn client(state: &mut State, realtime_client_config: &RealtimeClientConfig) -> (command:
    Command)
    ensures
        old(state).phase != Phase::Disconnected ==> *final(state) == *old(state)
            && command is Idle,
        old(state).phase == Phase::Disconnected ==> final(state).attempts == old(state).attempts
            && match spec_target(*realtime_client_config) {
            Some(url) => final(state).phase == Phase::Connecting && (
            command matches Command::Connect { address } && address@ == url),
            None => final(state).phase == Phase::Disconnected && command is Abort,
        },
{
    if state.phase != Phase::Disconnected {
        return Command::Idle;
    }
    let address = get_census_address(realtime_client_config);
    match parse_url(address.as_str()) {
        Ok(address) => {
            state.phase = Phase::Connecting;
            Command::Connect { address }
        },
        Err(_) => Command::Abort,
    }
}

/// Whether `after` and `command` are what follows when the message
/// `message` comes in at `before`.
///
/// While the transport is not open no message can come in, and one that is
/// handed over all the same is ignored. The feed's word that it is
/// connected has the subscription sent and the client stream, the count of
/// losses in a row starting over. An event is handed to the dispatcher. A
/// heartbeat is counted. Any other message calls for nothing. No message
/// but the first changes the state.
pub open spec fn follows(
    before: State,
    subscription: SubscriptionSettings,
    message: CensusMessageView,
    after: State,
    command: Command,
) -> bool {
    if !before.is_open() {
        after == before && command is Idle
    } else {
        match message {
            CensusMessageView::ConnectionStateChanged { connected } => {
                if connected {
                    &&& after == (State { phase: Phase::Streaming, attempts: 0 })
                    &&& command matches Command::Subscribe { request }
                    &&& request@ == rendered_document(Action::Subscribe(subscription).spec_json())
                } else {
                    after == before && command is Idle
                }
            },
            CensusMessageView::Heartbeat { .. } => after == before
                && command is Heartbeat,
            CensusMessageView::ServiceStateChanged { .. } => after == before
                && command is Idle,
            CensusMessageView::ServiceMessage { payload } => {
                &&& after == before
                &&& command matches Command::Dispatch { event }
                &&& event@ == payload
            },
            CensusMessageView::Subscription { .. } => after == before
                && command is Idle,
        }
    }
}

/// Decides what a message of the feed calls for.
pub fn handle_census_msg(
    state: &mut State,
    subscription: &SubscriptionSettings,
    message: CensusMessage,
) -> (command: Command)
    ensures
        follows(*old(state), *subscription, message@, *final(state), command),
{
    if !(state.phase == Phase::Subscribing || state.phase == Phase::Streaming) {
        return Command::Idle;
    }
    match message {
        CensusMessage::ConnectionStateChanged { connected } => {
            let command = handle_connection_state(connected, subscription);
            if connected {
                state.phase = Phase::Streaming;
                state.attempts = 0;
            }
            command
        },
        CensusMessage::Heartbeat { .. } => Command::Heartbeat,
        CensusMessage::ServiceStateChanged { .. } => Command::Idle,
        CensusMessage::ServiceMessage { payload } => Command::Dispatch { event: payload },
        CensusMessage::Subscription { .. } => Command::Idle,
    }
}

/// A frame that is not understood neither ends the connection nor changes
/// anything else of the client's state.
pub proof fn lemma_unknown_messages_change_nothing(
    before: State,
    subscription: SubscriptionSettings,
    message: CensusMessageView,
    after: State,
    command: Command,
)
    requires
        follows(before, subscription, message, after, command),
        !(message is ConnectionStateChanged),
    ensures
        after == before,
        !(command is Close),
        !(command is Abort),
        !(command is Retry),
{
}

} // verus!
