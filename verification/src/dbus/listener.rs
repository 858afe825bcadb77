//! The listener on the session bus: the state machine that keeps a
//! subscription alive across failures, and the decoder that turns one
//! signal into a notification.
//!
//! The state machine decides and the host performs: `ListenerState::step`
//! takes what happened and says what to do next, and the host's loop
//! connects, waits, subscribes and receives as it is told.

use crate::dbus::types::{
    action_pairs, hint_views, hints_of, parse_actions, parse_hints, ActionView, HintValue,
    HintView, Notification, RawHints,
};
use crate::string_map::{has_key, keys_distinct, map_of, str_equal, with_entry, StringMap};
use crate::time::{clock_nanos, Timestamp};
pub use crate::dbus::sender::NOTIFICATIONS_INTERFACE;
use std::collections::hash_map::DefaultHasher;
use std::hash::{Hash, Hasher};
use vstd::prelude::*;

verus! {

/// Size of the delivery buffer between the bus and the decoder. Chosen for
/// bursts of about 20 notifications a second with sixfold headroom.
pub const NOTIFICATION_BUFFER_SIZE: usize = 128;

/// Delay in milliseconds before the first retry of a failed connection.
pub const INITIAL_RECONNECT_DELAY_MS: u64 = 100;

/// The longest delay in milliseconds between two connection attempts.
pub const MAX_RECONNECT_DELAY_MS: u64 = 30_000;

/// Failed attempts in a row after which the listener gives up.
pub const MAX_CONNECTION_RETRIES: u32 = 10;

/// Factor by which the delay grows with each failed attempt.
pub const RECONNECT_BACKOFF_MULTIPLIER: u64 = 2;

/// The name of the signal that carries a notification.
pub const NOTIFY_MEMBER: &'static str = "Notify";

/// Where the listener stands.
#[derive(Debug, Clone, Copy, PartialEq, Eq, Structural)]
pub enum ListenerState {
    /// Not started.
    Disconnected,
    /// Opening the connection. `failures` attempts of this cycle have
    /// failed; `delay_ms` is the wait that follows the next failure.
    Connecting { failures: u32, delay_ms: u64 },
    /// Waiting for `delay_ms` milliseconds after the failure numbered
    /// `failures`.
    Backoff { failures: u32, delay_ms: u64 },
    /// Connected, registering the match rule. The counts are those of the
    /// cycle, should the registration fail.
    Subscribed { failures: u32, delay_ms: u64 },
    /// Receiving messages.
    Streaming,
    /// The retries are used up: the listener has stopped for good.
    GaveUp,
}

/// What the host reports to the listener.
#[derive(Debug, Clone, Copy, PartialEq, Eq, Structural)]
pub enum ListenerEvent {
    /// The host starts the listener.
    Started,
    /// The connection is open.
    Connected,
    /// The connection could not be opened.
    ConnectFailed,
    /// The delay has been waited out.
    DelayElapsed,
    /// The match rule is registered and messages will come.
    SubscriptionReady,
    /// The match rule or the message stream could not be set up.
    SubscribeFailed,
    /// A message came and was handed on, or was dropped because it could
    /// not be received or decoded.
    MessageHandled,
    /// The stream of messages has ended.
    StreamEnded,
}

/// What the listener asks the host to do.
#[derive(Debug, Clone, Copy, PartialEq, Eq, Structural)]
pub enum ListenerAction {
    /// Nothing until the listener is started.
    Idle,
    /// Open a connection to the session bus.
    Connect,
    /// Wait for so many milliseconds.
    Wait { delay_ms: u64 },
    /// Register the match rule for the notification signals, with a
    /// delivery buffer of this size.
    Subscribe { buffer_size: usize },
    /// Receive the next message, decode it and hand it on.
    Receive,
    /// Stop: the sequence of notifications has ended.
    Stop,
}

/// The delay that follows `delay_ms`: twice as long, and no longer than
/// `MAX_RECONNECT_DELAY_MS`.
pub open spec fn next_delay(delay_ms: u64) -> u64 {
    if delay_ms * RECONNECT_BACKOFF_MULTIPLIER >= MAX_RECONNECT_DELAY_MS {
        MAX_RECONNECT_DELAY_MS
    } else {
        (delay_ms * RECONNECT_BACKOFF_MULTIPLIER) as u64
    }
}

/// The wait in milliseconds after the failure numbered `failure` of a
/// cycle, counted from 1: `INITIAL_RECONNECT_DELAY_MS` after the first
/// and the next delay after each further one.
pub open spec fn backoff_delay(failure: nat) -> u64
    decreases failure,
{
    if failure <= 1 {
        INITIAL_RECONNECT_DELAY_MS
    } else {
        next_delay(backoff_delay((failure - 1) as nat))
    }
}

/// The state at the start of a connection cycle.
pub open spec fn fresh_cycle() -> ListenerState {
    ListenerState::Connecting { failures: 0, delay_ms: INITIAL_RECONNECT_DELAY_MS }
}

/// What a failed attempt leads to: one more failure is counted and the
/// current delay is waited out.
pub open spec fn after_failure(failures: u32, delay_ms: u64) -> (ListenerState, ListenerAction) {
    (
        ListenerState::Backoff {
            failures: if failures < u32::MAX {
                (failures + 1) as u32
            } else {
                failures
            },
            delay_ms,
        },
        ListenerAction::Wait { delay_ms },
    )
}

/// What the listener asks for while it stands in `state` and nothing new
/// has happened.
pub open spec fn pending_action(state: ListenerState) -> ListenerAction {
    match state {
        ListenerState::Disconnected => ListenerAction::Idle,
        ListenerState::Connecting { .. } => ListenerAction::Connect,
        ListenerState::Backoff { delay_ms, .. } => ListenerAction::Wait { delay_ms },
        ListenerState::Subscribed { .. } => ListenerAction::Subscribe {
            buffer_size: NOTIFICATION_BUFFER_SIZE,
        },
        ListenerState::Streaming => ListenerAction::Receive,
        ListenerState::GaveUp => ListenerAction::Stop,
    }
}

/// The transition of the listener: the state and the action that follow
/// `event` in `state`. An event that the state does not wait for changes
/// nothing.
pub open spec fn transition(state: ListenerState, event: ListenerEvent) -> (
    ListenerState,
    ListenerAction,
) {
    match (state, event) {
        (ListenerState::Disconnected, ListenerEvent::Started) => (
            fresh_cycle(),
            ListenerAction::Connect,
        ),
        (ListenerState::Connecting { failures, delay_ms }, ListenerEvent::Connected) => (
            ListenerState::Subscribed { failures, delay_ms },
            ListenerAction::Subscribe { buffer_size: NOTIFICATION_BUFFER_SIZE },
        ),
        (ListenerState::Connecting { failures, delay_ms }, ListenerEvent::ConnectFailed) => {
            after_failure(failures, delay_ms)
        },
        (ListenerState::Backoff { failures, delay_ms }, ListenerEvent::DelayElapsed) => {
            if failures >= MAX_CONNECTION_RETRIES {
                (ListenerState::GaveUp, ListenerAction::Stop)
            } else {
                (
                    ListenerState::Connecting { failures, delay_ms: next_delay(delay_ms) },
                    ListenerAction::Connect,
                )
            }
        },
        (ListenerState::Subscribed { .. }, ListenerEvent::SubscriptionReady) => (
            ListenerState::Streaming,
            ListenerAction::Receive,
        ),
        (ListenerState::Subscribed { failures, delay_ms }, ListenerEvent::SubscribeFailed) => {
            after_failure(failures, delay_ms)
        },
        (ListenerState::Streaming, ListenerEvent::MessageHandled) => (
            ListenerState::Streaming,
            ListenerAction::Receive,
        ),
        (ListenerState::Streaming, ListenerEvent::StreamEnded) => (
            fresh_cycle(),
            ListenerAction::Connect,
        ),
        _ => (state, pending_action(state)),
    }
}

impl ListenerState {
    /// The state of a listener that has not been started.
    pub fn new() -> (s: ListenerState)
        ensures
            s == ListenerState::Disconnected,
    {
        ListenerState::Disconnected
    }

    /// Whether the listener has stopped for good.
    pub fn has_given_up(&self) -> (r: bool)
        ensures
            r == (*self == ListenerState::GaveUp),
    {
        match self {
            ListenerState::GaveUp => true,
            _ => false,
        }
    }

    /// The state and the action that follow `event`.
    pub fn step(self, event: ListenerEvent) -> (r: (ListenerState, ListenerAction))
        ensures
            r == transition(self, event),
    {
        match (self, event) {
            (ListenerState::Disconnected, ListenerEvent::Started) => (
                ListenerState::Connecting { failures: 0, delay_ms: INITIAL_RECONNECT_DELAY_MS },
                ListenerAction::Connect,
            ),
            (ListenerState::Connecting { failures, delay_ms }, ListenerEvent::Connected) => (
                ListenerState::Subscribed { failures, delay_ms },
                ListenerAction::Subscribe { buffer_size: NOTIFICATION_BUFFER_SIZE },
            ),
            (ListenerState::Connecting { failures, delay_ms }, ListenerEvent::ConnectFailed) => {
                retry_connect(failures, delay_ms)
            },
            (ListenerState::Backoff { failures, delay_ms }, ListenerEvent::DelayElapsed) => {
                if failures >= MAX_CONNECTION_RETRIES {
                    (ListenerState::GaveUp, ListenerAction::Stop)
                } else {
                    (
                        ListenerState::Connecting { failures, delay_ms: grow_delay(delay_ms) },
                        ListenerAction::Connect,
                    )
                }
            },
            (ListenerState::Subscribed { .. }, ListenerEvent::SubscriptionReady) => (
                ListenerState::Streaming,
                ListenerAction::Receive,
            ),
            (ListenerState::Subscribed { failures, delay_ms }, ListenerEvent::SubscribeFailed) => {
                retry_connect(failures, delay_ms)
            },
            (ListenerState::Streaming, ListenerEvent::MessageHandled) => (
                ListenerState::Streaming,
                ListenerAction::Receive,
            ),
            (ListenerState::Streaming, ListenerEvent::StreamEnded) => (
                ListenerState::Connecting { failures: 0, delay_ms: INITIAL_RECONNECT_DELAY_MS },
                ListenerAction::Connect,
            ),
            (state, _) => {
                let action = match state {
                    ListenerState::Disconnected => ListenerAction::Idle,
                    ListenerState::Connecting { .. } => ListenerAction::Connect,
                    ListenerState::Backoff { delay_ms, .. } => ListenerAction::Wait { delay_ms },
                    ListenerState::Subscribed { .. } => ListenerAction::Subscribe {
                        buffer_size: NOTIFICATION_BUFFER_SIZE,
                    },
                    ListenerState::Streaming => ListenerAction::Receive,
                    ListenerState::GaveUp => ListenerAction::Stop,
                };
                (state, action)
            },
        }
    }
}

/// The delay after `delay_ms` in the backoff: doubled and capped.
pub fn grow_delay(delay_ms: u64) -> (r: u64)
    ensures
        r == next_delay(delay_ms),
{
    if delay_ms >= MAX_RECONNECT_DELAY_MS / RECONNECT_BACKOFF_MULTIPLIER {
        MAX_RECONNECT_DELAY_MS
    } else {
        delay_ms * RECONNECT_BACKOFF_MULTIPLIER
    }
}

/// What follows a failed attempt to connect or to subscribe: one more
/// failure is counted and the host waits for the current delay.
pub fn retry_connect(failures: u32, delay_ms: u64) -> (r: (ListenerState, ListenerAction))
    ensures
        r == after_failure(failures, delay_ms),
{
    let counted = if failures < u32::MAX {
        failures + 1
    } else {
        failures
    };
    (ListenerState::Backoff { failures: counted, delay_ms }, ListenerAction::Wait { delay_ms })
}

/// The state and action after the first `failures` attempts of a cycle
/// have all failed to connect, `failures` being at least 1: each failure
/// is followed by its wait and, but for the last, by the next attempt.
pub open spec fn after_failures(failures: nat) -> (ListenerState, ListenerAction)
    decreases failures,
{
    if failures <= 1 {
        transition(fresh_cycle(), ListenerEvent::ConnectFailed)
    } else {
        transition(
            transition(after_failures((failures - 1) as nat).0, ListenerEvent::DelayElapsed).0,
            ListenerEvent::ConnectFailed,
        )
    }
}

/// The delays of the backoff are 100 ms, then twice the last, and from
/// the tenth failure on the cap of 30 s.
pub proof fn law_backoff_delays()
    ensures
        backoff_delay(1) == 100,
        backoff_delay(2) == 200,
        backoff_delay(3) == 400,
        backoff_delay(4) == 800,
        backoff_delay(5) == 1_600,
        backoff_delay(6) == 3_200,
        backoff_delay(7) == 6_400,
        backoff_delay(8) == 12_800,
        backoff_delay(9) == 25_600,
        backoff_delay(10) == 30_000,
        backoff_delay(11) == 30_000,
{
    reveal_with_fuel(backoff_delay, 12);
}

/// Every delay of the backoff lies between the first delay and the cap,
/// and no delay is shorter than the one before it.
pub proof fn lemma_backoff_bounds(failure: nat)
    ensures
        INITIAL_RECONNECT_DELAY_MS <= backoff_delay(failure) <= MAX_RECONNECT_DELAY_MS,
        backoff_delay(failure) <= backoff_delay(failure + 1),
        failure >= 1 ==> backoff_delay(failure + 1) == next_delay(backoff_delay(failure)),
    decreases failure,
{
    if failure > 1 {
        lemma_backoff_bounds((failure - 1) as nat);
    }
    if failure >= 1 {
        assert(backoff_delay(failure + 1) == next_delay(backoff_delay(failure))) by {
            reveal_with_fuel(backoff_delay, 2);
        }
    } else {
        assert(backoff_delay(1) == backoff_delay(0)) by {
            reveal_with_fuel(backoff_delay, 2);
        }
    }
}

/// Backoff sequence: while connecting keeps failing, the failure numbered
/// `k` of a cycle is followed by a wait of `backoff_delay(k)`
/// milliseconds, for each of the first `MAX_CONNECTION_RETRIES` failures.
pub proof fn law_backoff_sequence(k: nat)
    requires
        1 <= k <= MAX_CONNECTION_RETRIES,
    ensures
        after_failures(k) == (
            ListenerState::Backoff { failures: k as u32, delay_ms: backoff_delay(k) },
            ListenerAction::Wait { delay_ms: backoff_delay(k) },
        ),
    decreases k,
{
    lemma_backoff_bounds(k);
    if k > 1 {
        law_backoff_sequence((k - 1) as nat);
        lemma_backoff_bounds((k - 1) as nat);
    }
}

/// After the failure numbered `MAX_CONNECTION_RETRIES` has been waited
/// out, no further attempt is made: the listener gives up, and whatever
/// is reported to it from then on, it stays stopped.
pub proof fn law_gives_up_after_retries(event: ListenerEvent)
    ensures
        transition(after_failures(MAX_CONNECTION_RETRIES as nat).0, ListenerEvent::DelayElapsed)
            == (ListenerState::GaveUp, ListenerAction::Stop),
        transition(ListenerState::GaveUp, event) == (ListenerState::GaveUp, ListenerAction::Stop),
{
    law_backoff_sequence(MAX_CONNECTION_RETRIES as nat);
}

/// The listener gives up only when the retries are used up: a step leads
/// into `GaveUp` from another state only after the wait that follows the
/// last allowed failure.
pub proof fn law_gives_up_only_after_retries(state: ListenerState, event: ListenerEvent)
    requires
        state != ListenerState::GaveUp,
        transition(state, event).0 == ListenerState::GaveUp,
    ensures
        event == ListenerEvent::DelayElapsed,
        state matches ListenerState::Backoff { failures, .. } && failures >= MAX_CONNECTION_RETRIES,
{
}

/// The end of a stream starts a new cycle with the full number of
/// retries, and a message, handed on or dropped, leaves the listener
/// streaming.
pub proof fn law_stream_recovers()
    ensures
        transition(ListenerState::Streaming, ListenerEvent::StreamEnded) == (
            fresh_cycle(),
            ListenerAction::Connect,
        ),
        transition(ListenerState::Streaming, ListenerEvent::MessageHandled) == (
            ListenerState::Streaming,
            ListenerAction::Receive,
        ),
{
}

/// `zbus`'s message. Verified code hands it to the readers below and does
/// not look into it.
#[verifier::external_type_specification]
#[verifier::external_body]
pub struct ExMessage(zbus::Message);

/// `zbus`'s error. Verified code carries it and does not look into it.
#[verifier::external_type_specification]
#[verifier::external_body]
pub struct ExBusError(zbus::Error);

/// Why a signal could not be decoded. None of these ends the stream: the
/// host drops the signal and goes on.
#[derive(Debug)]
pub enum NotificationError {
    /// The message names no member.
    MissingMember,
    /// The message is another signal than `Notify`; its member is held.
    UnexpectedSignal(String),
    /// The body is not that of a `Notify` signal.
    DeserializeFailed(zbus::Error),
}

impl NotificationError {
    /// The error in words.
    pub fn message(&self) -> (text: String)
        ensures
            self is MissingMember ==> text@ == "D-Bus message missing member field"@,
            self matches NotificationError::UnexpectedSignal(member) ==> text@
                == "Unexpected signal: "@ + member@ + ", expected 'Notify'"@,
            self is DeserializeFailed ==> "Failed to deserialize notification body: "@.is_prefix_of(
                text@,
            ),
    {
        match self {
            NotificationError::MissingMember => "D-Bus message missing member field".to_owned(),
            NotificationError::UnexpectedSignal(member) => {
                let mut text = "Unexpected signal: ".to_owned();
                text.append(member.as_str());
                text.append(", expected 'Notify'");
                text
            },
            NotificationError::DeserializeFailed(error) => {
                let mut text = "Failed to deserialize notification body: ".to_owned();
                let detail = describe_bus_error(error);
                text.append(detail.as_str());
                text
            },
        }
    }
}

/// The text that `zbus::Error`'s `Display` gives for `error`.
///
/// Trusted: nothing is claimed of the text.
#[verifier::external_body]
fn describe_bus_error(error: &zbus::Error) -> String {
    format!("{}", error)
}

/// The eight arguments of a `Notify` signal, in the order of the
/// protocol, the hints as the entries of their dictionary.
#[derive(Debug)]
pub struct NotifyArguments {
    pub app_name: String,
    pub replaces_id: u32,
    pub app_icon: String,
    pub summary: String,
    pub body: String,
    pub actions: Vec<String>,
    pub hints: Vec<(String, HintValue)>,
    pub expire_timeout: i32,
}

/// The arguments of a `Notify` signal as the bus library hands them out:
/// the values of the hints are still its own.
struct RawArguments {
    app_name: String,
    replaces_id: u32,
    app_icon: String,
    summary: String,
    body: String,
    actions: Vec<String>,
    hints: Vec<(String, zbus::zvariant::OwnedValue)>,
    expire_timeout: i32,
}

/// What the body of a `Notify` signal holds, as plain values: the hints
/// by what the hint rules read of them.
pub struct SignalArguments {
    pub app_name: Seq<char>,
    pub replaces_id: u32,
    pub app_icon: Seq<char>,
    pub summary: Seq<char>,
    pub body: Seq<char>,
    pub actions: Seq<Seq<char>>,
    pub hints: Map<Seq<char>, HintView>,
    pub expire_timeout: i32,
}

/// The member that the header of a message names, as `zbus`'s
/// `Message::header` and `Header::member` give it; none where the header
/// names no member.
pub uninterp spec fn signal_member_of(message: zbus::Message) -> Option<Seq<char>>;

/// The eight arguments that the body of a message holds, as `zbus`'s
/// `Body::deserialize` reads them for the signature of `Notify`; none
/// where the body is of another shape.
pub uninterp spec fn signal_arguments_of(message: zbus::Message) -> Option<SignalArguments>;

/// What the hint rules read of a value, as `zvariant`'s
/// `Value::downcast_ref` tells: a byte, a boolean, a 32-bit integer or a
/// string, or a value of another kind.
pub uninterp spec fn hint_read(value: zbus::zvariant::OwnedValue) -> HintView;

/// The reading of hint values, as a function.
pub open spec fn reading() -> spec_fn(zbus::zvariant::OwnedValue) -> HintView {
    |value: zbus::zvariant::OwnedValue| hint_read(value)
}

/// The characters of each of a run of strings.
pub open spec fn string_views(strings: Seq<String>) -> Seq<Seq<char>> {
    strings.map_values(|s: String| s@)
}

/// The entries of a dictionary with each name by its characters.
pub open spec fn named_entries<V>(entries: Seq<(String, V)>) -> Seq<(Seq<char>, V)> {
    entries.map_values(|e: (String, V)| (e.0@, e.1))
}

impl RawArguments {
    /// The arguments as plain values, the hints as the map that their
    /// entries stand for, each value by what is read of it.
    closed spec fn view(&self) -> SignalArguments {
        SignalArguments {
            app_name: self.app_name@,
            replaces_id: self.replaces_id,
            app_icon: self.app_icon@,
            summary: self.summary@,
            body: self.body@,
            actions: string_views(self.actions@),
            hints: map_of(named_entries(self.hints@)).map_values(reading()),
            expire_timeout: self.expire_timeout,
        }
    }
}

/// The member that the header of `message` names, by `zbus`'s
/// `Message::header` and `Header::member`.
///
/// Trusted: the contract gives the member a name: it depends on the
/// message alone.
#[verifier::external_body]
fn signal_member(message: &zbus::Message) -> (member: Option<String>)
    ensures
        match member {
            Some(name) => signal_member_of(*message) == Some(name@),
            None => signal_member_of(*message) is None,
        },
{
    message.header().member().map(|member| member.as_str().to_string())
}

/// One hint value in the library's terms, read with `zvariant`'s
/// `Value::downcast_ref`: a byte, a boolean, a 32-bit integer or a string
/// as such, each also where it came wrapped in a variant, and any other
/// value unread.
///
/// Trusted: the contract gives a name to what is read of the value: the
/// kind and, but for a value of another kind, what it holds. That depends
/// on the value alone.
#[verifier::external_body]
fn hint_value(value: zbus::zvariant::OwnedValue) -> (hint: HintValue)
    ensures
        hint@ == hint_read(value),
{
    if let Ok(byte) = value.downcast_ref::<u8>() {
        return HintValue::Byte(byte);
    }
    if let Ok(flag) = value.downcast_ref::<bool>() {
        return HintValue::Bool(flag);
    }
    if let Ok(number) = value.downcast_ref::<i32>() {
        return HintValue::Int32(number);
    }
    if let Ok(text) = value.downcast_ref::<&str>() {
        return HintValue::Text(text.to_string());
    }
    HintValue::Other(value)
}

/// The arguments that the body of `message` holds, by `zbus`'s
/// `Message::body` and `Body::deserialize` for the signature of `Notify`;
/// the error of `zbus` where the body is of another shape.
///
/// Trusted: the contract gives the arguments a name: they depend on the
/// message alone. The hints come out of a dictionary, so no name occurs
/// twice among them; their order is left open.
#[verifier::external_body]
fn signal_arguments(message: &zbus::Message) -> (r: Result<RawArguments, zbus::Error>)
    ensures
        match r {
            Ok(raw) => signal_arguments_of(*message) == Some(raw.view()) && keys_distinct(
                named_entries(raw.hints@),
            ),
            Err(_) => signal_arguments_of(*message) is None,
        },
{
    let body = message.body();
    let (app_name, replaces_id, app_icon, summary, text, actions, hints, expire_timeout): (
        String, u32, String, String, String, Vec<String>,
        std::collections::HashMap<String, zbus::zvariant::OwnedValue>, i32,
    ) = body.deserialize()?;
    let hints = hints.into_iter().collect();
    Ok(RawArguments {
        app_name, replaces_id, app_icon, summary, body: text, actions, hints, expire_timeout,
    })
}

/// Read the values of the hints of a signal into the library's terms:
/// each entry keeps its place and its name.
fn read_hints(raw: Vec<(String, zbus::zvariant::OwnedValue)>) -> (hints: Vec<(String, HintValue)>)
    ensures
        hints@.len() == raw@.len(),
        forall|i: int|
            0 <= i < raw@.len() ==> (#[trigger] hints@[i]).0@ == raw@[i].0@ && hints@[i].1@
                == hint_read(raw@[i].1),
{
    let ghost all = raw@;
    let mut raw = raw;
    let mut reversed: Vec<(String, HintValue)> = Vec::new();
    while raw.len() > 0
        invariant
            raw@.len() + reversed@.len() == all.len(),
            forall|i: int| 0 <= i < raw@.len() ==> raw@[i] == all[i],
            forall|i: int|
                0 <= i < reversed@.len() ==> (#[trigger] reversed@[i]).0@ == all[all.len() - 1
                    - i].0@ && reversed@[i].1@ == hint_read(all[all.len() - 1 - i].1),
        decreases raw.len(),
    {
        let entry = raw.pop().unwrap();
        let value = hint_value(entry.1);
        reversed.push((entry.0, value));
    }
    let mut hints: Vec<(String, HintValue)> = Vec::new();
    while reversed.len() > 0
        invariant
            hints@.len() + reversed@.len() == all.len(),
            forall|i: int|
                0 <= i < reversed@.len() ==> (#[trigger] reversed@[i]).0@ == all[all.len() - 1
                    - i].0@ && reversed@[i].1@ == hint_read(all[all.len() - 1 - i].1),
            forall|i: int|
                0 <= i < hints@.len() ==> (#[trigger] hints@[i]).0@ == all[i].0@ && hints@[i].1@
                    == hint_read(all[i].1),
        decreases reversed.len(),
    {
        let entry = reversed.pop().unwrap();
        hints.push(entry);
    }
    hints
}

/// The entries of a dictionary without a repeated name go into the map
/// one after the other, each as it is.
pub proof fn lemma_hint_entries_distinct(entries: Seq<(String, HintValue)>)
    requires
        keys_distinct(named_entries(entries)),
    ensures
        hint_entries(entries) == named_entries(entries),
    decreases entries.len(),
{
    if entries.len() == 0 {
        assert(hint_entries(entries) =~= named_entries(entries));
    } else {
        let front = entries.drop_last();
        let names = named_entries(entries);
        assert forall|i: int, j: int|
            0 <= i < front.len() && 0 <= j < front.len() && i != j implies (
        #[trigger] named_entries(front)[i]).0 != (#[trigger] named_entries(front)[j]).0 by {
            assert(named_entries(front)[i] == names[i]);
            assert(named_entries(front)[j] == names[j]);
        }
        lemma_hint_entries_distinct(front);
        let last = entries.last();
        if has_key(named_entries(front), last.0@) {
            let i = choose|i: int|
                0 <= i < front.len() && (#[trigger] named_entries(front)[i]).0 == last.0@;
            assert(names[i].0 == named_entries(front)[i].0);
            assert(names[entries.len() - 1].0 == last.0@);
        }
        assert(named_entries(front).push((last.0@, last.1)) =~= names);
    }
}

/// Reading the values of a dictionary's entries one by one gives the map
/// of the dictionary with each value read.
pub proof fn lemma_read_entries(
    raw: Seq<(String, zbus::zvariant::OwnedValue)>,
    hints: Seq<(String, HintValue)>,
)
    requires
        keys_distinct(named_entries(raw)),
        hints.len() == raw.len(),
        forall|i: int|
            0 <= i < raw.len() ==> (#[trigger] hints[i]).0@ == raw[i].0@ && hints[i].1@
                == hint_read(raw[i].1),
    ensures
        keys_distinct(named_entries(hints)),
        hint_views(map_of(named_entries(hints))) == map_of(named_entries(raw)).map_values(
            reading(),
        ),
{
    let a = named_entries(hints);
    let b = named_entries(raw);
    assert forall|i: int| 0 <= i < a.len() implies (#[trigger] a[i]).0 == b[i].0 && a[i].1@
        == hint_read(b[i].1) by {
        assert(hints[i].0@ == raw[i].0@);
    }
    assert forall|i: int, j: int| 0 <= i < a.len() && 0 <= j < a.len() && i != j implies (
    #[trigger] a[i]).0 != (#[trigger] a[j]).0 by {
        assert(a[i].0 == b[i].0);
        assert(a[j].0 == b[j].0);
    }
    assert forall|k: Seq<char>| has_key(a, k) == has_key(b, k) by {
        if has_key(a, k) {
            let i = choose|i: int| 0 <= i < a.len() && (#[trigger] a[i]).0 == k;
            assert(b[i].0 == k);
        }
        if has_key(b, k) {
            let i = choose|i: int| 0 <= i < b.len() && (#[trigger] b[i]).0 == k;
            assert(a[i].0 == k);
        }
    }
    assert forall|k: Seq<char>| has_key(a, k) implies #[trigger] hint_views(map_of(a))[k]
        == map_of(b).map_values(reading())[k] by {
        let i = choose|i: int| 0 <= i < a.len() && (#[trigger] a[i]).0 == k;
        crate::string_map::lemma_index_of_key(a, i);
        assert(b[i].0 == k);
        crate::string_map::lemma_index_of_key(b, i);
    }
    assert(hint_views(map_of(a)).dom() =~= map_of(b).map_values(reading()).dom());
    assert(hint_views(map_of(a)) =~= map_of(b).map_values(reading()));
}

/// Feed a string to the hasher, by the standard library's `Hash::hash`
/// for `str`.
///
/// Trusted: nothing is claimed of the hasher's state afterwards.
#[verifier::external_body]
fn feed_text(hasher: &mut DefaultHasher, text: &str) {
    text.hash(hasher);
}

/// Feed a number to the hasher, by the standard library's `Hash::hash`
/// for `u128`.
///
/// Trusted: nothing is claimed of the hasher's state afterwards.
#[verifier::external_body]
fn feed_number(hasher: &mut DefaultHasher, number: u128) {
    number.hash(hasher);
}

/// The hash that the standard library's `DefaultHasher` gives for the
/// two strings and the number, fed to it in this order.
fn hash_key(app_name: &str, summary: &str, nanos: u128) -> u64 {
    let mut hasher = DefaultHasher::new();
    feed_text(&mut hasher, app_name);
    feed_text(&mut hasher, summary);
    feed_number(&mut hasher, nanos);
    hasher.finish()
}

/// The low 32 bits of a hash.
pub fn id_from_hash(hash: u64) -> (id: u32)
    ensures
        id == hash % 0x1_0000_0000,
{
    (hash % 0x1_0000_0000) as u32
}

/// Generate a notification id from the application's name, the summary
/// and the time of the call: the low 32 bits of their hash. Two calls
/// give different ids as a rule, and nothing more is known of the id; the
/// manager gives an id of its own where this one is 0.
pub fn generate_notification_id(app_name: &str, summary: &str) -> (id: u32) {
    let nanos = clock_nanos();
    id_from_hash(hash_key(app_name, summary, nanos))
}

/// The map that the entries of a hint dictionary stand for, a later entry
/// replacing an earlier one under the same key.
pub open spec fn hint_entries(entries: Seq<(String, HintValue)>) -> Seq<(Seq<char>, HintValue)>
    decreases entries.len(),
{
    if entries.len() == 0 {
        Seq::empty()
    } else {
        with_entry(hint_entries(entries.drop_last()), entries.last().0@, entries.last().1)
    }
}

/// Gather the entries of a hint dictionary into a map.
pub fn collect_hints(entries: Vec<(String, HintValue)>) -> (hints: RawHints)
    ensures
        hints.entries() == hint_entries(entries@),
{
    let ghost all = entries@;
    let mut entries = entries;
    let mut hints: RawHints = StringMap::new();
    let mut reversed: Vec<(String, HintValue)> = Vec::new();
    while entries.len() > 0
        invariant
            entries@.len() + reversed@.len() == all.len(),
            forall|i: int| 0 <= i < entries@.len() ==> entries@[i] == all[i],
            forall|i: int|
                0 <= i < reversed@.len() ==> reversed@[i] == all[all.len() - 1 - i],
        decreases entries.len(),
    {
        let entry = entries.pop().unwrap();
        reversed.push(entry);
    }
    let ghost mut taken: int = 0;
    proof {
        assert(all.subrange(0, 0) =~= Seq::empty());
    }
    while reversed.len() > 0
        invariant
            taken + reversed@.len() == all.len(),
            0 <= taken,
            forall|i: int|
                0 <= i < reversed@.len() ==> reversed@[i] == all[all.len() - 1 - i],
            hints.entries() == hint_entries(all.subrange(0, taken)),
        decreases reversed.len(),
    {
        let entry = reversed.pop().unwrap();
        proof {
            assert(entry == all[taken]);
            assert(all.subrange(0, taken + 1).drop_last() =~= all.subrange(0, taken));
            assert(all.subrange(0, taken + 1).last() == all[taken]);
        }
        hints.insert(entry.0, entry.1);
        proof {
            taken = taken + 1;
        }
    }
    proof {
        assert(all.subrange(0, taken) =~= all);
    }
    hints
}

/// The member test of the decoder: a message without a member and a
/// signal other than `Notify` are refused.
pub fn check_member(member: Option<String>) -> (r: Result<(), NotificationError>)
    ensures
        match member {
            None => r == Err::<(), NotificationError>(NotificationError::MissingMember),
            Some(name) => if name@ == "Notify"@ {
                r is Ok
            } else {
                r matches Err(NotificationError::UnexpectedSignal(held)) && held@ == name@
            },
        },
{
    match member {
        None => Err(NotificationError::MissingMember),
        Some(name) => {
            if str_equal(name.as_str(), NOTIFY_MEMBER) {
                Ok(())
            } else {
                Err(NotificationError::UnexpectedSignal(name))
            }
        },
    }
}

/// The notification that the arguments of a `Notify` signal make, given
/// the id to store it under and the time of its receipt: the strings and
/// numbers as they came, the actions paired, the hints parsed, and the
/// raw hints kept beside them.
pub fn notification_from(arguments: NotifyArguments, id: u32, received: Timestamp) -> (n:
    Notification)
    ensures
        n@.id == id,
        n@.app_name == arguments.app_name@,
        n@.replaces_id == arguments.replaces_id,
        n@.app_icon == arguments.app_icon@,
        n@.summary == arguments.summary@,
        n@.body == arguments.body@,
        n@.actions == action_pairs(arguments.actions@),
        n@.hints == hints_of(hint_views(map_of(hint_entries(arguments.hints@)))),
        n@.expire_timeout == arguments.expire_timeout,
        n@.timestamp == received,
        n.raw_hints.entries() == hint_entries(arguments.hints@),
{
    let actions = parse_actions(arguments.actions.as_slice());
    let raw_hints = collect_hints(arguments.hints);
    let hints = parse_hints(&raw_hints);
    Notification {
        id,
        app_name: arguments.app_name,
        replaces_id: arguments.replaces_id,
        app_icon: arguments.app_icon,
        summary: arguments.summary,
        body: arguments.body,
        actions,
        hints,
        raw_hints,
        expire_timeout: arguments.expire_timeout,
        timestamp: received,
    }
}

/// The actions that a flat run of names and labels stands for, each by
/// its characters.
pub open spec fn paired_actions(flat: Seq<Seq<char>>) -> Seq<ActionView> {
    Seq::new(
        (flat.len() / 2) as nat,
        |i: int| ActionView { key: flat[2 * i], label: flat[2 * i + 1] },
    )
}

/// Whether `n` is the notification that the arguments `a` of a signal
/// make: the strings and numbers as they came, the actions paired, the
/// raw hints those of the signal, as far as the hint rules read them, and
/// the hints what they stand for. The id and the time of receipt are left
/// open.
pub open spec fn decoded_from(n: Notification, a: SignalArguments) -> bool {
    &&& n@.app_name == a.app_name
    &&& n@.replaces_id == a.replaces_id
    &&& n@.app_icon == a.app_icon
    &&& n@.summary == a.summary
    &&& n@.body == a.body
    &&& n@.actions == paired_actions(a.actions)
    &&& n@.hints == hints_of(a.hints)
    &&& n@.expire_timeout == a.expire_timeout
    &&& hint_views(n.raw_hints@) == a.hints
}

/// Parse a bus message into a notification.
///
/// A message without a member is refused as `MissingMember`, and it
/// alone. A message with another member than `Notify` is refused as
/// `UnexpectedSignal`, which holds the member. A `Notify` signal whose
/// body does not hold the eight arguments of the protocol is refused as
/// `DeserializeFailed`. Any other message is decoded: the notification is
/// made of its arguments, with a generated id and the system clock's
/// reading at the call as its time of receipt.
pub fn parse_notification_signal(message: &zbus::Message) -> (r: Result<
    Notification,
    NotificationError,
>)
    ensures
        match signal_member_of(*message) {
            None => r matches Err(e) && e is MissingMember,
            Some(member) => if member != "Notify"@ {
                r matches Err(NotificationError::UnexpectedSignal(held)) && held@ == member
            } else {
                match signal_arguments_of(*message) {
                    None => r matches Err(e) && e is DeserializeFailed,
                    Some(arguments) => r matches Ok(n) && decoded_from(n, arguments)
                        && n@.timestamp.clock_reading(),
                }
            },
        },
{
    match check_member(signal_member(message)) {
        Ok(()) => {},
        Err(e) => {
            return Err(e);
        },
    }
    let raw = match signal_arguments(message) {
        Ok(raw) => raw,
        Err(e) => {
            return Err(NotificationError::DeserializeFailed(e));
        },
    };
    let ghost raw_view = raw.view();
    let ghost raw_hints = raw.hints@;
    let hints = read_hints(raw.hints);
    proof {
        lemma_read_entries(raw_hints, hints@);
        lemma_hint_entries_distinct(hints@);
    }
    let arguments = NotifyArguments {
        app_name: raw.app_name,
        replaces_id: raw.replaces_id,
        app_icon: raw.app_icon,
        summary: raw.summary,
        body: raw.body,
        actions: raw.actions,
        hints,
        expire_timeout: raw.expire_timeout,
    };
    proof {
        assert(action_pairs(arguments.actions@) =~= paired_actions(
            string_views(arguments.actions@),
        ));
    }
    let id = generate_notification_id(arguments.app_name.as_str(), arguments.summary.as_str());
    let received = Timestamp::now();
    Ok(notification_from(arguments, id, received))
}

/// What becomes of an item that the stream of messages gave.
///
/// The end of the stream is reported as `StreamEnded` and hands nothing
/// on. A message that could not be received is dropped, and so is one that
/// does not decode: both count as handled, and the stream goes on. A
/// message that decodes is handed on as its notification.
pub fn received(item: Option<Result<zbus::Message, zbus::Error>>) -> (r: (
    ListenerEvent,
    Option<Notification>,
))
    ensures
        match item {
            None => r.0 == ListenerEvent::StreamEnded && r.1 is None,
            Some(Err(_)) => r.0 == ListenerEvent::MessageHandled && r.1 is None,
            Some(Ok(message)) => r.0 == ListenerEvent::MessageHandled && match (
                signal_member_of(message),
                signal_arguments_of(message),
            ) {
                (Some(member), Some(arguments)) => if member == "Notify"@ {
                    r.1 matches Some(n) && decoded_from(n, arguments)
                        && n@.timestamp.clock_reading()
                } else {
                    r.1 is None
                },
                _ => r.1 is None,
            },
        },
{
    match item {
        None => (ListenerEvent::StreamEnded, None),
        Some(Err(_)) => (ListenerEvent::MessageHandled, None),
        Some(Ok(message)) => match parse_notification_signal(&message) {
            Ok(notification) => (ListenerEvent::MessageHandled, Some(notification)),
            Err(_) => (ListenerEvent::MessageHandled, None),
        },
    }
}

} // verus!
