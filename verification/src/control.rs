//! The control channel client: the state machine that keeps the link to the
//! backend's control endpoint alive, and the dispatch of the commands that
//! arrive over it.
//!
//! The client does no I/O. Each transition yields the effects that the
//! caller is to carry out, in order; the last of them is always the outside
//! work whose outcome is the next event ([`Effect::Connect`] or
//! [`Effect::Receive`]).
//!
//! There is no event that stops a client: once started it reconnects for as
//! long as the process lives. A disconnect by the user changes the registry
//! and tells the backend, and leaves the client running.

use vstd::prelude::*;
use crate::parsers::{json_string_member, read_json_string_member};
use crate::text::same_text;

verus! {

/// Seconds to wait before the next attempt while failures are few.
pub const SHORT_BACKOFF_SECS: u64 = 5;

/// Seconds to wait before the next attempt once failures have piled up.
pub const LONG_BACKOFF_SECS: u64 = 10;

/// Number of consecutive failures from which the long wait applies.
pub const BACKOFF_THRESHOLD: u32 = 3;

/// Text that identifies this client in its handshake.
pub const HANDSHAKE_MESSAGE: &'static str = "Initial Handshake from Sandra OS";

/// The handshake as it goes over the wire: a JSON object whose `message`
/// member is [`HANDSHAKE_MESSAGE`].
pub const HANDSHAKE_PAYLOAD: &'static str = "{\"message\":\"Initial Handshake from Sandra OS\"}";

/// Name of the shell event that reports the state of the link.
pub const STATUS_EVENT: &'static str = "connection-status";

/// Name of the shell event that carries the backend's welcome.
pub const WELCOME_EVENT: &'static str = "server-welcome";

/// State of the link to the control endpoint.
#[derive(Clone, Copy, Debug, PartialEq, Eq, Structural)]
pub enum ControlChannelState {
    Connecting,
    Connected,
    Disconnected,
    Error,
}

/// Kind of a command received over the control channel.
#[derive(Clone, Copy, Debug, PartialEq, Eq, Structural)]
pub enum CommandKind {
    Reboot,
    Status,
    Welcome,
    Unknown,
}

/// A command received over the control channel: its kind and the message
/// that carried it.
#[derive(Clone, Debug, PartialEq, Eq)]
pub struct Command {
    pub kind: CommandKind,
    pub payload: String,
}

/// Mathematical model of a [`Command`].
pub struct CommandView {
    pub kind: CommandKind,
    pub payload: Seq<char>,
}

impl DeepView for Command {
    type V = CommandView;

    open spec fn deep_view(&self) -> CommandView {
        CommandView { kind: self.kind, payload: self.payload@ }
    }
}

impl View for Command {
    type V = CommandView;

    open spec fn view(&self) -> CommandView {
        self.deep_view()
    }
}

/// What happened on the link.
#[derive(Clone, Debug, PartialEq, Eq)]
pub enum ChannelEvent {
    /// The connection attempt succeeded.
    Established,
    /// The connection attempt failed.
    ConnectFailed,
    /// A text message arrived.
    Text(String),
    /// The backend closed the connection.
    RemoteClosed,
    /// Reading from the connection failed.
    ReadError,
    /// The stream of messages ended without a close and without an error.
    StreamEnded,
    /// A message of another kind arrived.
    Other,
}

/// Mathematical model of a [`ChannelEvent`].
pub enum ChannelEventView {
    Established,
    ConnectFailed,
    Text(Seq<char>),
    RemoteClosed,
    ReadError,
    StreamEnded,
    Other,
}

impl DeepView for ChannelEvent {
    type V = ChannelEventView;

    open spec fn deep_view(&self) -> ChannelEventView {
        match self {
            ChannelEvent::Established => ChannelEventView::Established,
            ChannelEvent::ConnectFailed => ChannelEventView::ConnectFailed,
            ChannelEvent::Text(text) => ChannelEventView::Text(text@),
            ChannelEvent::RemoteClosed => ChannelEventView::RemoteClosed,
            ChannelEvent::ReadError => ChannelEventView::ReadError,
            ChannelEvent::StreamEnded => ChannelEventView::StreamEnded,
            ChannelEvent::Other => ChannelEventView::Other,
        }
    }
}

impl View for ChannelEvent {
    type V = ChannelEventView;

    open spec fn view(&self) -> ChannelEventView {
        self.deep_view()
    }
}

/// Something the caller is to do.
#[derive(Clone, Debug, PartialEq, Eq)]
pub enum Effect {
    /// Emit the state on the shell's [`STATUS_EVENT`] stream.
    EmitStatus(ControlChannelState),
    /// Mark the connection profile as not active in the registry.
    MarkInactive(i64),
    /// Send the handshake, [`HANDSHAKE_PAYLOAD`].
    SendHandshake,
    /// Restart the machine.
    Reboot,
    /// Emit the payload on the shell's [`WELCOME_EVENT`] stream.
    EmitWelcome(String),
    /// Wait for so many seconds.
    Wait(u64),
    /// Try to connect; the outcome is the next event.
    Connect,
    /// Wait for the next message; it is the next event.
    Receive,
}

/// Mathematical model of an [`Effect`].
pub enum EffectView {
    EmitStatus(ControlChannelState),
    MarkInactive(i64),
    SendHandshake,
    Reboot,
    EmitWelcome(Seq<char>),
    Wait(u64),
    Connect,
    Receive,
}

impl DeepView for Effect {
    type V = EffectView;

    open spec fn deep_view(&self) -> EffectView {
        match self {
            Effect::EmitStatus(state) => EffectView::EmitStatus(*state),
            Effect::MarkInactive(id) => EffectView::MarkInactive(*id),
            Effect::SendHandshake => EffectView::SendHandshake,
            Effect::Reboot => EffectView::Reboot,
            Effect::EmitWelcome(payload) => EffectView::EmitWelcome(payload@),
            Effect::Wait(secs) => EffectView::Wait(*secs),
            Effect::Connect => EffectView::Connect,
            Effect::Receive => EffectView::Receive,
        }
    }
}

impl View for Effect {
    type V = EffectView;

    open spec fn view(&self) -> EffectView {
        self.deep_view()
    }
}

/// The control channel client of one connect action.
///
/// Between two events the client is either connecting or connected; the
/// other two states are only ever reported. `failures` counts the connection
/// attempts that failed since the last one that succeeded.
#[derive(Clone, Copy, Debug, PartialEq, Eq, Structural)]
pub struct ControlChannelClient {
    pub state: ControlChannelState,
    pub failures: u32,
    pub connection_id: Option<i64>,
}

/// The wire name of a state, as the shell's event stream carries it.
pub open spec fn state_name(state: ControlChannelState) -> Seq<char> {
    match state {
        ControlChannelState::Connecting => "connecting"@,
        ControlChannelState::Connected => "connected"@,
        ControlChannelState::Disconnected => "disconnected"@,
        ControlChannelState::Error => "error"@,
    }
}

/// The wait before the next attempt after `failures` consecutive failures.
pub open spec fn backoff_secs(failures: nat) -> u64 {
    if failures >= BACKOFF_THRESHOLD {
        LONG_BACKOFF_SECS
    } else {
        SHORT_BACKOFF_SECS
    }
}

/// `failures` and one more, as far as the counter reaches.
pub open spec fn one_more(failures: u32) -> u32 {
    if failures < u32::MAX {
        (failures + 1) as u32
    } else {
        failures
    }
}

/// The kind of the command whose `cmd` member is `name`.
pub open spec fn command_kind(name: Option<Seq<char>>) -> CommandKind {
    match name {
        Some(n) => if n == "reboot"@ {
            CommandKind::Reboot
        } else if n == "status"@ {
            CommandKind::Status
        } else if n == "welcome"@ {
            CommandKind::Welcome
        } else {
            CommandKind::Unknown
        },
        None => CommandKind::Unknown,
    }
}

/// The command that the message `text` carries, given what was found under
/// its `cmd` member; a message that is not JSON carries none.
pub open spec fn command_of(text: Seq<char>, member: Option<Option<Seq<char>>>) -> Option<
    CommandView,
> {
    match member {
        Some(name) => Some(CommandView { kind: command_kind(name), payload: text }),
        None => None,
    }
}

/// The command that the message `text` carries.
pub open spec fn parsed_command(text: Seq<char>) -> Option<CommandView> {
    command_of(text, json_string_member(text, "cmd"@))
}

/// What a command makes the client do: restart the machine, hand the
/// welcome to the shell, or nothing.
pub open spec fn command_effects(command: Option<CommandView>) -> Seq<EffectView> {
    match command {
        Some(c) => match c.kind {
            CommandKind::Reboot => seq![EffectView::Reboot],
            CommandKind::Welcome => seq![EffectView::EmitWelcome(c.payload)],
            CommandKind::Status => seq![],
            CommandKind::Unknown => seq![],
        },
        None => seq![],
    }
}

/// The effect that writes "not active" for the profile, where the client has
/// one.
pub open spec fn mark_inactive(connection_id: Option<i64>) -> Seq<EffectView> {
    match connection_id {
        Some(id) => seq![EffectView::MarkInactive(id)],
        None => seq![],
    }
}

/// The effects of losing the link, or of failing to make it: the state is
/// reported, the profile is marked as not active, and after the wait a new
/// attempt is made.
pub open spec fn retry_effects(
    reported: ControlChannelState,
    connection_id: Option<i64>,
    failures: u32,
) -> Seq<EffectView> {
    seq![EffectView::EmitStatus(reported)] + mark_inactive(connection_id) + seq![
        EffectView::Wait(backoff_secs(failures as nat)),
        EffectView::Connect,
    ]
}

/// The effects of the event `event` on a client in the state `client`,
/// given the command `command` that the event carries where it is a text
/// message.
pub open spec fn effects_with(
    client: ControlChannelClient,
    event: ChannelEventView,
    command: Option<CommandView>,
) -> Seq<EffectView> {
    if client.state == ControlChannelState::Connected {
        match event {
            ChannelEventView::Text(_) => command_effects(command) + seq![EffectView::Receive],
            ChannelEventView::RemoteClosed => retry_effects(
                ControlChannelState::Disconnected,
                client.connection_id,
                0,
            ),
            ChannelEventView::ReadError => retry_effects(
                ControlChannelState::Error,
                client.connection_id,
                0,
            ),
            ChannelEventView::StreamEnded => seq![EffectView::Connect],
            _ => seq![EffectView::Receive],
        }
    } else {
        match event {
            ChannelEventView::Established => seq![
                EffectView::EmitStatus(ControlChannelState::Connected),
                EffectView::SendHandshake,
                EffectView::Receive,
            ],
            ChannelEventView::ConnectFailed => retry_effects(
                ControlChannelState::Error,
                client.connection_id,
                one_more(client.failures),
            ),
            _ => seq![EffectView::Connect],
        }
    }
}

/// The client after the event `event`.
///
/// A connected client that loses the link goes back to connecting; its
/// counter is zero since the connection was made. That holds too where the
/// stream just ends: nothing is reported then and nothing is written to the
/// registry, and the client dials again at once. A connecting client
/// becomes connected, and its counter zero, when the attempt succeeds; a
/// failed attempt counts one more. An event that does not fit the state
/// changes nothing.
pub open spec fn client_after(client: ControlChannelClient, event: ChannelEventView)
    -> ControlChannelClient {
    if client.state == ControlChannelState::Connected {
        match event {
            ChannelEventView::RemoteClosed
            | ChannelEventView::ReadError
            | ChannelEventView::StreamEnded => ControlChannelClient {
                state: ControlChannelState::Connecting,
                failures: 0,
                connection_id: client.connection_id,
            },
            _ => client,
        }
    } else {
        match event {
            ChannelEventView::Established => ControlChannelClient {
                state: ControlChannelState::Connected,
                failures: 0,
                connection_id: client.connection_id,
            },
            ChannelEventView::ConnectFailed => ControlChannelClient {
                state: ControlChannelState::Connecting,
                failures: one_more(client.failures),
                connection_id: client.connection_id,
            },
            _ => client,
        }
    }
}

/// The effects of the event `event` on a client in the state `client`.
pub open spec fn effects_of(client: ControlChannelClient, event: ChannelEventView) -> Seq<
    EffectView,
> {
    match event {
        ChannelEventView::Text(text) => effects_with(client, event, parsed_command(text)),
        _ => effects_with(client, event, None),
    }
}

/// A client as it starts: connecting, with no failure counted.
pub open spec fn starting_client(connection_id: Option<i64>) -> ControlChannelClient {
    ControlChannelClient { state: ControlChannelState::Connecting, failures: 0, connection_id }
}

/// The client after `count` failed attempts in a row.
pub open spec fn after_failures(client: ControlChannelClient, count: nat) -> ControlChannelClient
    decreases count,
{
    if count == 0 {
        client
    } else {
        client_after(
            after_failures(client, (count - 1) as nat),
            ChannelEventView::ConnectFailed,
        )
    }
}

/// A client between two events is connecting or connected, and a connected
/// client has no failure counted.
pub open spec fn well_formed(client: ControlChannelClient) -> bool {
    &&& client.state == ControlChannelState::Connecting || client.state
        == ControlChannelState::Connected
    &&& client.state == ControlChannelState::Connected ==> client.failures == 0
}

/// Every transition keeps the client well formed and its profile the same.
pub proof fn lemma_transitions_preserve_well_formedness(
    client: ControlChannelClient,
    event: ChannelEventView,
)
    requires
        well_formed(client),
    ensures
        well_formed(client_after(client, event)),
        client_after(client, event).connection_id == client.connection_id,
{
}

/// After `count` failed attempts in a row, counted from a client with no
/// failure, the counter stands at `count`, and the wait that the last of
/// them brought is the short one below the threshold and the long one from
/// it on.
pub proof fn lemma_backoff_after_failures(client: ControlChannelClient, count: nat)
    requires
        client.state == ControlChannelState::Connecting,
        client.failures == 0,
        0 < count <= u32::MAX,
    ensures
        after_failures(client, count).failures == count,
        after_failures(client, count).state == ControlChannelState::Connecting,
        after_failures(client, count).connection_id == client.connection_id,
        effects_of(after_failures(client, (count - 1) as nat), ChannelEventView::ConnectFailed)
            == retry_effects(ControlChannelState::Error, client.connection_id, count as u32),
        backoff_secs(count) == if count >= 3 {
            10u64
        } else {
            5u64
        },
    decreases count,
{
    if count > 1 {
        lemma_backoff_after_failures(client, (count - 1) as nat);
    }
}

/// Three failed attempts in a row bring waits of 5, 5 and 10 seconds.
pub proof fn lemma_third_failure_waits_long(client: ControlChannelClient)
    requires
        client.state == ControlChannelState::Connecting,
        client.failures == 0,
    ensures
        effects_of(client, ChannelEventView::ConnectFailed) == retry_effects(
            ControlChannelState::Error,
            client.connection_id,
            1,
        ),
        effects_of(after_failures(client, 1), ChannelEventView::ConnectFailed) == retry_effects(
            ControlChannelState::Error,
            client.connection_id,
            2,
        ),
        effects_of(after_failures(client, 2), ChannelEventView::ConnectFailed) == retry_effects(
            ControlChannelState::Error,
            client.connection_id,
            3,
        ),
        backoff_secs(1) == 5,
        backoff_secs(2) == 5,
        backoff_secs(3) == 10,
{
    lemma_backoff_after_failures(client, 1);
    lemma_backoff_after_failures(client, 2);
    lemma_backoff_after_failures(client, 3);
}

/// One failed attempt followed by a success brings only the short wait and
/// leaves no failure counted.
pub proof fn lemma_success_resets_counter(client: ControlChannelClient)
    requires
        client.state == ControlChannelState::Connecting,
        client.failures == 0,
    ensures
        effects_of(client, ChannelEventView::ConnectFailed) == retry_effects(
            ControlChannelState::Error,
            client.connection_id,
            1,
        ),
        backoff_secs(1) == SHORT_BACKOFF_SECS,
        client_after(
            client_after(client, ChannelEventView::ConnectFailed),
            ChannelEventView::Established,
        ) == (ControlChannelClient {
            state: ControlChannelState::Connected,
            failures: 0,
            connection_id: client.connection_id,
        }),
{
}

/// A stream that just ends brings no report, no write to the registry and
/// no wait: the client goes back to connecting and dials again at once.
pub proof fn lemma_stream_end_redials_at_once(client: ControlChannelClient)
    requires
        client.state == ControlChannelState::Connected,
    ensures
        effects_of(client, ChannelEventView::StreamEnded) == seq![EffectView::Connect],
        client_after(client, ChannelEventView::StreamEnded) == starting_client(
            client.connection_id,
        ),
{
}

/// Every transition out of a failure (a failed attempt, a close by the
/// backend, a read error) marks the client's profile as not active, right
/// after the state is reported.
pub proof fn lemma_failures_mark_profile_inactive(client: ControlChannelClient, id: i64)
    requires
        client.connection_id == Some(id),
    ensures
        client.state != ControlChannelState::Connected ==> effects_of(
            client,
            ChannelEventView::ConnectFailed,
        )[1] == EffectView::MarkInactive(id),
        client.state == ControlChannelState::Connected ==> effects_of(
            client,
            ChannelEventView::RemoteClosed,
        )[1] == EffectView::MarkInactive(id),
        client.state == ControlChannelState::Connected ==> effects_of(
            client,
            ChannelEventView::ReadError,
        )[1] == EffectView::MarkInactive(id),
{
}

/// The wire name of `state`.
pub fn state_label(state: ControlChannelState) -> (r: &'static str)
    ensures
        r@ == state_name(state),
{
    match state {
        ControlChannelState::Connecting => "connecting",
        ControlChannelState::Connected => "connected",
        ControlChannelState::Disconnected => "disconnected",
        ControlChannelState::Error => "error",
    }
}

/// The wait before the next attempt after `failures` consecutive failures.
pub fn backoff_after(failures: u32) -> (r: u64)
    ensures
        r == backoff_secs(failures as nat),
{
    if failures >= BACKOFF_THRESHOLD {
        LONG_BACKOFF_SECS
    } else {
        SHORT_BACKOFF_SECS
    }
}

/// Tells the kind of a command from its `cmd` member.
pub fn command_kind_of(name: Option<&str>) -> (r: CommandKind)
    ensures
        r == command_kind(name.deep_view()),
{
    match name {
        Some(n) => if same_text(n, "reboot") {
            CommandKind::Reboot
        } else if same_text(n, "status") {
            CommandKind::Status
        } else if same_text(n, "welcome") {
            CommandKind::Welcome
        } else {
            CommandKind::Unknown
        },
        None => CommandKind::Unknown,
    }
}

/// Makes the command that the message `text` carries from what was found
/// under its `cmd` member.
pub fn command_from_member(text: &str, member: Option<Option<String>>) -> (r: Option<Command>)
    ensures
        r.deep_view() == command_of(text@, member.deep_view()),
{
    match member {
        Some(name) => {
            let kind = match &name {
                Some(n) => command_kind_of(Some(n.as_str())),
                None => command_kind_of(None),
            };
            Some(Command { kind, payload: text.to_owned() })
        },
        None => None,
    }
}

/// Reads the command that the message `text` carries. A message that is not
/// JSON carries none.
pub fn process_command(text: &str) -> (r: Option<Command>)
    ensures
        r.deep_view() == parsed_command(text@),
{
    command_from_member(text, read_json_string_member(text, "cmd"))
}

/// Appends the effects of a command to `effects`.
fn push_command_effects(command: Option<Command>, effects: &mut Vec<Effect>)
    ensures
        final(effects).deep_view() == old(effects).deep_view() + command_effects(
            command.deep_view(),
        ),
{
    match command {
        Some(c) => match c.kind {
            CommandKind::Reboot => {
                effects.push(Effect::Reboot);
            },
            CommandKind::Welcome => {
                effects.push(Effect::EmitWelcome(c.payload));
            },
            CommandKind::Status => {},
            CommandKind::Unknown => {},
        },
        None => {},
    }
}

/// The effects of losing the link, or of failing to make it.
fn make_retry_effects(
    reported: ControlChannelState,
    connection_id: Option<i64>,
    failures: u32,
) -> (r: Vec<Effect>)
    ensures
        r.deep_view() == retry_effects(reported, connection_id, failures),
{
    let mut r: Vec<Effect> = Vec::new();
    r.push(Effect::EmitStatus(reported));
    match connection_id {
        Some(id) => {
            r.push(Effect::MarkInactive(id));
        },
        None => {},
    }
    r.push(Effect::Wait(backoff_after(failures)));
    r.push(Effect::Connect);
    r
}

/// Starts a client for the profile `connection_id`: the state is reported
/// as connecting, and the first attempt is made.
pub fn start_remote_listener(connection_id: Option<i64>) -> (r: (ControlChannelClient, Vec<Effect>))
    ensures
        r.0 == starting_client(connection_id),
        well_formed(r.0),
        r.1.deep_view() == seq![
            EffectView::EmitStatus(ControlChannelState::Connecting),
            EffectView::Connect,
        ],
{
    let client = ControlChannelClient {
        state: ControlChannelState::Connecting,
        failures: 0,
        connection_id,
    };
    let mut effects: Vec<Effect> = Vec::new();
    effects.push(Effect::EmitStatus(ControlChannelState::Connecting));
    effects.push(Effect::Connect);
    (client, effects)
}

impl ControlChannelClient {
    /// Takes in an event whose command, where it is a text message, the
    /// caller has read already.
    pub fn on_event_with(&mut self, event: &ChannelEvent, command: Option<Command>) -> (r: Vec<
        Effect,
    >)
        ensures
            *final(self) == client_after(*old(self), event@),
            well_formed(*old(self)) ==> well_formed(*final(self)),
            r.deep_view() == effects_with(*old(self), event@, command.deep_view()),
    {
        if self.state == ControlChannelState::Connected {
            match event {
                ChannelEvent::Text(_) => {
                    let mut effects: Vec<Effect> = Vec::new();
                    push_command_effects(command, &mut effects);
                    effects.push(Effect::Receive);
                    effects
                },
                ChannelEvent::RemoteClosed => {
                    self.state = ControlChannelState::Connecting;
                    self.failures = 0;
                    make_retry_effects(ControlChannelState::Disconnected, self.connection_id, 0)
                },
                ChannelEvent::ReadError => {
                    self.state = ControlChannelState::Connecting;
                    self.failures = 0;
                    make_retry_effects(ControlChannelState::Error, self.connection_id, 0)
                },
                ChannelEvent::StreamEnded => {
                    self.state = ControlChannelState::Connecting;
                    self.failures = 0;
                    let mut effects: Vec<Effect> = Vec::new();
                    effects.push(Effect::Connect);
                    effects
                },
                _ => {
                    let mut effects: Vec<Effect> = Vec::new();
                    effects.push(Effect::Receive);
                    effects
                },
            }
        } else {
            match event {
                ChannelEvent::Established => {
                    self.state = ControlChannelState::Connected;
                    self.failures = 0;
                    let mut effects: Vec<Effect> = Vec::new();
                    effects.push(Effect::EmitStatus(ControlChannelState::Connected));
                    effects.push(Effect::SendHandshake);
                    effects.push(Effect::Receive);
                    effects
                },
                ChannelEvent::ConnectFailed => {
                    let failures: u32 = if self.failures < u32::MAX {
                        self.failures + 1
                    } else {
                        self.failures
                    };
                    self.state = ControlChannelState::Connecting;
                    self.failures = failures;
                    make_retry_effects(ControlChannelState::Error, self.connection_id, failures)
                },
                _ => {
                    let mut effects: Vec<Effect> = Vec::new();
                    effects.push(Effect::Connect);
                    effects
                },
            }
        }
    }

    /// Takes in an event: moves to the next state and yields the effects to
    /// carry out.
    pub fn on_event(&mut self, event: &ChannelEvent) -> (r: Vec<Effect>)
        ensures
            *final(self) == client_after(*old(self), event@),
            well_formed(*old(self)) ==> well_formed(*final(self)),
            r.deep_view() == effects_of(*old(self), event@),
    {
        let command = match event {
            ChannelEvent::Text(text) => process_command(text.as_str()),
            _ => None,
        };
        self.on_event_with(event, command)
    }
}

} // verus!
