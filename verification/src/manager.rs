//! The decisions of a controller that keeps one Qu connection on behalf of
//! its clients: it connects when the first client arrives, forwards the
//! clients' changes while connected, and closes the connection when the
//! last client leaves. The caller performs the network work and the
//! status broadcasts; this module decides what is to be done.

use vstd::prelude::*;
use crate::messages::{EventModel, QuEvent};
use crate::protocol::{END_SYNC, bytes_equal};
use crate::protocol::{append_bytes, fader as fader_message, mute as mute_message, mute_bytes, nrpn_bytes};
use crate::qu_from_state::is_fader_message;
use crate::state::{ChannelRef, MixerState, channel_model, muted_model, ref_channel, ref_of};

verus! {

/// The state of the Qu connection, as reported to clients.
#[derive(Debug, Clone)]
pub enum QuStatus {
    Disconnected,
    Discovering,
    Connecting { name: String, address: String },
    Synchronising,
    Connected { name: String, address: String },
    Error { message: String },
}

/// A command from the clients' side.
pub enum ManagerCommand {
    /// A client connected.
    ClientConnected,
    /// A client disconnected.
    ClientDisconnected,
    /// A client asked for a change to be sent to the mixer.
    Change,
    /// The command channel closed.
    Closed,
}

/// Something that happened.
pub enum ManagerEvent {
    /// A command arrived.
    Command(ManagerCommand),
    /// Discovery, connection and synchronisation succeeded.
    Connected,
    /// Discovery, connection or synchronisation failed.
    ConnectFailed { message: String },
    /// The mixer sent data.
    QuData,
    /// The mixer closed the connection.
    QuClosed,
    /// Reading from the mixer failed.
    QuError { message: String },
    /// Sending a change, or the state request after it, failed.
    SendFailed { message: String },
}

/// What the caller is to do.
pub enum ManagerAction {
    /// Nothing.
    Nothing,
    /// Discover a mixer, connect to it and synchronise its state.
    Connect,
    /// Publish this status.
    SetStatus(QuStatus),
    /// Close the connection, publish `Disconnected`, and reset the mixer
    /// state and the parser.
    CloseAndReset,
    /// Send the change to the mixer and request its state again.
    SendChange,
    /// Parse the data and apply its events.
    Parse,
    /// Stop the manager.
    Stop,
}

/// The number of clients, and whether a Qu connection is open.
pub struct ManagerState {
    pub client_count: usize,
    pub connected: bool,
}

/// Whether a manager state is consistent: a connection is open only while
/// a client is there.
pub open spec fn manager_wf(s: ManagerState) -> bool {
    s.connected ==> s.client_count > 0
}

/// The status text of a closed connection.
pub open spec fn closed_message() -> Seq<char> {
    "Qu connection closed"@
}

/// The value of a [`ManagerEvent`]: its texts as sequences.
pub enum ManagerInput {
    ClientConnected,
    ClientDisconnected,
    Change,
    Closed,
    Connected,
    ConnectFailed(Seq<char>),
    QuData,
    QuClosed,
    QuError(Seq<char>),
    SendFailed(Seq<char>),
}

/// The value of a [`QuStatus`]: its texts as sequences.
pub enum StatusModel {
    Disconnected,
    Discovering,
    Connecting { name: Seq<char>, address: Seq<char> },
    Synchronising,
    Connected { name: Seq<char>, address: Seq<char> },
    Error { message: Seq<char> },
}

/// The value of a [`ManagerAction`].
pub enum ActionModel {
    Nothing,
    Connect,
    SetStatus(StatusModel),
    CloseAndReset,
    SendChange,
    Parse,
    Stop,
}

impl View for ManagerEvent {
    type V = ManagerInput;

    open spec fn view(&self) -> ManagerInput {
        match self {
            ManagerEvent::Command(ManagerCommand::ClientConnected) => ManagerInput::ClientConnected,
            ManagerEvent::Command(ManagerCommand::ClientDisconnected) => ManagerInput::ClientDisconnected,
            ManagerEvent::Command(ManagerCommand::Change) => ManagerInput::Change,
            ManagerEvent::Command(ManagerCommand::Closed) => ManagerInput::Closed,
            ManagerEvent::Connected => ManagerInput::Connected,
            ManagerEvent::ConnectFailed { message } => ManagerInput::ConnectFailed(message@),
            ManagerEvent::QuData => ManagerInput::QuData,
            ManagerEvent::QuClosed => ManagerInput::QuClosed,
            ManagerEvent::QuError { message } => ManagerInput::QuError(message@),
            ManagerEvent::SendFailed { message } => ManagerInput::SendFailed(message@),
        }
    }
}

impl View for QuStatus {
    type V = StatusModel;

    open spec fn view(&self) -> StatusModel {
        match self {
            QuStatus::Disconnected => StatusModel::Disconnected,
            QuStatus::Discovering => StatusModel::Discovering,
            QuStatus::Connecting { name, address } => StatusModel::Connecting { name: name@, address: address@ },
            QuStatus::Synchronising => StatusModel::Synchronising,
            QuStatus::Connected { name, address } => StatusModel::Connected { name: name@, address: address@ },
            QuStatus::Error { message } => StatusModel::Error { message: message@ },
        }
    }
}

impl View for ManagerAction {
    type V = ActionModel;

    open spec fn view(&self) -> ActionModel {
        match self {
            ManagerAction::Nothing => ActionModel::Nothing,
            ManagerAction::Connect => ActionModel::Connect,
            ManagerAction::SetStatus(status) => ActionModel::SetStatus(status@),
            ManagerAction::CloseAndReset => ActionModel::CloseAndReset,
            ManagerAction::SendChange => ActionModel::SendChange,
            ManagerAction::Parse => ActionModel::Parse,
            ManagerAction::Stop => ActionModel::Stop,
        }
    }
}

/// Whether event `e` may be handled in state `s`: a client may arrive
/// while the count can grow, and a connection completes only for a
/// registered client.
pub open spec fn step_allowed(s: ManagerState, e: ManagerInput) -> bool {
    &&& e is ClientConnected ==> s.client_count < usize::MAX
    &&& e is Connected ==> s.client_count > 0
}

/// The state after event `e` in state `s`, and the action to perform.
/// A first client (with no connection) starts a connection; the last
/// client to leave closes an open connection, or reports `Disconnected`
/// when none was open; disconnects at zero clients change nothing; a
/// change is sent, and mixer data parsed, only while connected; a closed
/// or failed connection is reported as an error while it was open; a
/// closed command channel stops the manager.
pub open spec fn manager_step(s: ManagerState, e: ManagerInput) -> (ManagerState, ActionModel) {
    match e {
        ManagerInput::ClientConnected => (
            ManagerState { client_count: (s.client_count + 1) as usize, connected: s.connected },
            if s.connected { ActionModel::Nothing } else { ActionModel::Connect },
        ),
        ManagerInput::ClientDisconnected => {
            let count: usize = if s.client_count == 0 { 0 } else { (s.client_count - 1) as usize };
            if count == 0 && s.connected {
                (ManagerState { client_count: 0, connected: false }, ActionModel::CloseAndReset)
            } else if count == 0 && s.client_count > 0 {
                (
                    ManagerState { client_count: 0, connected: false },
                    ActionModel::SetStatus(StatusModel::Disconnected),
                )
            } else {
                (ManagerState { client_count: count, connected: s.connected }, ActionModel::Nothing)
            }
        },
        ManagerInput::Change => (s, if s.connected { ActionModel::SendChange } else { ActionModel::Nothing }),
        ManagerInput::Closed => (
            ManagerState { client_count: s.client_count, connected: false },
            ActionModel::Stop,
        ),
        ManagerInput::Connected => (
            ManagerState { client_count: s.client_count, connected: true },
            ActionModel::Nothing,
        ),
        ManagerInput::ConnectFailed(message) => (s, ActionModel::SetStatus(StatusModel::Error { message })),
        ManagerInput::QuData => (s, if s.connected { ActionModel::Parse } else { ActionModel::Nothing }),
        ManagerInput::QuClosed => (
            ManagerState { client_count: s.client_count, connected: false },
            if s.connected {
                ActionModel::SetStatus(StatusModel::Error { message: closed_message() })
            } else {
                ActionModel::Nothing
            },
        ),
        ManagerInput::QuError(message) | ManagerInput::SendFailed(message) => (
            ManagerState { client_count: s.client_count, connected: false },
            if s.connected {
                ActionModel::SetStatus(StatusModel::Error { message })
            } else {
                ActionModel::Nothing
            },
        ),
    }
}

/// The state and actions after events `events` from state `s`, one step
/// of [`manager_step`] each, in order.
pub open spec fn manager_run(s: ManagerState, events: Seq<ManagerInput>) -> (ManagerState, Seq<ActionModel>)
    decreases events.len(),
{
    if events.len() == 0 {
        (s, Seq::empty())
    } else {
        let (t, actions) = manager_run(s, events.drop_last());
        let (u, a) = manager_step(t, events.last());
        (u, actions.push(a))
    }
}

/// Whether every event of `events` may be handled in the state that the
/// events before it lead to.
pub open spec fn run_allowed(s: ManagerState, events: Seq<ManagerInput>) -> bool
    decreases events.len(),
{
    events.len() == 0 || (run_allowed(s, events.drop_last()) && step_allowed(
        manager_run(s, events.drop_last()).0,
        events.last(),
    ))
}

/// The state after the first `i` of `events`.
pub open spec fn state_after(s: ManagerState, events: Seq<ManagerInput>, i: int) -> ManagerState {
    manager_run(s, events.take(i)).0
}

proof fn manager_step_keeps_wf(s: ManagerState, e: ManagerInput)
    requires
        manager_wf(s),
        step_allowed(s, e),
    ensures
        manager_wf(manager_step(s, e).0),
{
}

/// Over any run of events, as the control surface server feeds them from a
/// consistent state: every state reached is consistent, so a Qu connection
/// is open only while a client is registered; the actions are those of the
/// steps, one per event; a change is sent to the Qu only while connected,
/// and mixer data is parsed only while connected; and when the last client
/// leaves while connected, the connection is closed and reset and no
/// client is left.
pub proof fn manager_runs(s: ManagerState, events: Seq<ManagerInput>)
    requires
        manager_wf(s),
        run_allowed(s, events),
    ensures
        manager_run(s, events).1.len() == events.len(),
        manager_wf(manager_run(s, events).0),
        forall|i: int| 0 <= i <= events.len() ==> manager_wf(#[trigger] state_after(s, events, i)),
        forall|i: int|
            0 <= i < events.len() ==> {
                let before = state_after(s, events, i);
                let after = state_after(s, events, i + 1);
                let action = manager_run(s, events).1[i];
                &&& (after, action) == manager_step(before, #[trigger] events[i])
                &&& action is SendChange ==> before.connected
                &&& action is Parse ==> before.connected
                &&& (events[i] is ClientDisconnected && before.connected && before.client_count == 1) ==> (
                action is CloseAndReset && !after.connected && after.client_count == 0)
            },
    decreases events.len(),
{
    assert(events.take(events.len() as int) =~= events);
    if events.len() > 0 {
        let prefix = events.drop_last();
        manager_runs(s, prefix);
        manager_step_keeps_wf(manager_run(s, prefix).0, events.last());
        assert forall|i: int| 0 <= i <= events.len() implies manager_wf(#[trigger] state_after(s, events, i)) by {
            if i < events.len() {
                assert(events.take(i) =~= prefix.take(i));
                assert(state_after(s, prefix, i) == state_after(s, events, i));
            } else {
                assert(events.take(i) =~= events);
            }
        }
        assert forall|i: int| 0 <= i < events.len() implies {
            let before = state_after(s, events, i);
            let after = state_after(s, events, i + 1);
            let action = manager_run(s, events).1[i];
            &&& (after, action) == manager_step(before, #[trigger] events[i])
            &&& action is SendChange ==> before.connected
            &&& action is Parse ==> before.connected
            &&& (events[i] is ClientDisconnected && before.connected && before.client_count == 1) ==> (
            action is CloseAndReset && !after.connected && after.client_count == 0)
        } by {
            assert(events.take(i) =~= prefix.take(i));
            if i + 1 < events.len() {
                assert(events.take(i + 1) =~= prefix.take(i + 1));
                assert(prefix[i] == events[i]);
            } else {
                assert(events.take(i + 1) =~= events);
                assert(prefix.take(i) =~= prefix);
            }
        }
    }
}

impl ManagerState {
    /// No client and no connection.
    pub fn new() -> (res: Self)
        ensures
            res.client_count == 0,
            !res.connected,
    {
        ManagerState { client_count: 0, connected: false }
    }

    /// Handles one event and returns the action to perform.
    pub fn handle(&mut self, event: ManagerEvent) -> (action: ManagerAction)
        requires
            manager_wf(*old(self)),
            step_allowed(*old(self), event@),
        ensures
            manager_wf(*final(self)),
            (*final(self), action@) == manager_step(*old(self), event@),
    {
        match event {
            ManagerEvent::Command(ManagerCommand::ClientConnected) => {
                self.client_count = self.client_count + 1;
                if self.connected {
                    ManagerAction::Nothing
                } else {
                    ManagerAction::Connect
                }
            },
            ManagerEvent::Command(ManagerCommand::ClientDisconnected) => {
                let before = self.client_count;
                self.client_count = self.client_count.saturating_sub(1);
                if self.client_count == 0 && self.connected {
                    self.connected = false;
                    ManagerAction::CloseAndReset
                } else if self.client_count == 0 && before > 0 {
                    ManagerAction::SetStatus(QuStatus::Disconnected)
                } else {
                    ManagerAction::Nothing
                }
            },
            ManagerEvent::Command(ManagerCommand::Change) => {
                if self.connected {
                    ManagerAction::SendChange
                } else {
                    ManagerAction::Nothing
                }
            },
            ManagerEvent::Command(ManagerCommand::Closed) => {
                self.connected = false;
                ManagerAction::Stop
            },
            ManagerEvent::Connected => {
                self.connected = true;
                ManagerAction::Nothing
            },
            ManagerEvent::ConnectFailed { message } => ManagerAction::SetStatus(QuStatus::Error { message }),
            ManagerEvent::QuData => {
                if self.connected {
                    ManagerAction::Parse
                } else {
                    ManagerAction::Nothing
                }
            },
            ManagerEvent::QuClosed => {
                if self.connected {
                    self.connected = false;
                    ManagerAction::SetStatus(QuStatus::Error { message: String::from_str("Qu connection closed") })
                } else {
                    ManagerAction::Nothing
                }
            },
            ManagerEvent::QuError { message } | ManagerEvent::SendFailed { message } => {
                if self.connected {
                    self.connected = false;
                    ManagerAction::SetStatus(QuStatus::Error { message })
                } else {
                    ManagerAction::Nothing
                }
            },
        }
    }
}

/// The status once synchronisation completes: connected, under the name
/// and address of the connection being made (or of the current one), or
/// `unknown` for both when the status holds neither.
pub fn synchronised_status(current: &QuStatus) -> (res: QuStatus)
    ensures
        match *current {
            QuStatus::Connecting { name, address } | QuStatus::Connected { name, address } => res
                matches QuStatus::Connected { name: n, address: a } && n@ == name@ && a@ == address@,
            _ => res matches QuStatus::Connected { name: n, address: a } && n@ == "unknown"@ && a@
                == "unknown"@,
        },
{
    match current {
        QuStatus::Connecting { name, address } | QuStatus::Connected { name, address } => {
            QuStatus::Connected { name: name.clone(), address: address.clone() }
        },
        _ => QuStatus::Connected { name: String::from_str("unknown"), address: String::from_str("unknown") },
    }
}

/// Whether a change from the mixer is passed on to clients in status
/// `status`: only once connected and synchronised.
pub fn forwards_changes(status: &QuStatus) -> (res: bool)
    ensures
        res == (*status is Connected),
{
    match status {
        QuStatus::Connected { .. } => true,
        _ => false,
    }
}

/// A change that clients are told of.
#[derive(Debug, Clone, Copy, PartialEq, Eq, Structural)]
pub enum ClientChange {
    /// A fader moved to raw value `value`.
    Fader { channel: ChannelRef, value: u8 },
    /// A mute changed.
    Mute { channel: ChannelRef, muted: bool },
}

/// How an event from the mixer is handled.
#[derive(Debug, Clone, Copy, PartialEq, Eq, Structural)]
pub enum EventRoute {
    /// A fader or mute of a channel that clients cannot show: dropped.
    Unsupported,
    /// Applied to the mixer state; `change` is told to clients, and
    /// `end_sync` marks the end of the initial synchronisation.
    Apply { change: Option<ClientChange>, end_sync: bool },
}

/// The route of event `e`.
pub open spec fn event_route(e: EventModel) -> EventRoute {
    match e {
        EventModel::Fader { channel, value } => match ref_of(channel) {
            Some(r) => EventRoute::Apply { change: Some(ClientChange::Fader { channel: r, value }), end_sync: false },
            None => EventRoute::Unsupported,
        },
        EventModel::Mute { channel, muted } => match ref_of(channel) {
            Some(r) => EventRoute::Apply { change: Some(ClientChange::Mute { channel: r, muted }), end_sync: false },
            None => EventRoute::Unsupported,
        },
        EventModel::SysEx(data) => EventRoute::Apply { change: None, end_sync: data == END_SYNC@ },
        _ => EventRoute::Apply { change: None, end_sync: false },
    }
}

/// Decides how the event `event` from the mixer is handled.
pub fn route_event(event: &QuEvent) -> (res: EventRoute)
    ensures
        res == event_route(event@),
{
    match event {
        QuEvent::Fader { channel, value } => match ChannelRef::from_channel(*channel) {
            Some(r) => EventRoute::Apply { change: Some(ClientChange::Fader { channel: r, value: *value }), end_sync: false },
            None => EventRoute::Unsupported,
        },
        QuEvent::Mute { channel, muted } => match ChannelRef::from_channel(*channel) {
            Some(r) => EventRoute::Apply { change: Some(ClientChange::Mute { channel: r, muted: *muted }), end_sync: false },
            None => EventRoute::Unsupported,
        },
        QuEvent::SysEx(data) => {
            let done = bytes_equal(data.as_slice(), &END_SYNC);
            EventRoute::Apply { change: None, end_sync: done }
        },
        _ => EventRoute::Apply { change: None, end_sync: false },
    }
}

/// A change that a client asks to be made on the mixer; `F` is the type
/// of a fader level.
pub enum MixerChange<F> {
    /// Move a fader to a level.
    Fader { channel: ChannelRef, value: F },
    /// Mute or unmute a channel.
    Mute { channel: ChannelRef, muted: bool },
    /// Rename a channel.
    Name { channel: ChannelRef, name: String },
}

/// The message that makes `change` on a mixer whose state is `mixer`,
/// with fader levels converted to raw protocol values by `raw_of`. None
/// for a channel reference that names no channel, for a channel without
/// that state, and for a name change, which is not sent.
pub fn change_message<F: Copy, R: Fn(F) -> u8>(mixer: &MixerState<F>, change: &MixerChange<F>, raw_of: &R) -> (res:
    Option<Vec<u8>>)
    requires
        forall|l: F| raw_of.requires((l,)),
    ensures
        match *change {
            MixerChange::Fader { channel, value } => match ref_channel(channel) {
                Some(c) => if channel_model(mixer@, c) is Some {
                    res matches Some(msg) && is_fader_message(msg@, c, value, *raw_of)
                } else {
                    res is None
                },
                None => res is None,
            },
            MixerChange::Mute { channel, muted } => match ref_channel(channel) {
                Some(c) => if muted_model(mixer@, c) is Some {
                    res matches Some(msg) && msg@ == mute_bytes(c.0, muted)
                } else {
                    res is None
                },
                None => res is None,
            },
            MixerChange::Name { .. } => res is None,
        },
{
    match change {
        MixerChange::Fader { channel, value } => match channel.channel() {
            Some(c) => match mixer.fader(c) {
                Some(_) => {
                    let raw = raw_of(*value);
                    let bytes = fader_message(c, raw);
                    let mut msg: Vec<u8> = Vec::new();
                    append_bytes(&mut msg, &bytes);
                    assert(raw_of.ensures((*value,), raw));
                    assert(msg@ =~= nrpn_bytes(0, c.0, 0x17, raw, 0));
                    Some(msg)
                },
                None => None,
            },
            None => None,
        },
        MixerChange::Mute { channel, muted } => match channel.channel() {
            Some(c) => match mixer.muted(c) {
                Some(_) => {
                    let bytes = mute_message(c, *muted);
                    let mut msg: Vec<u8> = Vec::new();
                    append_bytes(&mut msg, &bytes);
                    assert(msg@ =~= mute_bytes(c.0, *muted));
                    Some(msg)
                },
                None => None,
            },
            None => None,
        },
        MixerChange::Name { .. } => None,
    }
}

} // verus!
