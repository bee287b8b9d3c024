use qu::channels::Channel;
use qu::manager::{
    change_message, forwards_changes, route_event, synchronised_status, ClientChange, EventRoute, ManagerAction,
    ManagerCommand, ManagerEvent, ManagerState, MixerChange, QuStatus,
};
use qu::messages::QuEvent;
use qu::protocol;
use qu::proxy::{ProxyAction, ProxyEvent, ProxyState};
use qu::state::{ChannelRef, MixerState};

/// Client IDs in increasing order; the proxy lists them in no particular order.
fn sorted(mut ids: Vec<u64>) -> Vec<u64> {
    ids.sort();
    ids
}

#[test]
fn manager_connects_for_first_client_and_closes_after_last() {
    let mut manager = ManagerState::new();

    let action = manager.handle(ManagerEvent::Command(ManagerCommand::ClientConnected));
    assert!(matches!(action, ManagerAction::Connect));

    let action = manager.handle(ManagerEvent::Connected);
    assert!(matches!(action, ManagerAction::Nothing));
    assert!(manager.connected);

    let action = manager.handle(ManagerEvent::Command(ManagerCommand::ClientConnected));
    assert!(matches!(action, ManagerAction::Nothing));
    assert_eq!(manager.client_count, 2);

    let action = manager.handle(ManagerEvent::Command(ManagerCommand::Change));
    assert!(matches!(action, ManagerAction::SendChange));

    let action = manager.handle(ManagerEvent::QuData);
    assert!(matches!(action, ManagerAction::Parse));

    let action = manager.handle(ManagerEvent::Command(ManagerCommand::ClientDisconnected));
    assert!(matches!(action, ManagerAction::Nothing));
    assert!(manager.connected);

    let action = manager.handle(ManagerEvent::Command(ManagerCommand::ClientDisconnected));
    assert!(matches!(action, ManagerAction::CloseAndReset));
    assert!(!manager.connected);
    assert_eq!(manager.client_count, 0);
}

#[test]
fn manager_ignores_changes_without_connection() {
    let mut manager = ManagerState::new();

    let action = manager.handle(ManagerEvent::Command(ManagerCommand::Change));
    assert!(matches!(action, ManagerAction::Nothing));

    let action = manager.handle(ManagerEvent::Command(ManagerCommand::ClientDisconnected));
    assert!(matches!(action, ManagerAction::Nothing));
    assert_eq!(manager.client_count, 0);
}

#[test]
fn manager_reports_failures() {
    let mut manager = ManagerState::new();
    manager.handle(ManagerEvent::Command(ManagerCommand::ClientConnected));

    let action = manager.handle(ManagerEvent::ConnectFailed { message: "No Qu mixers found".to_string() });
    assert!(
        matches!(action, ManagerAction::SetStatus(QuStatus::Error { message }) if message == "No Qu mixers found")
    );
    assert!(!manager.connected);

    let action = manager.handle(ManagerEvent::Command(ManagerCommand::ClientDisconnected));
    assert!(matches!(action, ManagerAction::SetStatus(QuStatus::Disconnected)));

    manager.handle(ManagerEvent::Command(ManagerCommand::ClientConnected));
    manager.handle(ManagerEvent::Connected);
    let action = manager.handle(ManagerEvent::QuClosed);
    assert!(
        matches!(action, ManagerAction::SetStatus(QuStatus::Error { message }) if message == "Qu connection closed")
    );
    assert!(!manager.connected);

    let action = manager.handle(ManagerEvent::Command(ManagerCommand::Closed));
    assert!(matches!(action, ManagerAction::Stop));
}

#[test]
fn synchronised_status_keeps_connection_details() {
    let status = synchronised_status(&QuStatus::Connecting {
        name: "Qu-16".to_string(),
        address: "10.0.0.2:51325".to_string(),
    });
    assert!(matches!(
        status,
        QuStatus::Connected { ref name, ref address } if name == "Qu-16" && address == "10.0.0.2:51325"
    ));
    assert!(forwards_changes(&status));

    let status = synchronised_status(&QuStatus::Synchronising);
    assert!(matches!(
        status,
        QuStatus::Connected { ref name, ref address } if name == "unknown" && address == "unknown"
    ));

    assert!(!forwards_changes(&QuStatus::Synchronising));
    assert!(!forwards_changes(&QuStatus::Disconnected));
}

#[test]
fn events_are_routed_to_clients() {
    let input = Channel::input(1).unwrap();

    assert_eq!(
        route_event(&QuEvent::Fader { channel: input, value: 0x62 }),
        EventRoute::Apply {
            change: Some(ClientChange::Fader { channel: ChannelRef::Input(1), value: 0x62 }),
            end_sync: false,
        }
    );
    assert_eq!(
        route_event(&QuEvent::Mute { channel: Channel::lr(), muted: true }),
        EventRoute::Apply {
            change: Some(ClientChange::Mute { channel: ChannelRef::Mix(8), muted: true }),
            end_sync: false,
        }
    );
    assert_eq!(
        route_event(&QuEvent::Fader { channel: Channel::fx_send(1).unwrap(), value: 0x10 }),
        EventRoute::Unsupported
    );
    assert_eq!(
        route_event(&QuEvent::SysEx(protocol::end_sync())),
        EventRoute::Apply { change: None, end_sync: true }
    );
    assert_eq!(
        route_event(&QuEvent::ActiveSense),
        EventRoute::Apply { change: None, end_sync: false }
    );
}

#[test]
fn client_changes_become_mixer_messages() {
    let state: MixerState<u8> = MixerState::new(0);
    let raw = |level: u8| level;

    assert_eq!(
        change_message(&state, &MixerChange::Fader { channel: ChannelRef::Input(1), value: 0x40 }, &raw),
        Some(protocol::fader(Channel::input(1).unwrap(), 0x40).to_vec())
    );
    assert_eq!(
        change_message(&state, &MixerChange::Mute { channel: ChannelRef::Lr, muted: true }, &raw),
        Some(protocol::mute(Channel::lr(), true).to_vec())
    );
    assert_eq!(
        change_message(&state, &MixerChange::Mute { channel: ChannelRef::Stereo(4), muted: true }, &raw),
        None
    );
    assert_eq!(
        change_message(&state, &MixerChange::Fader { channel: ChannelRef::Input(20), value: 1 }, &raw),
        None
    );
    assert_eq!(
        change_message(
            &state,
            &MixerChange::Name { channel: ChannelRef::Input(1), name: "Vocal".to_string() },
            &raw
        ),
        None
    );
}

#[test]
fn proxy_routes_between_clients_and_mixer() {
    let mut proxy = ProxyState::new();

    assert!(matches!(proxy.handle(ProxyEvent::AddClient), ProxyAction::RegisterClient { id: 0 }));
    assert!(matches!(proxy.handle(ProxyEvent::AddClient), ProxyAction::RegisterClient { id: 1 }));
    assert_eq!(sorted(proxy.clients()), vec![0, 1]);

    match proxy.handle(ProxyEvent::QuData { data: vec![0xfe] }) {
        ProxyAction::Broadcast { clients, data } => {
            assert_eq!(sorted(clients), vec![0, 1]);
            assert_eq!(data, vec![0xfe]);
        }
        _ => panic!("expected a broadcast"),
    }

    match proxy.handle(ProxyEvent::ClientData { id: 1, data: vec![0x90, 0x20, 0x7f] }) {
        ProxyAction::WriteToQu { data } => assert_eq!(data, vec![0x90, 0x20, 0x7f]),
        _ => panic!("expected a write to the mixer"),
    }

    assert!(matches!(
        proxy.handle(ProxyEvent::ClientDisconnected { id: 0 }),
        ProxyAction::RemoveClient { id: 0 }
    ));
    assert_eq!(proxy.clients(), vec![1]);

    assert!(matches!(proxy.handle(ProxyEvent::AddClient), ProxyAction::RegisterClient { id: 2 }));
    assert_eq!(sorted(proxy.clients()), vec![1, 2]);

    assert!(matches!(proxy.handle(ProxyEvent::QuDisconnected), ProxyAction::Stop));
}
