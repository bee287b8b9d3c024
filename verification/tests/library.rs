use qu::channels::{Channel, SendDestination};
use qu::messages::{hex, MidiMessage, QuEvent};
use qu::meters::{decode_meter_data, Meter, MeterBlock};
use qu::parameters::Parameter;
use qu::parser::Parser;
use qu::protocol;
use qu::qu_from_state;
use qu::qu_to_state::handle_event;
use qu::state::{ChannelRef, MixerState};

#[test]
fn hex_formats_upper_case_pairs() {
    assert_eq!(hex(&[0x00, 0xab, 0x7f]), "00 AB 7F");
    assert_eq!(hex(&[]), "");
}

#[test]
fn describe_shows_channel_and_level() {
    let input = Channel::input(1).unwrap();

    assert_eq!(
        QuEvent::Fader { channel: input, value: 0x62 }.describe("-5.0 dB"),
        "CH1 Fader: -5.0 dB (MIDI 62)"
    );
    assert_eq!(
        QuEvent::Mute { channel: Channel::lr(), muted: true }.describe(""),
        "LR MUTE: ON"
    );
    assert_eq!(
        QuEvent::Pan { channel: input, destination: SendDestination::Lr, value: 0x25 }.describe(""),
        "CH1 Pan (LR): centre"
    );
    assert_eq!(
        QuEvent::ProgramChange { channel: 0, program: 5 }.describe(""),
        "Program Change: channel=1 program=5"
    );
    assert_eq!(QuEvent::SysEx(vec![0xf0, 0xf7]).describe(""), "SysEx: F0 F7");
    assert_eq!(QuEvent::ActiveSense.describe(""), "Active Sense");
}

#[test]
fn midi_debug_text_matches_derived_debug() {
    let message = MidiMessage::ControlChange { channel: 0, controller: 0x63, value: 0x20 };
    assert_eq!(message.debug_text(), format!("{message:?}"));

    let message = MidiMessage::SysEx(vec![0xf0, 0x01, 0xf7]);
    assert_eq!(message.debug_text(), format!("{message:?}"));
}

#[test]
fn channel_labels_name_channels() {
    assert_eq!(Channel::input(12).unwrap().label(), "CH12");
    assert_eq!(Channel::mute_group(3).unwrap().label(), "Mute Group 3");
    assert_eq!(Channel::lr().label(), "LR");
    assert_eq!(Channel::from_raw(0x7e).label(), "Channel 0x7E");
}

#[test]
fn every_parameter_is_listed_once() {
    let all = Parameter::all();
    assert_eq!(all.len(), 62);
    assert_eq!(all[0], Parameter::LfEqGain);
    assert_eq!(all[61], Parameter::GeqInOut);
}

#[test]
fn parser_output_does_not_depend_on_chunking() {
    let mut bytes = protocol::fader(Channel::input(2).unwrap(), 0x40).to_vec();
    bytes.extend(protocol::mute(Channel::stereo(1).unwrap(), true));
    bytes.extend(protocol::end_sync());

    let mut whole = Parser::new();
    let expected = whole.push(&bytes);
    assert_eq!(expected.len(), 3);

    for split in 0..=bytes.len() {
        let mut parser = Parser::new();
        let mut events = parser.push(&bytes[..split]);
        events.extend(parser.push(&bytes[split..]));
        assert_eq!(events, expected, "split at {split}");
    }
}

#[test]
fn encoded_messages_parse_back() {
    let channel = Channel::input(5).unwrap();

    let mut parser = Parser::new();
    assert_eq!(
        parser.push(&protocol::fader(channel, 0x55)),
        vec![QuEvent::Fader { channel, value: 0x55 }]
    );
    assert_eq!(
        parser.push(&protocol::mute(channel, false)),
        vec![QuEvent::Mute { channel, muted: false }]
    );
    assert_eq!(
        parser.push(&protocol::parameter(channel, Parameter::GateDepth, 0x12, 0x03)),
        vec![QuEvent::Parameter { channel, parameter: Parameter::GateDepth, value: 0x12, index: 0x03 }]
    );
}

#[test]
fn realtime_bytes_inside_messages_are_reported() {
    let mut parser = Parser::new();
    let events = parser.push(&[0xb0, 0x63, 0x20, 0xfe, 0xb0, 0x62, 0x17, 0xb0, 0x06, 0x10, 0xb0, 0x26, 0x00]);

    assert_eq!(
        events,
        vec![
            QuEvent::ActiveSense,
            QuEvent::Fader { channel: Channel::input(1).unwrap(), value: 0x10 },
        ]
    );
}

#[test]
fn meter_data_decodes_levels_in_order() {
    let message = [
        0xf0, 0x00, 0x00, 0x1a, 0x50, 0x11, 0x01, 0x00, 0x00, 0x13,
        0x54, 0x17, 0x4b, 0x17, 0x4b, 0x17, 0x4b,
        0xf7,
    ];
    let level: i16 = -13417;

    assert_eq!(
        decode_meter_data(&message),
        vec![
            Meter { block: MeterBlock::MonoInput(1), index: 0, level },
            Meter { block: MeterBlock::MonoInput(1), index: 1, level },
            Meter { block: MeterBlock::MonoInput(1), index: 2, level },
        ]
    );
}

#[test]
fn new_state_names_channels() {
    let state: MixerState<f32> = MixerState::default();

    assert_eq!(state.name(Channel::input(16).unwrap()), Some("CH16".to_string()));
    assert_eq!(state.name(Channel::stereo(3).unwrap()), Some("ST3".to_string()));
    assert_eq!(state.name(Channel::mix(5).unwrap()), Some("MIX5-6".to_string()));
    assert_eq!(state.name(Channel::lr()), Some("LR".to_string()));
    assert_eq!(state.name(Channel::dca(1).unwrap()), None);
    assert_eq!(state.mute_group(Channel::mute_group(2).unwrap()).unwrap().name, "MG2");
}

#[test]
fn names_can_be_changed() {
    let mut state: MixerState<f32> = MixerState::default();
    let channel = Channel::mix(2).unwrap();

    assert!(state.set_name(channel, "Monitors".to_string()));
    assert_eq!(state.name(channel), Some("Monitors".to_string()));
    assert!(!state.set_name(Channel::group(1).unwrap(), "Drums".to_string()));
}

#[test]
fn mute_groups_keep_assigned_channels_once() {
    let mut state: MixerState<f32> = MixerState::default();
    let group = Channel::mute_group(1).unwrap();
    let first = Channel::input(1).unwrap();
    let second = Channel::stereo(2).unwrap();

    assert!(state.set_mute_group_assignment(group, first, true));
    assert!(state.set_mute_group_assignment(group, second, true));
    assert!(state.set_mute_group_assignment(group, first, true));
    assert_eq!(state.mute_group_assignments(group), Some(&[first, second][..]));

    assert!(state.set_mute_group_assignment(group, first, false));
    assert_eq!(state.mute_group_assignments(group), Some(&[second][..]));

    assert!(!state.set_mute_group_assignment(first, second, true));
    assert_eq!(state.mute_group_assignments(first), None);
}

#[test]
fn mute_group_mute_can_be_changed() {
    let mut state: MixerState<f32> = MixerState::default();
    let group = Channel::mute_group(4).unwrap();

    assert_eq!(state.mute_group_muted(group), Some(false));
    assert!(state.set_mute_group_muted(group, true));
    assert_eq!(state.mute_group_muted(group), Some(true));
    assert_eq!(state.muted(group), Some(true));
    assert!(!state.set_mute_group_muted(Channel::dca(4).unwrap(), true));

    if let Some(group_state) = state.mute_group_mut(group) {
        group_state.muted = false;
    }
    assert_eq!(state.mute_group_muted(group), Some(false));
    assert!(state.mute_group_mut(Channel::lr()).is_none());
}

#[test]
fn mute_group_assignment_event_updates_group() {
    let mut state: MixerState<u8> = MixerState::new(0);
    let channel = Channel::input(3).unwrap();

    handle_event(
        &mut state,
        QuEvent::Parameter { channel, parameter: Parameter::MuteGroupAssignment, value: 0x42, index: 0x07 },
        |raw: u8| raw,
    );
    assert_eq!(state.mute_group_assignments(Channel::mute_group(3).unwrap()), Some(&[channel][..]));

    handle_event(
        &mut state,
        QuEvent::Parameter { channel, parameter: Parameter::MuteGroupAssignment, value: 0x02, index: 0x07 },
        |raw: u8| raw,
    );
    assert!(state.mute_group_assignments(Channel::mute_group(3).unwrap()).unwrap().is_empty());
}

#[test]
fn state_messages_restore_state() {
    let mut state: MixerState<u8> = MixerState::new(0x30);
    state.set_fader(Channel::stereo(2).unwrap(), 0x50);
    state.set_muted(Channel::input(4).unwrap(), true);

    let messages = qu_from_state::state(&state, &|level: u8| level);
    assert_eq!(messages.len(), 54);

    let mut restored: MixerState<u8> = MixerState::new(0);
    let mut parser = Parser::new();
    for message in &messages {
        for event in parser.push(message) {
            handle_event(&mut restored, event, |raw: u8| raw);
        }
    }

    assert_eq!(restored.fader(Channel::stereo(2).unwrap()), Some(0x50));
    assert_eq!(restored.fader(Channel::input(9).unwrap()), Some(0x30));
    assert_eq!(restored.muted(Channel::input(4).unwrap()), Some(true));
    assert_eq!(restored.muted(Channel::input(5).unwrap()), Some(false));
}

#[test]
fn qu_from_state_skips_channels_without_state() {
    let state: MixerState<u8> = MixerState::new(0);
    let raw = |level: u8| level;

    assert_eq!(qu_from_state::fader(&state, Channel::dca(1).unwrap(), &raw), None);
    assert_eq!(qu_from_state::mute(&state, Channel::dca(1).unwrap()), None);
    assert_eq!(
        qu_from_state::mute(&state, Channel::mute_group(1).unwrap()),
        Some(protocol::mute(Channel::mute_group(1).unwrap(), false).to_vec())
    );
}

#[test]
fn channel_refs_round_trip() {
    for raw in 0..=0x7f {
        let channel = Channel::from_raw(raw);
        if let Some(reference) = ChannelRef::from_channel(channel) {
            assert_eq!(reference.channel(), Some(channel));
        }
    }
    assert_eq!(ChannelRef::from_channel(Channel::input(16).unwrap()), Some(ChannelRef::Input(16)));
    assert_eq!(ChannelRef::from_channel(Channel::input(17).unwrap()), None);
    assert_eq!(ChannelRef::Lr.channel(), Some(Channel::lr()));
}

#[test]
fn new_parser_reports_stray_data() {
    assert_eq!(Parser::new().push(&[]), Vec::<QuEvent>::new());
    assert_eq!(Parser::new().push(&[0x12]), vec![QuEvent::Unknown(vec![0x12])]);
}

#[test]
fn default_parser_is_new() {
    let bytes = [0x40, 0xb0, 0x63, 0x20, 0xb0, 0x62, 0x17, 0xb0, 0x06, 0x62, 0xb0, 0x26, 0x00];
    assert_eq!(Parser::default().push(&bytes), Parser::new().push(&bytes));
}
