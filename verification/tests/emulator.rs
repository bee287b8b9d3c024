use qu::channels::Channel;
use qu::messages::QuEvent;
use qu::meters::MeterBlock;
use qu::parser::Parser;
use qu::emulator::{
    encode_meter_data, handle_meter_control, is_system_state_request, meter_data, meter_sysex, meter_values,
    next_sysex, system_state_messages, SysexSession, METER_COUNT,
};
use qu::protocol::{self, SYSEX_HEADER};
use qu::state::MixerState;

fn meters_on() -> Vec<u8> {
    vec![0xf0, 0x00, 0x00, 0x1a, 0x50, 0x11, 0x01, 0x00, 0x00, 0x12, 0x01, 0xf7]
}

#[test]
fn next_sysex_takes_first_complete_message() {
    let mut buffer = vec![0x01, 0x02, 0xf0, 0x10, 0xf7, 0x05];
    assert_eq!(next_sysex(&mut buffer), Some(vec![0xf0, 0x10, 0xf7]));
    assert_eq!(buffer, vec![0x05]);
}

#[test]
fn next_sysex_keeps_bytes_without_start() {
    let mut buffer = vec![0x01, 0x02, 0xf7];
    assert_eq!(next_sysex(&mut buffer), None);
    assert_eq!(buffer, vec![0x01, 0x02, 0xf7]);
}

#[test]
fn next_sysex_drops_bytes_before_incomplete_message() {
    let mut buffer = vec![0x01, 0xf0, 0x03];
    assert_eq!(next_sysex(&mut buffer), None);
    assert_eq!(buffer, vec![0xf0, 0x03]);

    buffer.push(0xf7);
    assert_eq!(next_sysex(&mut buffer), Some(vec![0xf0, 0x03, 0xf7]));
    assert!(buffer.is_empty());
}

#[test]
fn meter_control_switches_meters() {
    let mut message = meters_on();
    assert_eq!(handle_meter_control(&message), Some(true));

    message[10] = 0x00;
    assert_eq!(handle_meter_control(&message), Some(false));

    message[10] = 0x02;
    assert_eq!(handle_meter_control(&message), None);

    let mut other = meters_on();
    other[9] = 0x13;
    assert_eq!(handle_meter_control(&other), None);

    assert_eq!(handle_meter_control(&meters_on()[..11]), None);
}

#[test]
fn recognises_system_state_request() {
    assert!(is_system_state_request(&protocol::get_system_state()));
    assert!(!is_system_state_request(&protocol::get_system_state_with_ipad(true)));
    assert!(!is_system_state_request(&meters_on()));
}

#[test]
fn meter_encoding_puts_high_bits_first() {
    assert_eq!(
        encode_meter_data(&[0x97, 0x4b, 0x97, 0x4b, 0x97, 0x4b]),
        vec![0x54, 0x17, 0x4b, 0x17, 0x4b, 0x17, 0x4b]
    );
    assert_eq!(
        encode_meter_data(&[0x80; 8]),
        vec![0x7f, 0, 0, 0, 0, 0, 0, 0, 0x40, 0]
    );
    assert_eq!(
        encode_meter_data(&[0x80, 0x00, 0x00, 0x00, 0x00, 0x00, 0xff]),
        vec![0x41, 0, 0, 0, 0, 0, 0, 0x7f]
    );
    assert_eq!(encode_meter_data(&[]), Vec::<u8>::new());
}

#[test]
fn meter_values_follow_qu16_layout() {
    let mut inputs = [0u16; 16];
    inputs[0] = 0x1234;
    inputs[15] = 0x0102;
    let stereo = [[0x2000, 0x2001], [0, 0], [0x2200, 0x2201]];
    let mut mixes = [[0u16; 2]; 8];
    mixes[0] = [0x3000, 0x3001];
    mixes[3] = [0x3300, 0];
    mixes[4] = [0x3400, 0x3401];
    mixes[7] = [0x3700, 0x3701];

    let values = meter_values(&inputs, &stereo, &mixes);

    assert_eq!(values.len(), METER_COUNT);
    assert_eq!(values[0], 0x1234);
    assert_eq!(values[1], 0);
    assert_eq!(values[150], 0x0102);
    assert_eq!(values[240], 0x2000);
    assert_eq!(values[250], 0x2001);
    assert_eq!(values[280], 0x2200);
    assert_eq!(values[290], 0x2201);
    assert_eq!(values[320], 0x3000);
    assert_eq!(values[321], 0);
    assert_eq!(values[350], 0x3300);
    assert_eq!(values[360], 0x3400);
    assert_eq!(values[370], 0x3401);
    assert_eq!(values[420], 0x3700);
    assert_eq!(values[430], 0x3701);
    assert!(values[440..].iter().all(|value| *value == 0));
}

#[test]
fn meter_sysex_frames_encoded_values() {
    assert_eq!(
        meter_sysex(&[0x4b97, 0x4b97, 0x4b97]),
        vec![
            0xf0, 0x00, 0x00, 0x1a, 0x50, 0x11, 0x01, 0x00, 0x00, 0x13,
            0x54, 0x17, 0x4b, 0x17, 0x4b, 0x17, 0x4b,
            0xf7,
        ]
    );
}

#[test]
fn parser_reads_emulated_meters_back() {
    let values = meter_values(&[0x8000; 16], &[[0x7f00, 0x1234]; 3], &[[0x8001, 0xffff]; 8]);
    let mut parser = Parser::new();
    let events = parser.push(&meter_sysex(&values));

    assert_eq!(events.len(), 1);
    match &events[0] {
        QuEvent::Meters { values: meters } => {
            assert_eq!(meters.len(), values.len());
            for (meter, value) in meters.iter().zip(values.iter()) {
                assert_eq!(i32::from(meter.level), i32::from(*value) - 0x8000);
            }
            assert_eq!(meters[240].block, MeterBlock::StereoInput(1));
            assert_eq!(meters[240].level, -256);
            assert_eq!(meters[250].level, -28108);
            assert_eq!(meters[431].block, MeterBlock::StereoMix(4));
        }
        event => panic!("expected meter event, got {event:?}"),
    }
}

#[test]
fn meter_data_has_qu16_length() {
    let message = meter_data(&[0x8000; 16], &[[0x8000; 2]; 3], &[[0x8000; 2]; 8]);

    assert_eq!(message.len(), 1813);
    assert_eq!(message[..8], SYSEX_HEADER);
    assert_eq!(message[8], 0x00);
    assert_eq!(message[9], 0x13);
    assert_eq!(message[message.len() - 1], 0xf7);
}

#[test]
fn session_counts_state_requests_and_switches_meters() {
    let mut session = SysexSession::new();
    let mut data = meters_on();
    data.extend(protocol::get_system_state());
    data.extend([0x90, 0x20, 0x7f, 0xf0, 0x00]);

    assert_eq!(session.receive(&data), 1);
    assert!(session.meters_enabled);
    assert_eq!(session.buffer, vec![0xf0, 0x00]);

    let mut rest = protocol::get_system_state()[2..].to_vec();
    rest.extend(protocol::get_system_state());
    assert_eq!(session.receive(&rest), 2);
    assert!(session.buffer.is_empty());
}

#[test]
fn session_clears_overlong_buffer() {
    let mut session = SysexSession::new();
    let mut data = vec![0xf0];
    data.extend(vec![0x00; 70000]);

    assert_eq!(session.receive(&data), 0);
    assert!(session.buffer.is_empty());
    assert!(!session.meters_enabled);
}

#[test]
fn system_state_lists_whole_state() {
    let mut state: MixerState<u8> = MixerState::new(0x62);
    let input = Channel::input(1).unwrap();
    let group = Channel::mute_group(2).unwrap();
    state.set_muted(input, true);
    state.set_mute_group_assignment(group, input, true);

    let messages = system_state_messages(&state, &|level: u8| level);

    assert_eq!(messages.len(), 199);
    assert_eq!(messages[0], protocol::system_state_response(0, 1, 1, 99));
    assert_eq!(messages[1], protocol::fader(input, 0x62).to_vec());
    assert_eq!(messages[2], protocol::mute(input, true).to_vec());
    assert_eq!(
        messages[3],
        protocol::mute_group_assignment(input, Channel::mute_group(1).unwrap(), false).to_vec()
    );
    assert_eq!(messages[4], protocol::mute_group_assignment(input, group, true).to_vec());
    assert_eq!(messages[163], protocol::mute(Channel::mute_group(1).unwrap(), false).to_vec());
    assert_eq!(messages[167], protocol::channel_name(input, b"CH1"));
    assert_eq!(messages[193], protocol::channel_name(Channel::lr(), b"LR"));
    assert_eq!(messages[195], protocol::channel_name(group, b"MG2"));
    assert_eq!(messages[198], protocol::end_sync());
}
