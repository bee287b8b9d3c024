use qu::channels::Channel;
use qu::messages::QuEvent;
use qu::qu_to_state::handle_event;
use qu::state::MixerState;

/// The fader conversion is a parameter of `handle_event` (the programs pass
/// the Qu's floating-point dB curve). These tests pass this simple one: the
/// raw value in steps of a quarter of a dB below +10 dB at 127. What they
/// check is that the state holds what the conversion gives.
fn level(raw: u8) -> f32 {
    (f32::from(raw) - 127.0) / 4.0 + 10.0
}

#[test]
fn handles_fader() {
    let mut state: MixerState<f32> = MixerState::default();
    let channel = Channel::input(1).unwrap();

    handle_event(
        &mut state,
        QuEvent::Fader {
            channel,
            value: 0x40,
        },
        level,
    );

    assert_eq!(state.fader(channel), Some(level(0x40)));
}

#[test]
fn handles_mute() {
    let mut state: MixerState<f32> = MixerState::default();
    let channel = Channel::input(1).unwrap();

    handle_event(
        &mut state,
        QuEvent::Mute {
            channel,
            muted: true,
        },
        level,
    );

    assert_eq!(state.muted(channel), Some(true));
}
