//! Applying Qu events to the mixer state.

use vstd::prelude::*;
use crate::channels::Channel;
use crate::messages::{EventModel, QuEvent};
use crate::parameters::Parameter;
use crate::state::{MixerModel, MixerState, assignment_written, fader_written, muted_written};

verus! {

/// The mute group that a mute-group assignment value names: its low two
/// bits count the groups from `0x50`.
pub open spec fn assignment_group(value: u8) -> Channel {
    Channel((0x50 + value % 4) as u8)
}

/// Whether a mute-group assignment value assigns (bit `0x40`) or removes.
pub open spec fn assignment_flag(value: u8) -> bool {
    (value / 64) % 2 == 1
}

/// The state after event `e`, for events that need no fader conversion:
/// mutes and mute-group assignments change the state; other events, apart
/// from fader levels, leave it as it is.
pub open spec fn event_applied<F>(m: MixerModel<F>, e: EventModel) -> MixerModel<F> {
    match e {
        EventModel::Mute { channel, muted } => muted_written(m, channel, muted),
        EventModel::Parameter { channel, parameter, value, .. } => if parameter == Parameter::MuteGroupAssignment {
            assignment_written(m, assignment_group(value), channel, assignment_flag(value))
        } else {
            m
        },
        _ => m,
    }
}

/// Whether `new` is `old` with the fader of `c` set to a level that
/// `level_of` gives for raw value `value`.
pub open spec fn fader_applied<F, L: Fn(u8) -> F>(
    old: MixerModel<F>,
    new: MixerModel<F>,
    c: Channel,
    value: u8,
    level_of: L,
) -> bool {
    exists|level: F| #[trigger] level_of.ensures((value,), level) && new == fader_written(old, c, level)
}

/// Applies `event` to `mixer`. A fader level is stored as the level that
/// `level_of` gives for the raw protocol value; a mute sets the channel's or
/// mute group's mute; a mute-group assignment adds the channel to, or takes
/// it from, the group that the value names. Other events change nothing.
pub fn handle_event<F: Copy, L: Fn(u8) -> F>(mixer: &mut MixerState<F>, event: QuEvent, level_of: L)
    requires
        forall|v: u8| level_of.requires((v,)),
    ensures
        event@ matches EventModel::Fader { channel, value } ==> fader_applied(
            old(mixer)@,
            final(mixer)@,
            channel,
            value,
            level_of,
        ),
        !(event@ is Fader) ==> final(mixer)@ == event_applied(old(mixer)@, event@),
{
    let ghost e = event@;
    match event {
        QuEvent::ActiveSense => {
            assert(mixer@ == event_applied(old(mixer)@, e));
        },
        QuEvent::Fader { channel, value } => {
            let level = level_of(value);
            mixer.set_fader(channel, level);
            assert(level_of.ensures((value,), level) && mixer@ == fader_written(old(mixer)@, channel, level));
            assert(fader_applied(old(mixer)@, mixer@, channel, value, level_of));
        },
        QuEvent::Mute { channel, muted } => {
            mixer.set_muted(channel, muted);
            assert(mixer@ == event_applied(old(mixer)@, e));
        },
        QuEvent::Parameter { channel, parameter: Parameter::MuteGroupAssignment, value, .. } => {
            assert(value & 0x03 == value % 4) by (bit_vector);
            assert((value & 0x40 != 0) == ((value / 64) % 2 == 1)) by (bit_vector);
            let group_number = (value & 0x03) + 1;
            match Channel::mute_group(group_number) {
                Some(group) => {
                    let assigned = value & 0x40 != 0;
                    mixer.set_mute_group_assignment(group, channel, assigned);
                    assert(mixer@ == event_applied(old(mixer)@, e));
                },
                None => {
                    assert(false);
                },
            }
        },
        _ => {
            assert(mixer@ == event_applied(old(mixer)@, e));
        },
    }
}

} // verus!
