//! Laws of the mixer state: what a write leaves for later reads, and what
//! mute-group assignment keeps.

use vstd::prelude::*;
use crate::channels::Channel;
use crate::state::{
    ChannelModel, MixerModel, MuteGroupModel, assigned_channels, channel_model, group_model,
    muted_model, muted_written, with_channel, with_group,
};
use crate::seq_laws::{filter_except, push_new};

verus! {

/// Whether `m` has the shape of a Qu-16's state.
pub open spec fn well_formed<F>(m: MixerModel<F>) -> bool {
    &&& m.inputs.len() == 16
    &&& m.stereo.len() == 3
    &&& m.mixes.len() == 8
    &&& m.mute_groups.len() == 4
}

/// A channel reads back what was last written to it, and writing it
/// changes no other channel and no mute group.
pub proof fn channel_write_then_read<F>(m: MixerModel<F>, c: Channel, other: Channel, st: ChannelModel<F>)
    requires
        well_formed(m),
        channel_model(m, c) is Some,
    ensures
        channel_model(with_channel(m, c, st), c) == Some(st),
        other != c ==> channel_model(with_channel(m, c, st), other) == channel_model(m, other),
        group_model(with_channel(m, c, st), other) == group_model(m, other),
        well_formed(with_channel(m, c, st)),
{
}

/// A mute group reads back what was last written to it, and writing it
/// changes no other mute group and no channel.
pub proof fn group_write_then_read<F>(m: MixerModel<F>, c: Channel, other: Channel, g: MuteGroupModel)
    requires
        well_formed(m),
        group_model(m, c) is Some,
    ensures
        group_model(with_group(m, c, g), c) == Some(g),
        other != c ==> group_model(with_group(m, c, g), other) == group_model(m, other),
        channel_model(with_group(m, c, g), other) == channel_model(m, other),
        well_formed(with_group(m, c, g)),
{
}

/// Mute-group assignment: after assigning, the channel is in the group;
/// after removing, it is not; no other channel's membership changes; and a
/// group that held each channel at most once still does.
pub proof fn assignment_laws(channels: Seq<Channel>, c: Channel, x: Channel, assigned: bool)
    ensures
        assigned_channels(channels, c, assigned).contains(c) == assigned,
        x != c ==> assigned_channels(channels, c, assigned).contains(x) == channels.contains(x),
        channels.no_duplicates() ==> assigned_channels(channels, c, assigned).no_duplicates(),
{
    if assigned {
        if !channels.contains(c) {
            push_new(channels, c);
        }
    } else {
        filter_except(channels, c);
    }
}

/// A mute reads back what was last written, for a channel with a state and
/// for a mute group alike; writing a mute changes no fader or name, and
/// leaves every other channel's and mute group's mute as it was.
pub proof fn mute_write_then_read<F>(m: MixerModel<F>, c: Channel, other: Channel, muted: bool)
    requires
        well_formed(m),
        muted_model(m, c) is Some,
    ensures
        muted_model(muted_written(m, c, muted), c) == Some(muted),
        other != c ==> muted_model(muted_written(m, c, muted), other) == muted_model(m, other),
        channel_model(m, c) matches Some(st) ==> channel_model(muted_written(m, c, muted), c) == Some(
            ChannelModel { muted, ..st },
        ),
        group_model(m, c) matches Some(g) ==> group_model(muted_written(m, c, muted), c) == Some(
            MuteGroupModel { muted, ..g },
        ),
        well_formed(muted_written(m, c, muted)),
{
}

} // verus!
