//! The Qu MIDI protocol messages that set a mixer to a given state.

use vstd::prelude::*;
use crate::channels::Channel;
use crate::protocol::{append_bytes, fader as fader_message, mute as mute_message, mute_bytes, nrpn_bytes};
use crate::state::{MixerState, channel_model, muted_model};

verus! {

/// Whether `msg` sets the fader of `c` to a raw value that `raw_of` gives
/// for `level`.
pub open spec fn is_fader_message<F, R: Fn(F) -> u8>(msg: Seq<u8>, c: Channel, level: F, raw_of: R) -> bool {
    exists|raw: u8| #[trigger] raw_of.ensures((level,), raw) && msg == nrpn_bytes(0, c.0, 0x17, raw, 0)
}

/// The message that sets the fader of `channel` to its level in `state`,
/// converted to the raw protocol value by `raw_of`; none when the channel
/// has no state.
pub fn fader<F: Copy, R: Fn(F) -> u8>(state: &MixerState<F>, channel: Channel, raw_of: &R) -> (res: Option<Vec<u8>>)
    requires
        forall|l: F| raw_of.requires((l,)),
    ensures
        match channel_model(state@, channel) {
            Some(st) => res matches Some(msg) && is_fader_message(msg@, channel, st.fader, *raw_of),
            None => res is None,
        },
{
    match state.fader(channel) {
        Some(level) => {
            let raw = raw_of(level);
            let bytes = fader_message(channel, raw);
            let mut msg = Vec::new();
            append_bytes(&mut msg, &bytes);
            assert(msg@ =~= nrpn_bytes(0, channel.0, 0x17, raw, 0));
            Some(msg)
        },
        None => None,
    }
}

/// The message that sets the mute of `channel` to its mute in `state`;
/// none when it is neither a channel with a state nor a mute group.
pub fn mute<F: Copy>(state: &MixerState<F>, channel: Channel) -> (res: Option<Vec<u8>>)
    ensures
        match muted_model(state@, channel) {
            Some(m) => res matches Some(msg) && msg@ == mute_bytes(channel.0, m),
            None => res is None,
        },
{
    match state.muted(channel) {
        Some(muted) => {
            let bytes = mute_message(channel, muted);
            let mut msg = Vec::new();
            append_bytes(&mut msg, &bytes);
            assert(msg@ =~= mute_bytes(channel.0, muted));
            Some(msg)
        },
        None => None,
    }
}

/// The channels whose state [`state`] sends, in order: inputs 1..=16,
/// stereo inputs 1..=3, mixes 1..=7, and LR.
pub open spec fn state_channel(k: int) -> Channel {
    if k < 16 {
        Channel((0x20 + k) as u8)
    } else if k < 19 {
        Channel((0x40 + k - 16) as u8)
    } else {
        Channel((0x60 + k - 19) as u8)
    }
}

pub(crate) fn state_channel_exec(k: usize) -> (res: Channel)
    requires
        k < 27,
    ensures
        res == state_channel(k as int),
{
    if k < 16 {
        Channel((0x20 + k) as u8)
    } else if k < 19 {
        Channel((0x40 + k - 16) as u8)
    } else {
        Channel((0x60 + k - 19) as u8)
    }
}

/// The messages that bring a mixer to the state `mixer`: for each of the 27 channels
/// of [`state_channel`], its fader message and then its mute message.
pub fn state<F: Copy, R: Fn(F) -> u8>(mixer: &MixerState<F>, raw_of: &R) -> (res: Vec<Vec<u8>>)
    requires
        forall|l: F| raw_of.requires((l,)),
    ensures
        res@.len() == 54,
        forall|k: int|
            0 <= k < 27 ==> (channel_model(mixer@, #[trigger] state_channel(k)) matches Some(st) && is_fader_message(
                res@[2 * k]@,
                state_channel(k),
                st.fader,
                *raw_of,
            ) && res@[2 * k + 1]@ == mute_bytes(state_channel(k).0, st.muted)),
{
    let mut messages: Vec<Vec<u8>> = Vec::new();
    let mut k: usize = 0;
    while k < 27
        invariant
            k <= 27,
            forall|l: F| raw_of.requires((l,)),
            messages@.len() == 2 * k,
            forall|j: int|
                0 <= j < k ==> (channel_model(mixer@, #[trigger] state_channel(j)) matches Some(st)
                    && is_fader_message(messages@[2 * j]@, state_channel(j), st.fader, *raw_of)
                    && messages@[2 * j + 1]@ == mute_bytes(state_channel(j).0, st.muted)),
        decreases 27 - k,
    {
        let channel = state_channel_exec(k);
        let f = fader(mixer, channel, raw_of);
        let m = mute(mixer, channel);
        match (f, m) {
            (Some(f), Some(m)) => {
                messages.push(f);
                messages.push(m);
            },
            _ => {
                assert(false);
            },
        }
        k = k + 1;
    }
    messages
}

} // verus!
