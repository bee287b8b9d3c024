//! Mixer state kept by a Qu client: the channels' names, fader levels and
//! mutes, and the mute groups with their assigned channels.
//!
//! The fader level type is a parameter: the state keeps whatever level each
//! client uses (a dB value, the raw protocol value, ...).

use vstd::prelude::*;
use crate::channels::{Channel, numbered};
use crate::seq_laws::except;
use crate::text::{decimal, push_decimal, push_str};

verus! {

/// A channel that has a state, by its kind and number.
#[derive(Debug, Clone, Copy, PartialEq, Eq, Hash, Structural)]
pub enum ChannelRef {
    Input(u8),
    Stereo(u8),
    Mix(u8),
    Lr,
}

/// The channel that `r` names, if its number is valid.
pub open spec fn ref_channel(r: ChannelRef) -> Option<Channel> {
    match r {
        ChannelRef::Input(n) => numbered(n, 32, 0x20),
        ChannelRef::Stereo(n) => numbered(n, 3, 0x40),
        ChannelRef::Mix(n) => numbered(n, 10, 0x60),
        ChannelRef::Lr => Some(Channel(0x67)),
    }
}

/// The reference of channel `c`: inputs 1..=16, stereo inputs 1..=3, and
/// mixes 1..=10 (the main LR is mix 8); none for any other channel.
pub open spec fn ref_of(c: Channel) -> Option<ChannelRef> {
    if 0x20 <= c.0 < 0x30 {
        Some(ChannelRef::Input((c.0 - 0x1f) as u8))
    } else if 0x40 <= c.0 < 0x43 {
        Some(ChannelRef::Stereo((c.0 - 0x3f) as u8))
    } else if 0x60 <= c.0 < 0x6a {
        Some(ChannelRef::Mix((c.0 - 0x5f) as u8))
    } else {
        None
    }
}

impl ChannelRef {
    /// The channel named, or none when the number is out of range.
    pub fn channel(self) -> (res: Option<Channel>)
        ensures
            res == ref_channel(self),
    {
        match self {
            ChannelRef::Input(number) => Channel::input(number),
            ChannelRef::Stereo(number) => Channel::stereo(number),
            ChannelRef::Mix(number) => Channel::mix(number),
            ChannelRef::Lr => Some(Channel::lr()),
        }
    }

    /// The reference of `channel`, looked up among inputs 1..=16, stereo
    /// inputs 1..=3, mixes 1..=10 and LR, in that order.
    pub fn from_channel(channel: Channel) -> (res: Option<Self>)
        ensures
            res == ref_of(channel),
    {
        let raw = channel.0;
        if 0x20 <= raw && raw < 0x30 {
            Some(ChannelRef::Input(raw - 0x1f))
        } else if 0x40 <= raw && raw < 0x43 {
            Some(ChannelRef::Stereo(raw - 0x3f))
        } else if 0x60 <= raw && raw < 0x6a {
            Some(ChannelRef::Mix(raw - 0x5f))
        } else {
            None
        }
    }
}

/// A reference found for a channel names that channel again.
pub proof fn channel_ref_round_trip(c: Channel)
    ensures
        ref_of(c) matches Some(r) ==> ref_channel(r) == Some(c),
{
}

/// Every channel that clients can show is found: inputs 1..=16, stereo
/// inputs 1..=3 and mixes 1..=10 each name a channel whose reference is
/// that same reference again; the main LR is found as mix 8. Channels of
/// other kinds (FX, DCAs, groups, matrices, mute groups) have none.
pub proof fn channel_refs_are_complete(n: u8)
    ensures
        1 <= n <= 16 ==> (ref_channel(ChannelRef::Input(n)) matches Some(c) && ref_of(c) == Some(
            ChannelRef::Input(n),
        )),
        1 <= n <= 3 ==> (ref_channel(ChannelRef::Stereo(n)) matches Some(c) && ref_of(c) == Some(
            ChannelRef::Stereo(n),
        )),
        1 <= n <= 10 ==> (ref_channel(ChannelRef::Mix(n)) matches Some(c) && ref_of(c) == Some(
            ChannelRef::Mix(n),
        )),
        ref_channel(ChannelRef::Lr) == Some(Channel(0x67)),
        ref_of(Channel(0x67)) == Some(ChannelRef::Mix(8)),
        n < 0x20 || (0x30 <= n < 0x40) || (0x43 <= n < 0x60) || 0x6a <= n ==> ref_of(Channel(n)) is None,
{
}

/// A channel's state.
#[derive(Debug, Clone)]
pub struct ChannelState<F> {
    pub name: String,
    pub fader: F,
    pub muted: bool,
}

/// A mute group's state: its name, whether it is muted, and its channels.
#[derive(Debug, Clone)]
pub struct MuteGroupState {
    pub name: String,
    pub muted: bool,
    pub channels: Vec<Channel>,
}

/// The state of the channels of a Qu-16: sixteen inputs, three stereo
/// inputs, eight mixes (the last of them the main LR), and four mute groups.
#[derive(Debug, Clone)]
pub struct MixerState<F> {
    pub inputs: [ChannelState<F>; 16],
    pub stereo: [ChannelState<F>; 3],
    pub mixes: [ChannelState<F>; 8],
    pub mute_groups: [MuteGroupState; 4],
}

/// The value of a [`ChannelState`].
pub struct ChannelModel<F> {
    pub name: Seq<char>,
    pub fader: F,
    pub muted: bool,
}

/// The value of a [`MuteGroupState`].
pub struct MuteGroupModel {
    pub name: Seq<char>,
    pub muted: bool,
    pub channels: Seq<Channel>,
}

/// The value of a [`MixerState`].
pub struct MixerModel<F> {
    pub inputs: Seq<ChannelModel<F>>,
    pub stereo: Seq<ChannelModel<F>>,
    pub mixes: Seq<ChannelModel<F>>,
    pub mute_groups: Seq<MuteGroupModel>,
}

impl<F> View for ChannelState<F> {
    type V = ChannelModel<F>;

    open spec fn view(&self) -> ChannelModel<F> {
        ChannelModel { name: self.name@, fader: self.fader, muted: self.muted }
    }
}

impl View for MuteGroupState {
    type V = MuteGroupModel;

    open spec fn view(&self) -> MuteGroupModel {
        MuteGroupModel { name: self.name@, muted: self.muted, channels: self.channels@ }
    }
}

impl<F> View for MixerState<F> {
    type V = MixerModel<F>;

    open spec fn view(&self) -> MixerModel<F> {
        MixerModel {
            inputs: self.inputs@.map_values(|c: ChannelState<F>| c@),
            stereo: self.stereo@.map_values(|c: ChannelState<F>| c@),
            mixes: self.mixes@.map_values(|c: ChannelState<F>| c@),
            mute_groups: self.mute_groups@.map_values(|g: MuteGroupState| g@),
        }
    }
}

/// Where the state of channel `c` is kept: inputs 1..=16 (kind 0), stereo
/// inputs 1..=3 (kind 1), mixes 1..=7 and LR (kind 2), with the index in
/// that list; other channels have no channel state.
pub open spec fn slot_of(c: Channel) -> Option<(int, int)> {
    if 0x20 <= c.0 < 0x30 {
        Some((0, c.0 - 0x20))
    } else if 0x40 <= c.0 < 0x43 {
        Some((1, c.0 - 0x40))
    } else if 0x60 <= c.0 < 0x68 {
        Some((2, c.0 - 0x60))
    } else {
        None
    }
}

/// The state of channel `c`, if it has one.
pub open spec fn channel_model<F>(m: MixerModel<F>, c: Channel) -> Option<ChannelModel<F>> {
    match slot_of(c) {
        Some((kind, i)) => if kind == 0 {
            Some(m.inputs[i])
        } else if kind == 1 {
            Some(m.stereo[i])
        } else {
            Some(m.mixes[i])
        },
        None => None,
    }
}

/// `m` with the state of channel `c` replaced by `st` (unchanged when `c`
/// has no channel state).
pub open spec fn with_channel<F>(m: MixerModel<F>, c: Channel, st: ChannelModel<F>) -> MixerModel<F> {
    match slot_of(c) {
        Some((kind, i)) => if kind == 0 {
            MixerModel { inputs: m.inputs.update(i, st), ..m }
        } else if kind == 1 {
            MixerModel { stereo: m.stereo.update(i, st), ..m }
        } else {
            MixerModel { mixes: m.mixes.update(i, st), ..m }
        },
        None => m,
    }
}

/// The index of mute group `c` (mute groups 1..=4), if it is one.
pub open spec fn group_index(c: Channel) -> Option<int> {
    if 0x50 <= c.0 < 0x54 {
        Some(c.0 - 0x50)
    } else {
        None
    }
}

/// The state of mute group `c`, if it is one.
pub open spec fn group_model<F>(m: MixerModel<F>, c: Channel) -> Option<MuteGroupModel> {
    match group_index(c) {
        Some(i) => Some(m.mute_groups[i]),
        None => None,
    }
}

/// `m` with the state of mute group `c` replaced by `g`.
pub open spec fn with_group<F>(m: MixerModel<F>, c: Channel, g: MuteGroupModel) -> MixerModel<F> {
    match group_index(c) {
        Some(i) => MixerModel { mute_groups: m.mute_groups.update(i, g), ..m },
        None => m,
    }
}

/// Whether channel `c` is muted: its own mute, or, for a mute group, the
/// group's.
pub open spec fn muted_model<F>(m: MixerModel<F>, c: Channel) -> Option<bool> {
    match channel_model(m, c) {
        Some(st) => Some(st.muted),
        None => match group_model(m, c) {
            Some(g) => Some(g.muted),
            None => None,
        },
    }
}

/// The channels of a mute group after assigning (`assigned`) or removing
/// channel `c`: an assigned channel is added once, at the end, unless it is
/// there already; a removed channel is taken out wherever it stands.
pub open spec fn assigned_channels(channels: Seq<Channel>, c: Channel, assigned: bool) -> Seq<Channel> {
    if assigned {
        if channels.contains(c) {
            channels
        } else {
            channels.push(c)
        }
    } else {
        channels.filter(except(c))
    }
}

/// The state after writing fader level `value` to `c`.
pub open spec fn fader_written<F>(m: MixerModel<F>, c: Channel, value: F) -> MixerModel<F> {
    match channel_model(m, c) {
        Some(st) => with_channel(m, c, ChannelModel { fader: value, ..st }),
        None => m,
    }
}

/// The state after writing mute `muted` to `c`, a channel or a mute group.
pub open spec fn muted_written<F>(m: MixerModel<F>, c: Channel, muted: bool) -> MixerModel<F> {
    match channel_model(m, c) {
        Some(st) => with_channel(m, c, ChannelModel { muted, ..st }),
        None => match group_model(m, c) {
            Some(g) => with_group(m, c, MuteGroupModel { muted, ..g }),
            None => m,
        },
    }
}

/// The state after assigning `c` to (or removing it from) mute group `group`.
pub open spec fn assignment_written<F>(m: MixerModel<F>, group: Channel, c: Channel, assigned: bool) -> MixerModel<F> {
    match group_model(m, group) {
        Some(g) => with_group(m, group, MuteGroupModel { channels: assigned_channels(g.channels, c, assigned), ..g }),
        None => m,
    }
}

/// The name of input `n` in a new state.
pub open spec fn input_name(n: int) -> Seq<char> {
    "CH"@ + decimal(n as nat)
}

/// The name of stereo input `n` in a new state.
pub open spec fn stereo_name(n: int) -> Seq<char> {
    "ST"@ + decimal(n as nat)
}

/// The name of the `i`-th mix (0-based) in a new state.
pub open spec fn mix_name(i: int) -> Seq<char> {
    if i == 0 {
        "MIX1"@
    } else if i == 1 {
        "MIX2"@
    } else if i == 2 {
        "MIX3"@
    } else if i == 3 {
        "MIX4"@
    } else if i == 4 {
        "MIX5-6"@
    } else if i == 5 {
        "MIX7-8"@
    } else if i == 6 {
        "MIX9-10"@
    } else {
        "LR"@
    }
}

/// The name of mute group `n` in a new state.
pub open spec fn group_name(n: int) -> Seq<char> {
    "MG"@ + decimal(n as nat)
}

/// Whether `m` is the state of a new mixer whose faders are all at `level`.
pub open spec fn is_new_state<F>(m: MixerModel<F>, level: F) -> bool {
    &&& m.inputs.len() == 16
    &&& m.stereo.len() == 3
    &&& m.mixes.len() == 8
    &&& m.mute_groups.len() == 4
    &&& forall|i: int| 0 <= i < 16 ==> #[trigger] m.inputs[i] == (ChannelModel {
        name: input_name(i + 1),
        fader: level,
        muted: false,
    })
    &&& forall|i: int| 0 <= i < 3 ==> #[trigger] m.stereo[i] == (ChannelModel {
        name: stereo_name(i + 1),
        fader: level,
        muted: false,
    })
    &&& forall|i: int| 0 <= i < 8 ==> #[trigger] m.mixes[i] == (ChannelModel {
        name: mix_name(i),
        fader: level,
        muted: false,
    })
    &&& forall|i: int| 0 <= i < 4 ==> #[trigger] m.mute_groups[i] == (MuteGroupModel {
        name: group_name(i + 1),
        muted: false,
        channels: Seq::empty(),
    })
}

fn numbered_name(prefix: &str, n: u8) -> (res: String)
    ensures
        res@ == prefix@ + decimal(n as nat),
{
    let mut s = String::new();
    push_str(&mut s, prefix);
    push_decimal(&mut s, n as u64);
    s
}

impl<F: Copy> ChannelState<F> {
    fn new(name: String, fader: F) -> (res: Self)
        ensures
            res@ == (ChannelModel { name: name@, fader, muted: false }),
    {
        ChannelState { name, fader, muted: false }
    }
}

impl MuteGroupState {
    fn new(name: String) -> (res: Self)
        ensures
            res@ == (MuteGroupModel { name: name@, muted: false, channels: Seq::empty() }),
    {
        MuteGroupState { name, muted: false, channels: Vec::new() }
    }
}

/// Where a channel's state is kept.
enum Slot {
    Input(usize),
    Stereo(usize),
    Mix(usize),
}

fn slot(c: Channel) -> (res: Option<Slot>)
    ensures
        match res {
            Some(Slot::Input(i)) => slot_of(c) == Some((0int, i as int)) && i < 16,
            Some(Slot::Stereo(i)) => slot_of(c) == Some((1int, i as int)) && i < 3,
            Some(Slot::Mix(i)) => slot_of(c) == Some((2int, i as int)) && i < 8,
            None => slot_of(c) is None,
        },
{
    let raw = c.0;
    if 0x20 <= raw && raw < 0x30 {
        Some(Slot::Input((raw - 0x20) as usize))
    } else if 0x40 <= raw && raw < 0x43 {
        Some(Slot::Stereo((raw - 0x40) as usize))
    } else if 0x60 <= raw && raw < 0x68 {
        Some(Slot::Mix((raw - 0x60) as usize))
    } else {
        None
    }
}

fn group_slot(c: Channel) -> (res: Option<usize>)
    ensures
        match res {
            Some(i) => group_index(c) == Some(i as int) && i < 4,
            None => group_index(c) is None,
        },
{
    if 0x50 <= c.0 && c.0 < 0x54 {
        Some((c.0 - 0x50) as usize)
    } else {
        None
    }
}

fn contains_channel(v: &Vec<Channel>, c: Channel) -> (res: bool)
    ensures
        res == v@.contains(c),
{
    let mut i: usize = 0;
    while i < v.len()
        invariant
            i <= v@.len(),
            forall|k: int| 0 <= k < i ==> v@[k] != c,
        decreases v@.len() - i,
    {
        if v[i] == c {
            assert(v@[i as int] == c);
            return true;
        }
        i = i + 1;
    }
    false
}

fn without_channel(v: &Vec<Channel>, c: Channel) -> (res: Vec<Channel>)
    ensures
        res@ == v@.filter(except(c)),
{
    let mut out: Vec<Channel> = Vec::new();
    let mut i: usize = 0;
    while i < v.len()
        invariant
            i <= v@.len(),
            out@ == v@.take(i as int).filter(except(c)),
        decreases v@.len() - i,
    {
        proof {
            reveal_with_fuel(Seq::<Channel>::filter, 1);
            assert(v@.take(i + 1).drop_last() =~= v@.take(i as int));
        }
        if v[i] != c {
            out.push(v[i]);
        }
        i = i + 1;
    }
    assert(v@.take(v@.len() as int) =~= v@);
    out
}

impl<F: Copy> MixerState<F> {
    /// The state of a new mixer: every fader at `level`, nothing muted,
    /// default names (`CH1`.., `ST1`.., `MIX1`.. and `LR`, `MG1`..), and no
    /// mute-group assignments.
    pub fn new(level: F) -> (res: Self)
        ensures
            is_new_state(res@, level),
    {
        let inputs = [
            ChannelState::new(numbered_name("CH", 1), level),
            ChannelState::new(numbered_name("CH", 2), level),
            ChannelState::new(numbered_name("CH", 3), level),
            ChannelState::new(numbered_name("CH", 4), level),
            ChannelState::new(numbered_name("CH", 5), level),
            ChannelState::new(numbered_name("CH", 6), level),
            ChannelState::new(numbered_name("CH", 7), level),
            ChannelState::new(numbered_name("CH", 8), level),
            ChannelState::new(numbered_name("CH", 9), level),
            ChannelState::new(numbered_name("CH", 10), level),
            ChannelState::new(numbered_name("CH", 11), level),
            ChannelState::new(numbered_name("CH", 12), level),
            ChannelState::new(numbered_name("CH", 13), level),
            ChannelState::new(numbered_name("CH", 14), level),
            ChannelState::new(numbered_name("CH", 15), level),
            ChannelState::new(numbered_name("CH", 16), level),
        ];
        let stereo = [
            ChannelState::new(numbered_name("ST", 1), level),
            ChannelState::new(numbered_name("ST", 2), level),
            ChannelState::new(numbered_name("ST", 3), level),
        ];
        let mixes = [
            ChannelState::new(String::from_str("MIX1"), level),
            ChannelState::new(String::from_str("MIX2"), level),
            ChannelState::new(String::from_str("MIX3"), level),
            ChannelState::new(String::from_str("MIX4"), level),
            ChannelState::new(String::from_str("MIX5-6"), level),
            ChannelState::new(String::from_str("MIX7-8"), level),
            ChannelState::new(String::from_str("MIX9-10"), level),
            ChannelState::new(String::from_str("LR"), level),
        ];
        let mute_groups = [
            MuteGroupState::new(numbered_name("MG", 1)),
            MuteGroupState::new(numbered_name("MG", 2)),
            MuteGroupState::new(numbered_name("MG", 3)),
            MuteGroupState::new(numbered_name("MG", 4)),
        ];
        let res = MixerState { inputs, stereo, mixes, mute_groups };
        res
    }

    /// The fader level of `channel`, if the channel has a state.
    pub fn fader(&self, channel: Channel) -> (res: Option<F>)
        ensures
            res == (match channel_model(self@, channel) {
                Some(st) => Some(st.fader),
                None => None,
            }),
    {
        match slot(channel) {
            Some(Slot::Input(i)) => Some(self.inputs[i].fader),
            Some(Slot::Stereo(i)) => Some(self.stereo[i].fader),
            Some(Slot::Mix(i)) => Some(self.mixes[i].fader),
            None => None,
        }
    }

    /// Sets the fader level of `channel`; false, with nothing changed, when
    /// the channel has no state.
    pub fn set_fader(&mut self, channel: Channel, value: F) -> (res: bool)
        ensures
            res == channel_model(old(self)@, channel) is Some,
            final(self)@ == fader_written(old(self)@, channel, value),
    {
        match slot(channel) {
            Some(Slot::Input(i)) => {
                self.inputs[i].fader = value;
                assert(self@.inputs =~= old(self)@.inputs.update(i as int, ChannelModel { fader: value, ..old(self)@.inputs[i as int] }));
                true
            },
            Some(Slot::Stereo(i)) => {
                self.stereo[i].fader = value;
                assert(self@.stereo =~= old(self)@.stereo.update(i as int, ChannelModel { fader: value, ..old(self)@.stereo[i as int] }));
                true
            },
            Some(Slot::Mix(i)) => {
                self.mixes[i].fader = value;
                assert(self@.mixes =~= old(self)@.mixes.update(i as int, ChannelModel { fader: value, ..old(self)@.mixes[i as int] }));
                true
            },
            None => false,
        }
    }

    /// Whether `channel` is muted: its own mute, or a mute group's.
    pub fn muted(&self, channel: Channel) -> (res: Option<bool>)
        ensures
            res == muted_model(self@, channel),
    {
        match slot(channel) {
            Some(Slot::Input(i)) => return Some(self.inputs[i].muted),
            Some(Slot::Stereo(i)) => return Some(self.stereo[i].muted),
            Some(Slot::Mix(i)) => return Some(self.mixes[i].muted),
            None => {},
        }
        match group_slot(channel) {
            Some(i) => Some(self.mute_groups[i].muted),
            None => None,
        }
    }

    /// Sets the mute of `channel`, a channel or a mute group; false, with
    /// nothing changed, when it is neither.
    pub fn set_muted(&mut self, channel: Channel, muted: bool) -> (res: bool)
        ensures
            res == (channel_model(old(self)@, channel) is Some || group_model(old(self)@, channel) is Some),
            final(self)@ == muted_written(old(self)@, channel, muted),
            res ==> muted_model(final(self)@, channel) == Some(muted),
    {
        match slot(channel) {
            Some(Slot::Input(i)) => {
                self.inputs[i].muted = muted;
                assert(self@.inputs =~= old(self)@.inputs.update(i as int, ChannelModel { muted, ..old(self)@.inputs[i as int] }));
                return true;
            },
            Some(Slot::Stereo(i)) => {
                self.stereo[i].muted = muted;
                assert(self@.stereo =~= old(self)@.stereo.update(i as int, ChannelModel { muted, ..old(self)@.stereo[i as int] }));
                return true;
            },
            Some(Slot::Mix(i)) => {
                self.mixes[i].muted = muted;
                assert(self@.mixes =~= old(self)@.mixes.update(i as int, ChannelModel { muted, ..old(self)@.mixes[i as int] }));
                return true;
            },
            None => {},
        }
        match group_slot(channel) {
            Some(i) => {
                self.mute_groups[i].muted = muted;
                assert(self@.mute_groups =~= old(self)@.mute_groups.update(i as int, MuteGroupModel { muted, ..old(self)@.mute_groups[i as int] }));
                true
            },
            None => false,
        }
    }

    /// The name of `channel`, if the channel has a state.
    pub fn name(&self, channel: Channel) -> (res: Option<String>)
        ensures
            match res {
                Some(name) => channel_model(self@, channel) matches Some(st) && name@ == st.name,
                None => channel_model(self@, channel) is None,
            },
    {
        match slot(channel) {
            Some(Slot::Input(i)) => Some(self.inputs[i].name.clone()),
            Some(Slot::Stereo(i)) => Some(self.stereo[i].name.clone()),
            Some(Slot::Mix(i)) => Some(self.mixes[i].name.clone()),
            None => None,
        }
    }

    /// Sets the name of `channel`; false, with nothing changed, when the
    /// channel has no state.
    pub fn set_name(&mut self, channel: Channel, value: String) -> (res: bool)
        ensures
            res == channel_model(old(self)@, channel) is Some,
            final(self)@ == (match channel_model(old(self)@, channel) {
                Some(st) => with_channel(old(self)@, channel, ChannelModel { name: value@, ..st }),
                None => old(self)@,
            }),
    {
        match slot(channel) {
            Some(Slot::Input(i)) => {
                self.inputs[i].name = value;
                assert(self@.inputs =~= old(self)@.inputs.update(i as int, ChannelModel { name: value@, ..old(self)@.inputs[i as int] }));
                true
            },
            Some(Slot::Stereo(i)) => {
                self.stereo[i].name = value;
                assert(self@.stereo =~= old(self)@.stereo.update(i as int, ChannelModel { name: value@, ..old(self)@.stereo[i as int] }));
                true
            },
            Some(Slot::Mix(i)) => {
                self.mixes[i].name = value;
                assert(self@.mixes =~= old(self)@.mixes.update(i as int, ChannelModel { name: value@, ..old(self)@.mixes[i as int] }));
                true
            },
            None => false,
        }
    }

    /// The state of mute group `channel`, if it is one.
    pub fn mute_group(&self, channel: Channel) -> (res: Option<&MuteGroupState>)
        ensures
            match res {
                Some(g) => group_model(self@, channel) == Some(g@),
                None => group_model(self@, channel) is None,
            },
    {
        match group_slot(channel) {
            Some(i) => Some(&self.mute_groups[i]),
            None => None,
        }
    }

    /// The state of mute group `channel`, to change in place, if it is one.
    pub fn mute_group_mut(&mut self, channel: Channel) -> (res: Option<&mut MuteGroupState>)
        ensures
            match res {
                Some(g) => {
                    &&& group_model(old(self)@, channel) == Some(g@)
                    &&& final(self)@.mute_groups =~= with_group(old(self)@, channel, final(g)@).mute_groups
                    &&& final(self)@ == with_group(old(self)@, channel, final(g)@)
                },
                None => {
                    &&& group_model(old(self)@, channel) is None
                    &&& final(self)@ == old(self)@
                },
            },
    {
        match group_slot(channel) {
            Some(i) => Some(&mut self.mute_groups[i]),
            None => None,
        }
    }

    /// Whether mute group `channel` is muted, if it is one.
    pub fn mute_group_muted(&self, channel: Channel) -> (res: Option<bool>)
        ensures
            res == (match group_model(self@, channel) {
                Some(g) => Some(g.muted),
                None => None,
            }),
    {
        match group_slot(channel) {
            Some(i) => Some(self.mute_groups[i].muted),
            None => None,
        }
    }

    /// Sets the mute of mute group `channel`; false, with nothing changed,
    /// when it is not one.
    pub fn set_mute_group_muted(&mut self, channel: Channel, muted: bool) -> (res: bool)
        ensures
            res == group_model(old(self)@, channel) is Some,
            final(self)@ == (match group_model(old(self)@, channel) {
                Some(g) => with_group(old(self)@, channel, MuteGroupModel { muted, ..g }),
                None => old(self)@,
            }),
    {
        match group_slot(channel) {
            Some(i) => {
                self.mute_groups[i].muted = muted;
                assert(self@.mute_groups =~= old(self)@.mute_groups.update(i as int, MuteGroupModel { muted, ..old(self)@.mute_groups[i as int] }));
                true
            },
            None => false,
        }
    }

    /// The channels assigned to mute group `channel`, if it is one.
    pub fn mute_group_assignments(&self, channel: Channel) -> (res: Option<&[Channel]>)
        ensures
            match res {
                Some(c) => group_model(self@, channel) matches Some(g) && c@ == g.channels,
                None => group_model(self@, channel) is None,
            },
    {
        match group_slot(channel) {
            Some(i) => Some(self.mute_groups[i].channels.as_slice()),
            None => None,
        }
    }

    /// Assigns `channel` to mute group `group` (or removes it when
    /// `assigned` is false); false, with nothing changed, when `group` is
    /// not a mute group.
    pub fn set_mute_group_assignment(&mut self, group: Channel, channel: Channel, assigned: bool) -> (res: bool)
        ensures
            res == group_model(old(self)@, group) is Some,
            final(self)@ == assignment_written(old(self)@, group, channel, assigned),
    {
        match group_slot(group) {
            Some(i) => {
                let ghost g = old(self)@.mute_groups[i as int];
                let ghost target = MuteGroupModel {
                    channels: assigned_channels(g.channels, channel, assigned),
                    ..g
                };
                assert(g.channels == old(self).mute_groups@[i as int].channels@);
                if assigned {
                    if !contains_channel(&self.mute_groups[i].channels, channel) {
                        self.mute_groups[i].channels.push(channel);
                        assert(self.mute_groups@[i as int].channels@ == g.channels.push(channel));
                    } else {
                        assert(self.mute_groups@[i as int].channels@ == g.channels);
                    }
                } else {
                    let channels = without_channel(&self.mute_groups[i].channels, channel);
                    self.mute_groups[i].channels = channels;
                    assert(self.mute_groups@[i as int].channels@ == g.channels.filter(except(channel)));
                }
                assert(self.mute_groups@[i as int]@.channels =~= target.channels);
                assert(self.mute_groups@[i as int]@ == target);
                assert(self@.mute_groups =~= old(self)@.mute_groups.update(
                    i as int,
                    MuteGroupModel {
                        channels: assigned_channels(old(self)@.mute_groups[i as int].channels, channel, assigned),
                        ..old(self)@.mute_groups[i as int]
                    },
                ));
                true
            },
            None => false,
        }
    }
}

/// A new mixer whose faders all stand at the default level of `F` (0 dB
/// for a dB level).
impl<F: Copy + Default> Default for MixerState<F> {
    fn default() -> (res: Self)
        ensures
            is_new_state(res@, res@.inputs[0].fader),
            call_ensures(F::default, (), res@.inputs[0].fader),
    {
        let level = F::default();
        MixerState::new(level)
    }
}

} // verus!
