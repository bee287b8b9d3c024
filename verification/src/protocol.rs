//! Qu MIDI protocol constants and message encoders.
//!
//! Protocol constants, and functions that build valid Qu MIDI, NRPN and
//! SysEx messages from typed protocol values.

use vstd::prelude::*;
use crate::channels::{Channel, SendDestination, index_of};
use crate::parameters::{Parameter, parameter_id};

verus! {

// -------------------------------------------------------------------------
// Discovery protocol
// -------------------------------------------------------------------------

/// UDP port of the QuYou discovery protocol.
pub const DISCOVERY_PORT: u16 = 51320;

/// The discovery request, `QU Find`.
pub const DISCOVERY_MESSAGE: [u8; 7] = [0x51, 0x55, 0x20, 0x46, 0x69, 0x6e, 0x64];

// -------------------------------------------------------------------------
// MIDI protocol
// -------------------------------------------------------------------------

/// Protocol version bytes of the SysEx header.
pub const PROTOCOL_VERSION: [u8; 2] = [0x11, 0x01];

/// TCP port of the mixer's MIDI connection.
pub const TCP_PORT: u16 = 51325;

/// The MIDI Active Sense byte.
pub const ACTIVE_SENSE: u8 = 0xfe;

/// Allen & Heath manufacturer ID.
pub const MANUFACTURER_ID: [u8; 3] = [0x00, 0x00, 0x1a];
/// Qu product ID.
pub const QU_PRODUCT_ID: u8 = 0x50;
/// Box ID of a Qu-16.
pub const QU16_BOX_ID: u8 = 0x01;

/// MIDI controller used for the NRPN parameter MSB.
pub const CC_NRPN_MSB: u8 = 0x63;
/// MIDI controller used for the NRPN parameter LSB.
pub const CC_NRPN_LSB: u8 = 0x62;
/// MIDI controller used for the NRPN value MSB.
pub const CC_DATA_ENTRY_MSB: u8 = 0x06;
/// MIDI controller used for the NRPN value LSB.
pub const CC_DATA_ENTRY_LSB: u8 = 0x26;

/// SysEx all-call channel.
pub const SYSEX_ALL_CALL: u8 = 0x7f;
/// SysEx command: Get System State.
pub const SYSEX_GET_SYSTEM_STATE: u8 = 0x10;
/// SysEx command: Meter stream control.
pub const SYSEX_METER_CONTROL: u8 = 0x12;
/// SysEx command: Meter data.
pub const SYSEX_METER_DATA: u8 = 0x13;
/// SysEx command: End Sync.
pub const SYSEX_END_SYNC: u8 = 0x14;
/// SysEx command: Get Channel Name.
pub const SYSEX_GET_CHANNEL_NAME: u8 = 0x01;
/// SysEx command: Channel Name response.
pub const SYSEX_CHANNEL_NAME: u8 = 0x02;
/// SysEx command: Set Channel Name.
pub const SYSEX_SET_CHANNEL_NAME: u8 = 0x03;

/// Standard Qu SysEx header. Its final byte is the MIDI channel.
pub const SYSEX_HEADER: [u8; 8] = [0xf0, 0x00, 0x00, 0x1a, 0x50, 0x11, 0x01, 0x00];

/// The End Sync message.
pub const END_SYNC: [u8; 11] = [0xf0, 0x00, 0x00, 0x1a, 0x50, 0x11, 0x01, 0x00, 0x00, 0x14, 0xf7];

/// The bytes of the standard SysEx header.
pub open spec fn sysex_header() -> Seq<u8> {
    seq![0xf0u8, 0x00, 0x00, 0x1a, 0x50, 0x11, 0x01, 0x00]
}

/// A Control Change status byte for MIDI channel `c` (low four bits).
pub open spec fn cc_status(c: u8) -> u8 {
    (0xb0 + c % 16) as u8
}

/// The twelve bytes of a Qu NRPN message: `Bn 63 CH`, `Bn 62 ID`,
/// `Bn 06 VA`, `Bn 26 VX`, every data byte restricted to 7 bits.
pub open spec fn nrpn_bytes(midi_channel: u8, channel: u8, id: u8, value: u8, index: u8) -> Seq<u8> {
    let s = cc_status(midi_channel);
    seq![
        s, 0x63u8, (channel % 128) as u8,
        s, 0x62u8, (id % 128) as u8,
        s, 0x06u8, (value % 128) as u8,
        s, 0x26u8, (index % 128) as u8,
    ]
}

/// The bytes of a mute message for channel identifier `note`.
pub open spec fn mute_bytes(note: u8, muted: bool) -> Seq<u8> {
    seq![0x90u8, note, if muted { 0x7fu8 } else { 0x3fu8 }, 0x90u8, note, 0x00u8]
}

/// Appends `bytes` to `v`.
pub(crate) fn append_bytes(v: &mut Vec<u8>, bytes: &[u8])
    ensures
        final(v)@ == old(v)@ + bytes@,
{
    let mut i: usize = 0;
    while i < bytes.len()
        invariant
            i <= bytes@.len(),
            v@ == old(v)@ + bytes@.subrange(0, i as int),
        decreases bytes@.len() - i,
    {
        v.push(bytes[i]);
        i = i + 1;
        assert(v@ =~= old(v)@ + bytes@.subrange(0, i as int));
    }
    assert(bytes@.subrange(0, bytes@.len() as int) =~= bytes@);
}

/// Whether `a` and `b` hold the same bytes.
pub(crate) fn bytes_equal(a: &[u8], b: &[u8]) -> (res: bool)
    ensures
        res == (a@ == b@),
{
    if a.len() != b.len() {
        return false;
    }
    let mut i: usize = 0;
    while i < a.len()
        invariant
            a@.len() == b@.len(),
            i <= a@.len(),
            forall|k: int| 0 <= k < i ==> a@[k] == b@[k],
        decreases a@.len() - i,
    {
        if a[i] != b[i] {
            return false;
        }
        i = i + 1;
    }
    assert(a@ =~= b@);
    true
}

/// The standard SysEx header followed by `body`.
pub fn sysex(body: &[u8]) -> (res: Vec<u8>)
    ensures
        res@ == sysex_header() + body@,
{
    let mut message = Vec::new();
    append_bytes(&mut message, &SYSEX_HEADER);
    assert(SYSEX_HEADER@ =~= sysex_header());
    append_bytes(&mut message, body);
    message
}

/// The Get System State request of a normal MIDI connection.
pub fn get_system_state() -> (res: Vec<u8>)
    ensures
        res@ == sysex_header() + seq![0x7fu8, 0x10, 0x00, 0xf7],
{
    let body = [SYSEX_ALL_CALL, SYSEX_GET_SYSTEM_STATE, 0x00, 0xf7];
    let res = sysex(&body);
    assert(body@ =~= seq![0x7fu8, 0x10, 0x00, 0xf7]);
    res
}

/// The End Sync message.
pub fn end_sync() -> (res: Vec<u8>)
    ensures
        res@ == sysex_header() + seq![0x00u8, 0x14, 0xf7],
        res@ == END_SYNC@,
{
    let body = [0x00, SYSEX_END_SYNC, 0xf7];
    let res = sysex(&body);
    assert(body@ =~= seq![0x00u8, 0x14, 0xf7]);
    assert(res@ =~= END_SYNC@);
    res
}

/// A Get System State request; the iPad flag is `1` when `ipad` holds.
pub fn get_system_state_with_ipad(ipad: bool) -> (res: Vec<u8>)
    ensures
        res@ == sysex_header() + seq![0x7fu8, 0x10, if ipad { 0x01u8 } else { 0x00u8 }, 0xf7],
{
    let flag: u8 = if ipad { 1 } else { 0 };
    let body = [SYSEX_ALL_CALL, SYSEX_GET_SYSTEM_STATE, flag, 0xf7];
    let res = sysex(&body);
    assert(body@ =~= seq![0x7fu8, 0x10, flag, 0xf7]);
    res
}

/// A System State response: channel in four bits, and box ID and firmware
/// version in seven bits each.
pub fn system_state_response(channel: u8, box_id: u8, firmware_major: u8, firmware_minor: u8) -> (res: Vec<u8>)
    ensures
        res@ == sysex_header() + seq![
            (channel % 16) as u8,
            0x11u8,
            (box_id % 128) as u8,
            (firmware_major % 128) as u8,
            (firmware_minor % 128) as u8,
            0xf7u8,
        ],
{
    assert(channel & 0x0f == channel % 16) by (bit_vector);
    assert(box_id & 0x7f == box_id % 128) by (bit_vector);
    assert(firmware_major & 0x7f == firmware_major % 128) by (bit_vector);
    assert(firmware_minor & 0x7f == firmware_minor % 128) by (bit_vector);
    let bytes = [
        0xf0,
        MANUFACTURER_ID[0],
        MANUFACTURER_ID[1],
        MANUFACTURER_ID[2],
        QU_PRODUCT_ID,
        PROTOCOL_VERSION[0],
        PROTOCOL_VERSION[1],
        0x00,
        channel & 0x0f,
        0x11,
        box_id & 0x7f,
        firmware_major & 0x7f,
        firmware_minor & 0x7f,
        0xf7,
    ];
    let mut message = Vec::new();
    append_bytes(&mut message, &bytes);
    assert(message@ =~= sysex_header() + seq![
        (channel % 16) as u8,
        0x11u8,
        (box_id % 128) as u8,
        (firmware_major % 128) as u8,
        (firmware_minor % 128) as u8,
        0xf7u8,
    ]);
    message
}

/// A Get Channel Name request.
pub fn get_channel_name(channel: Channel) -> (res: Vec<u8>)
    ensures
        res@ == sysex_header() + seq![0x00u8, 0x01, (channel.0 % 128) as u8, 0xf7],
{
    let raw = channel.raw();
    assert(raw & 0x7f == raw % 128) by (bit_vector);
    let body = [0x00, SYSEX_GET_CHANNEL_NAME, raw & 0x7f, 0xf7];
    let res = sysex(&body);
    assert(body@ =~= seq![0x00u8, 0x01, (channel.0 % 128) as u8, 0xf7]);
    res
}

/// A channel-name SysEx with command `command` (response or set).
fn name_message(command: u8, channel: Channel, name: &[u8]) -> (res: Vec<u8>)
    ensures
        res@ == sysex_header() + seq![0x00u8, command, (channel.0 % 128) as u8] + name@ + seq![0xf7u8],
{
    let raw = channel.raw();
    assert(raw & 0x7f == raw % 128) by (bit_vector);
    let body = [0x00, command, raw & 0x7f];
    let mut message = sysex(&body);
    append_bytes(&mut message, name);
    message.push(0xf7);
    assert(body@ =~= seq![0x00u8, command, (channel.0 % 128) as u8]);
    assert(message@ =~= sysex_header() + seq![0x00u8, command, (channel.0 % 128) as u8] + name@ + seq![0xf7u8]);
    message
}

/// A Channel Name response carrying `name`.
pub fn channel_name(channel: Channel, name: &[u8]) -> (res: Vec<u8>)
    ensures
        res@ == sysex_header() + seq![0x00u8, 0x02, (channel.0 % 128) as u8] + name@ + seq![0xf7u8],
{
    name_message(SYSEX_CHANNEL_NAME, channel, name)
}

/// A Set Channel Name request carrying `name`.
pub fn set_channel_name(channel: Channel, name: &[u8]) -> (res: Vec<u8>)
    ensures
        res@ == sysex_header() + seq![0x00u8, 0x03, (channel.0 % 128) as u8] + name@ + seq![0xf7u8],
{
    name_message(SYSEX_SET_CHANNEL_NAME, channel, name)
}

/// A MIDI Control Change message, every field masked to its width.
pub fn encode_cc(channel: u8, controller: u8, value: u8) -> (res: [u8; 3])
    ensures
        res@ == seq![cc_status(channel), (controller % 128) as u8, (value % 128) as u8],
{
    assert(0xb0 | (channel & 0x0f) == 0xb0 + channel % 16) by (bit_vector);
    assert(controller & 0x7f == controller % 128) by (bit_vector);
    assert(value & 0x7f == value % 128) by (bit_vector);
    let res = [0xb0 | (channel & 0x0f), controller & 0x7f, value & 0x7f];
    assert(res@ =~= seq![cc_status(channel), (controller % 128) as u8, (value % 128) as u8]);
    res
}

/// A Qu NRPN message (`Bn 63 CH`, `Bn 62 ID`, `Bn 06 VA`, `Bn 26 VX`).
pub fn encode_nrpn(midi_channel: u8, channel: Channel, parameter: Parameter, value: u8, index: u8) -> (res: [u8; 12])
    ensures
        res@ == nrpn_bytes(midi_channel, channel.0, parameter_id(parameter), value, index),
{
    let raw = channel.raw();
    let id = parameter.id();
    assert(0xb0 | (midi_channel & 0x0f) == 0xb0 + midi_channel % 16) by (bit_vector);
    assert(raw & 0x7f == raw % 128) by (bit_vector);
    assert(id & 0x7f == id % 128) by (bit_vector);
    assert(value & 0x7f == value % 128) by (bit_vector);
    assert(index & 0x7f == index % 128) by (bit_vector);
    let s = 0xb0 | (midi_channel & 0x0f);
    let res = [
        s, CC_NRPN_MSB, raw & 0x7f,
        s, CC_NRPN_LSB, id & 0x7f,
        s, CC_DATA_ENTRY_MSB, value & 0x7f,
        s, CC_DATA_ENTRY_LSB, index & 0x7f,
    ];
    assert(res@ =~= nrpn_bytes(midi_channel, channel.0, parameter_id(parameter), value, index));
    res
}

/// A fader level for `channel`.
pub fn fader(channel: Channel, value: u8) -> (res: [u8; 12])
    ensures
        res@ == nrpn_bytes(0, channel.0, 0x17, value, 0),
{
    encode_nrpn(0, channel, Parameter::Fader, value, 0)
}

/// A send level from `channel` to `destination`.
pub fn send_level(channel: Channel, destination: SendDestination, value: u8) -> (res: [u8; 12])
    ensures
        res@ == nrpn_bytes(0, channel.0, 0x20, value, index_of(destination)),
{
    encode_nrpn(0, channel, Parameter::SendLevel, value, destination.index())
}

/// A pan position of `channel` towards `destination`.
pub fn pan(channel: Channel, destination: SendDestination, value: u8) -> (res: [u8; 12])
    ensures
        res@ == nrpn_bytes(0, channel.0, 0x16, value, index_of(destination)),
{
    encode_nrpn(0, channel, Parameter::Pan, value, destination.index())
}

/// Any Qu parameter on MIDI channel 1.
pub fn parameter(channel: Channel, param: Parameter, value: u8, index: u8) -> (res: [u8; 12])
    ensures
        res@ == nrpn_bytes(0, channel.0, parameter_id(param), value, index),
{
    encode_nrpn(0, channel, param, value, index)
}

/// A mute message: a Note On with velocity `7F` (on) or `3F` (off),
/// followed by a Note On with velocity zero.
pub fn mute(channel: Channel, muted: bool) -> (res: [u8; 6])
    ensures
        res@ == mute_bytes(channel.0, muted),
{
    let velocity: u8 = if muted { 0x7f } else { 0x3f };
    let note = channel.raw();
    let res = [0x90, note, velocity, 0x90, note, 0x00];
    assert(res@ =~= mute_bytes(channel.0, muted));
    res
}

/// The Note Off that follows a mute message.
pub fn mute_note_off(channel: Channel) -> (res: [u8; 3])
    ensures
        res@ == seq![0x80u8, (channel.0 % 128) as u8, 0x00u8],
{
    let raw = channel.raw();
    assert(raw & 0x7f == raw % 128) by (bit_vector);
    let res = [0x80, raw & 0x7f, 0x00];
    assert(res@ =~= seq![0x80u8, (channel.0 % 128) as u8, 0x00u8]);
    res
}

/// A mute-group assignment of `channel` to mute group `group` (numbered by
/// the low two bits of its identifier); bit `0x40` of the value is set when
/// `assigned` holds.
pub fn mute_group_assignment(channel: Channel, group: Channel, assigned: bool) -> (res: [u8; 12])
    ensures
        res@ == nrpn_bytes(
            0,
            channel.0,
            0x5c,
            if assigned { (0x40 + group.0 % 4) as u8 } else { (group.0 % 4) as u8 },
            0x07,
        ),
{
    let g = group.raw();
    assert(g & 0x03 == g % 4) by (bit_vector);
    assert(g & 0x03 < 4) by (bit_vector);
    let group_number = g & 0x03;
    assert(0x40 | group_number == 0x40 + group_number) by (bit_vector)
        requires group_number < 4;
    let value = if assigned { 0x40 | group_number } else { group_number };
    encode_nrpn(0, channel, Parameter::MuteGroupAssignment, value, 0x07)
}

/// A Program Change message.
pub fn program_change(channel: u8, program: u8) -> (res: [u8; 2])
    ensures
        res@ == seq![(0xc0 + channel % 16) as u8, (program % 128) as u8],
{
    assert(0xc0 | (channel & 0x0f) == 0xc0 + channel % 16) by (bit_vector);
    assert(program & 0x7f == program % 128) by (bit_vector);
    let res = [0xc0 | (channel & 0x0f), program & 0x7f];
    assert(res@ =~= seq![(0xc0 + channel % 16) as u8, (program % 128) as u8]);
    res
}

/// Bank Select (bank 1) and Program Change for scene `scene` (0..=99 for
/// scenes 1..=100): `B0 00 00`, `B0 20 00`, `C0 SS`.
pub fn scene_recall(scene: u8) -> (res: [u8; 8])
    ensures
        res@ == seq![0xb0u8, 0x00, 0x00, 0xb0, 0x20, 0x00, 0xc0, (scene % 128) as u8],
{
    assert(scene & 0x7f == scene % 128) by (bit_vector);
    let res = [0xb0, 0x00, 0x00, 0xb0, 0x20, 0x00, 0xc0, scene & 0x7f];
    assert(res@ =~= seq![0xb0u8, 0x00, 0x00, 0xb0, 0x20, 0x00, 0xc0, (scene % 128) as u8]);
    res
}

} // verus!
