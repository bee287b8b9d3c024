//! The logic of an emulated Qu-16: finding SysEx messages in the received
//! byte stream, meter stream control, the meter data it sends, and the
//! messages of its system state.

use vstd::prelude::*;
use vstd::slice::{slice_subrange, slice_to_vec};
use vstd::utf8::encode_utf8;
use crate::channels::Channel;
use crate::meters::{Meter, group_mask, is_meter_data, level_of, meter_position, meters_of, unpack, unpack_group};
use crate::messages::EventModel;
use crate::parser::{ParserModel, run, sysex_event};
use crate::parser_laws::{sysex_body, sysex_is_framed};
use crate::protocol::{
    QU16_BOX_ID, SYSEX_HEADER, SYSEX_METER_CONTROL, SYSEX_METER_DATA, append_bytes, bytes_equal, channel_name,
    end_sync, get_system_state, mute_bytes, mute_group_assignment, nrpn_bytes,
    sysex_header, system_state_response,
};
use crate::qu_from_state::{fader, is_fader_message, mute, state_channel, state_channel_exec};
use crate::state::{ChannelModel, MixerModel, MixerState, channel_model};
use crate::state_laws::well_formed;

verus! {

// -------------------------------------------------------------------------
// SysEx framing
// -------------------------------------------------------------------------

/// Whether `i` is the first position of byte `b` in `s`.
pub open spec fn is_first_of(s: Seq<u8>, b: u8, i: int) -> bool {
    &&& 0 <= i < s.len()
    &&& s[i] == b
    &&& forall|j: int| 0 <= j < i ==> #[trigger] s[j] != b
}

/// The first position of byte `b` in `s`, if it occurs.
pub open spec fn first_index(s: Seq<u8>, b: u8) -> Option<int> {
    if exists|i: int| is_first_of(s, b, i) {
        Some(choose|i: int| is_first_of(s, b, i))
    } else {
        None
    }
}

proof fn first_index_at(s: Seq<u8>, b: u8, i: int)
    requires
        is_first_of(s, b, i),
    ensures
        first_index(s, b) == Some(i),
{
    let k = choose|k: int| is_first_of(s, b, k);
    if k < i {
        assert(s[k] != b);
    } else if i < k {
        assert(s[i] != b);
    }
}

proof fn first_index_absent(s: Seq<u8>, b: u8)
    requires
        forall|j: int| 0 <= j < s.len() ==> #[trigger] s[j] != b,
    ensures
        first_index(s, b) is None,
{
    if exists|i: int| is_first_of(s, b, i) {
        let k = choose|k: int| is_first_of(s, b, k);
        assert(s[k] != b);
    }
}

/// The position of the first byte `b` in `s`.
fn find_byte(s: &[u8], b: u8) -> (res: Option<usize>)
    ensures
        match res {
            Some(i) => i < s@.len() && first_index(s@, b) == Some(i as int),
            None => first_index(s@, b) is None,
        },
{
    let mut i: usize = 0;
    while i < s.len()
        invariant
            i <= s@.len(),
            forall|j: int| 0 <= j < i ==> #[trigger] s@[j] != b,
        decreases s@.len() - i,
    {
        if s[i] == b {
            proof {
                first_index_at(s@, b, i as int);
            }
            return Some(i);
        }
        i = i + 1;
    }
    proof {
        first_index_absent(s@, b);
    }
    None
}

/// What taking the next SysEx message from buffered bytes `s` gives: the
/// message from the first `F0` to the first `F7` after it, and the bytes
/// that remain. Bytes before the first `F0` are dropped, also when no
/// complete message follows; with no `F0` at all the bytes stay.
pub open spec fn take_sysex(s: Seq<u8>) -> (Option<Seq<u8>>, Seq<u8>) {
    match first_index(s, 0xf0) {
        None => (None, s),
        Some(start) => {
            let rest = s.skip(start);
            match first_index(rest, 0xf7) {
                None => (None, rest),
                Some(end) => (Some(rest.take(end + 1)), rest.skip(end + 1)),
            }
        },
    }
}

/// Takes the next complete SysEx message out of `buffer`.
pub fn next_sysex(buffer: &mut Vec<u8>) -> (res: Option<Vec<u8>>)
    ensures
        match res {
            Some(message) => take_sysex(old(buffer)@) == (Some(message@), final(buffer)@),
            None => take_sysex(old(buffer)@) == (None::<Seq<u8>>, final(buffer)@),
        },
{
    let start = match find_byte(buffer.as_slice(), 0xf0) {
        Some(start) => start,
        None => return None,
    };
    if start > 0 {
        let rest = slice_to_vec(slice_subrange(buffer.as_slice(), start, buffer.len()));
        *buffer = rest;
    }
    assert(buffer@ =~= old(buffer)@.skip(start as int));
    let end = match find_byte(buffer.as_slice(), 0xf7) {
        Some(end) => end,
        None => return None,
    };
    let n = buffer.len();
    let message = slice_to_vec(slice_subrange(buffer.as_slice(), 0, end + 1));
    let remaining = slice_to_vec(slice_subrange(buffer.as_slice(), end + 1, n));
    assert(message@ =~= old(buffer)@.skip(start as int).take(end + 1));
    assert(remaining@ =~= old(buffer)@.skip(start as int).skip(end + 1));
    *buffer = remaining;
    Some(message)
}

/// Taking a SysEx message loses nothing from the first `F0` on: the
/// message (when there is one) and the bytes that remain make up the end
/// of the buffer, and what is dropped before them holds no `F0`. A message
/// taken starts with `F0` and ends at the first `F7` after it.
pub proof fn taken_sysex_is_framed(s: Seq<u8>)
    ensures
        ({
            let (msg, rest) = take_sysex(s);
            let kept = match msg {
                Some(m) => m + rest,
                None => rest,
            };
            &&& kept.len() <= s.len()
            &&& s.skip(s.len() - kept.len()) == kept
            &&& forall|j: int| 0 <= j < s.len() - kept.len() ==> #[trigger] s[j] != 0xf0
            &&& msg matches Some(m) ==> {
                &&& m.len() >= 2
                &&& m[0] == 0xf0
                &&& m.last() == 0xf7
                &&& forall|j: int| 0 <= j < m.len() - 1 ==> #[trigger] m[j] != 0xf7
            }
        }),
{
    match first_index(s, 0xf0) {
        None => {
            assert(s.skip(0) =~= s);
        },
        Some(start) => {
            let rest = s.skip(start);
            assert(is_first_of(s, 0xf0, start));
            match first_index(rest, 0xf7) {
                None => {},
                Some(end) => {
                    assert(is_first_of(rest, 0xf7, end));
                    assert(rest.take(end + 1) + rest.skip(end + 1) =~= rest);
                    assert(rest[0] == 0xf0);
                    assert(end > 0);
                },
            }
        },
    }
}

/// What a meter control message `F0 00 00 1A 50 11 01 00 .. 12 0v F7`
/// asks for: `Some(true)` to start the meter stream (`v` = 1),
/// `Some(false)` to stop it (`v` = 0); none for any other message.
pub open spec fn meter_control(m: Seq<u8>) -> Option<bool> {
    if m.len() == 12 && m.take(8) == sysex_header() && m[9] == 0x12 && m[11] == 0xf7 {
        if m[10] == 0 {
            Some(false)
        } else if m[10] == 1 {
            Some(true)
        } else {
            None
        }
    } else {
        None
    }
}

/// Reads a meter control message.
pub fn handle_meter_control(message: &[u8]) -> (res: Option<bool>)
    ensures
        res == meter_control(message@),
{
    if message.len() != 12 {
        return None;
    }
    if !bytes_equal(slice_subrange(message, 0, 8), &SYSEX_HEADER) {
        assert(message@.subrange(0, 8) == message@.take(8));
        return None;
    }
    assert(message@.subrange(0, 8) == message@.take(8));
    if message[9] != SYSEX_METER_CONTROL {
        return None;
    }
    if message[11] != 0xf7 {
        return None;
    }
    if message[10] == 0 {
        Some(false)
    } else if message[10] == 1 {
        Some(true)
    } else {
        None
    }
}

/// Whether a SysEx message is a Get System State request, which the
/// emulator answers with its whole state.
pub fn is_system_state_request(message: &[u8]) -> (res: bool)
    ensures
        res == (message@ == sysex_header() + seq![0x7fu8, 0x10, 0x00, 0xf7]),
{
    let request = get_system_state();
    bytes_equal(message, request.as_slice())
}

// -------------------------------------------------------------------------
// Meter data
// -------------------------------------------------------------------------

/// Whether byte `j` of a group is present and has its high bit set.
pub open spec fn high_flag(group: Seq<u8>, j: int) -> bool {
    0 <= j < group.len() && group[j] >= 128
}

/// The byte that carries the high bits of a group of up to seven bytes,
/// as the Qu's meter SysEx has it: the high bit of byte `j` is bit `6 - j`
/// (the mask [`group_mask`]`(j)`), the first byte's in bit 6.
pub open spec fn high_bits(group: Seq<u8>) -> u8 {
    (if high_flag(group, 0) { 64u8 } else { 0u8 }) | (if high_flag(group, 1) { 32u8 } else { 0u8 }) | (if high_flag(
        group,
        2,
    ) { 16u8 } else { 0u8 }) | (if high_flag(group, 3) { 8u8 } else { 0u8 }) | (if high_flag(group, 4) {
        4u8
    } else {
        0u8
    }) | (if high_flag(group, 5) { 2u8 } else { 0u8 }) | (if high_flag(group, 6) { 1u8 } else { 0u8 })
}

/// The high bits of the first `n` bytes of a group, bit by bit.
spec fn high_bits_upto(group: Seq<u8>, n: int) -> u8
    decreases n,
{
    if n <= 0 {
        0
    } else {
        high_bits_upto(group, n - 1) | (if high_flag(group, n - 1) { group_mask(n - 1) } else { 0u8 })
    }
}

/// A group of up to seven bytes in 7-bit form: the byte of high bits,
/// then the low seven bits of each byte.
pub open spec fn pack_group(group: Seq<u8>) -> Seq<u8> {
    seq![high_bits(group)] + group.map_values(|b: u8| (b % 128) as u8)
}

/// Bytes in the 7-bit form of the Qu's meter SysEx: groups of seven, each
/// packed by [`pack_group`]; a last, shorter group is packed alike.
pub open spec fn pack(raw: Seq<u8>) -> Seq<u8>
    decreases raw.len(),
{
    if raw.len() == 0 {
        Seq::empty()
    } else if raw.len() <= 7 {
        pack_group(raw)
    } else {
        pack_group(raw.take(7)) + pack(raw.skip(7))
    }
}

proof fn or_chain(a: u8, b: u8, c: u8, d: u8, e: u8, f: u8, g: u8)
    by (bit_vector)
    ensures
        ((((((0u8 | a) | b) | c) | d) | e) | f) | g == a | b | c | d | e | f | g,
{
}

proof fn group_masks()
    ensures
        group_mask(0) == 64,
        group_mask(1) == 32,
        group_mask(2) == 16,
        group_mask(3) == 8,
        group_mask(4) == 4,
        group_mask(5) == 2,
        group_mask(6) == 1,
{
    reveal_with_fuel(group_mask, 8);
}

proof fn high_bits_complete(group: Seq<u8>)
    ensures
        high_bits_upto(group, 7) == high_bits(group),
{
    reveal_with_fuel(high_bits_upto, 8);
    group_masks();
    or_chain(
        if high_flag(group, 0) { 64u8 } else { 0u8 },
        if high_flag(group, 1) { 32u8 } else { 0u8 },
        if high_flag(group, 2) { 16u8 } else { 0u8 },
        if high_flag(group, 3) { 8u8 } else { 0u8 },
        if high_flag(group, 4) { 4u8 } else { 0u8 },
        if high_flag(group, 5) { 2u8 } else { 0u8 },
        if high_flag(group, 6) { 1u8 } else { 0u8 },
    );
}

proof fn high_byte_bits(b0: bool, b1: bool, b2: bool, b3: bool, b4: bool, b5: bool, b6: bool)
    by (bit_vector)
    ensures
        ({
            let h = (if b0 { 64u8 } else { 0u8 }) | (if b1 { 32u8 } else { 0u8 }) | (if b2 { 16u8 } else { 0u8 }) | (if b3 {
                8u8
            } else {
                0u8
            }) | (if b4 { 4u8 } else { 0u8 }) | (if b5 { 2u8 } else { 0u8 }) | (if b6 { 1u8 } else { 0u8 });
            &&& h < 128
            &&& (h & 64 != 0) == b0
            &&& (h & 32 != 0) == b1
            &&& (h & 16 != 0) == b2
            &&& (h & 8 != 0) == b3
            &&& (h & 4 != 0) == b4
            &&& (h & 2 != 0) == b5
            &&& (h & 1 != 0) == b6
        }),
{
}

/// The high-bit byte of a group is 7-bit data, and its bit [`group_mask`]`(j)`
/// is set exactly when byte `j` of the group has its high bit set.
proof fn high_bits_read_back(group: Seq<u8>)
    ensures
        high_bits(group) < 128,
        forall|j: int| 0 <= j < 7 ==> (#[trigger] (high_bits(group) & group_mask(j)) != 0) == high_flag(group, j),
{
    group_masks();
    high_byte_bits(
        high_flag(group, 0),
        high_flag(group, 1),
        high_flag(group, 2),
        high_flag(group, 3),
        high_flag(group, 4),
        high_flag(group, 5),
        high_flag(group, 6),
    );
    assert forall|j: int| 0 <= j < 7 implies (#[trigger] (high_bits(group) & group_mask(j)) != 0) == high_flag(
        group,
        j,
    ) by {
        if j == 0 {
        } else if j == 1 {
        } else if j == 2 {
        } else if j == 3 {
        } else if j == 4 {
        } else if j == 5 {
        } else {
        }
    }
}

/// Encodes raw meter bytes into the 7-bit form of the Qu's meter SysEx.
pub fn encode_meter_data(raw: &[u8]) -> (res: Vec<u8>)
    ensures
        res@ == pack(raw@),
{
    let mut out: Vec<u8> = Vec::new();
    let mut start: usize = 0;
    assert(raw@.skip(0) =~= raw@);
    assert(out@ + pack(raw@) =~= pack(raw@));
    while start < raw.len()
        invariant
            start <= raw@.len(),
            out@ + pack(raw@.skip(start as int)) == pack(raw@),
        decreases raw@.len() - start,
    {
        let end: usize = if raw.len() - start > 7 {
            start + 7
        } else {
            raw.len()
        };
        let ghost group = raw@.subrange(start as int, end as int);
        let mut high: u8 = 0;
        let mut mask: u8 = 0x40;
        let mut j: usize = 0;
        while j < 7
            invariant
                start <= end <= raw@.len(),
                end - start <= 7,
                group == raw@.subrange(start as int, end as int),
                j <= 7,
                mask == group_mask(j as int),
                high == high_bits_upto(group, j as int),
            decreases 7 - j,
        {
            let ghost before_high = high;
            assert(before_high | 0u8 == before_high) by (bit_vector);
            if j < end - start && raw[start + j] >= 128 {
                high = high | mask;
            }
            assert(group.len() == end - start);
            assert(j < end - start ==> group[j as int] == raw@[start + j]);
            assert(high == high_bits_upto(group, j as int + 1));
            mask = mask / 2;
            j = j + 1;
        }
        proof {
            high_bits_complete(group);
        }
        let ghost before = out@;
        out.push(high);
        let mut k: usize = start;
        while k < end
            invariant
                start <= k <= end <= raw@.len(),
                out@ == before.push(high) + group.map_values(|b: u8| (b % 128) as u8).subrange(
                    0,
                    (k - start) as int,
                ),
                group == raw@.subrange(start as int, end as int),
            decreases end - k,
        {
            out.push(raw[k] % 128);
            k = k + 1;
            assert(out@ =~= before.push(high) + group.map_values(|b: u8| (b % 128) as u8).subrange(
                0,
                (k - start) as int,
            ));
        }
        proof {
            let rest = raw@.skip(start as int);
            assert(group.map_values(|b: u8| (b % 128) as u8).subrange(0, (end - start) as int)
                =~= group.map_values(|b: u8| (b % 128) as u8));
            assert(out@ =~= before + pack_group(group));
            if rest.len() <= 7 {
                assert(group =~= rest);
                assert(raw@.skip(end as int) =~= Seq::<u8>::empty());
            } else {
                assert(group =~= rest.take(7));
                assert(raw@.skip(end as int) =~= rest.skip(7));
            }
        }
        start = end;
    }
    assert(raw@.skip(start as int) =~= Seq::<u8>::empty());
    out
}

/// Unpacking undoes packing: the bytes that the meter decoder reads from
/// packed data are the bytes that were packed.
pub proof fn unpack_undoes_pack(raw: Seq<u8>)
    ensures
        unpack(pack(raw)) == raw,
    decreases raw.len(),
{
    if raw.len() == 0 {
        assert(unpack(pack(raw)) =~= raw);
    } else if raw.len() <= 7 {
        group_read_back(raw);
    } else {
        let p = pack(raw);
        let g = pack_group(raw.take(7));
        unpack_undoes_pack(raw.skip(7));
        group_read_back(raw.take(7));
        assert(p.take(8) =~= g);
        assert(p.skip(8) =~= pack(raw.skip(7)));
        assert(raw.take(7) + raw.skip(7) =~= raw);
    }
}

/// Packed data is 7-bit: every byte is below `0x80`.
pub proof fn pack_is_seven_bit(raw: Seq<u8>)
    ensures
        forall|i: int| 0 <= i < pack(raw).len() ==> #[trigger] pack(raw)[i] < 128,
        pack(raw).len() == raw.len() + (raw.len() + 6) / 7,
    decreases raw.len(),
{
    if raw.len() == 0 {
    } else if raw.len() <= 7 {
        high_bits_read_back(raw);
    } else {
        pack_is_seven_bit(raw.skip(7));
        high_bits_read_back(raw.take(7));
        let p = pack(raw);
        let g = pack_group(raw.take(7));
        assert forall|i: int| 0 <= i < p.len() implies #[trigger] p[i] < 128 by {
            if i >= 8 {
                assert(p[i] == pack(raw.skip(7))[i - 8]);
            }
        }
    }
}

proof fn group_read_back(g: Seq<u8>)
    requires
        1 <= g.len() <= 7,
    ensures
        unpack_group(pack_group(g)) == g,
{
    high_bits_read_back(g);
    let p = pack_group(g);
    assert(unpack(p) == unpack_group(p));
    assert forall|j: int| 0 <= j < g.len() implies #[trigger] unpack_group(p)[j] == g[j] by {
        assert(p[j + 1] == (g[j] % 128) as u8);
        assert((high_bits(g) & group_mask(j)) != 0 == high_flag(g, j));
    }
    assert(unpack_group(p) =~= g);
}

// -------------------------------------------------------------------------
// Meter stream
// -------------------------------------------------------------------------

/// The number of meter values in a Qu-16 meter data message.
pub const METER_COUNT: usize = 788;

/// The meter value at position `p` of a Qu-16 meter data message, when
/// only the first meter of each block carries a value: mono inputs (16
/// blocks of 10), 80 unused, stereo inputs (3 blocks of 10 left and 10
/// right), 20 unused, mono mixes (4 blocks of 10, from the first four
/// mixes), stereo mixes (4 blocks of 10 left and 10 right, from the last
/// four), then the stereo monitor (16) and FX (4 blocks of 83), all zero.
pub open spec fn layout_value(inputs: Seq<u16>, stereo: Seq<[u16; 2]>, mixes: Seq<[u16; 2]>, p: int) -> u16 {
    if p < 160 {
        if p % 10 == 0 {
            inputs[p / 10]
        } else {
            0
        }
    } else if p < 240 {
        0
    } else if p < 300 {
        let q = p - 240;
        if q % 10 == 0 {
            stereo[q / 20]@[(q / 10) % 2]
        } else {
            0
        }
    } else if p < 320 {
        0
    } else if p < 360 {
        let q = p - 320;
        if q % 10 == 0 {
            mixes[q / 10]@[0]
        } else {
            0
        }
    } else if p < 440 {
        let q = p - 360;
        if q % 10 == 0 {
            mixes[4 + q / 20]@[(q / 10) % 2]
        } else {
            0
        }
    } else {
        0
    }
}

/// All meter values of a Qu-16 meter data message.
pub open spec fn meter_layout(inputs: Seq<u16>, stereo: Seq<[u16; 2]>, mixes: Seq<[u16; 2]>) -> Seq<u16> {
    Seq::new(788, |p: int| layout_value(inputs, stereo, mixes, p))
}

/// Meter values as bytes, each value least significant byte first, as the
/// Qu's meter SysEx has them.
pub open spec fn le_bytes(values: Seq<u16>) -> Seq<u8> {
    Seq::new(
        2 * values.len(),
        |i: int|
            if i % 2 == 0 {
                (values[i / 2] % 256) as u8
            } else {
                (values[i / 2] / 256) as u8
            },
    )
}

/// The meter data SysEx carrying `values`: the standard header, MIDI
/// channel 1, command `0x13`, the packed levels and `F7`.
pub open spec fn meter_message(values: Seq<u16>) -> Seq<u8> {
    sysex_header() + seq![0x00u8, 0x13] + pack(le_bytes(values)) + seq![0xf7u8]
}

/// A meter data message that the emulator builds reads back as it was
/// built: the decoder finds a meter data message with one meter per value,
/// in stream order, each at level `value - 0x8000` (in 1/256 dB).
pub proof fn meter_message_round_trip(values: Seq<u16>)
    ensures
        is_meter_data(meter_message(values)),
        crate::meters::meter_values(meter_message(values)).len() == values.len(),
        forall|k: int|
            0 <= k < values.len() ==> #[trigger] crate::meters::meter_values(meter_message(values))[k] == (Meter {
                block: meter_position(k).0,
                index: meter_position(k).1 as usize,
                level: (values[k] - 32768) as i16,
            }),
{
    let msg = meter_message(values);
    let packed = pack(le_bytes(values));
    let raw = le_bytes(values);
    assert(msg.take(8) =~= sysex_header());
    assert(msg.subrange(10, msg.len() - 1) =~= packed);
    unpack_undoes_pack(raw);
    let m = meters_of(raw);
    assert forall|k: int| 0 <= k < values.len() implies #[trigger] m[k] == (Meter {
        block: meter_position(k).0,
        index: meter_position(k).1 as usize,
        level: (values[k] - 32768) as i16,
    }) by {
        assert(raw[2 * k] == (values[k] % 256) as u8);
        assert(raw[2 * k + 1] == (values[k] / 256) as u8);
        assert(level_of(raw[2 * k], raw[2 * k + 1]) == values[k] - 32768);
    }
}

/// The parser, whatever it was doing, reads a meter data message that the
/// emulator builds as one `Meters` event carrying its levels.
pub proof fn parser_reads_meter_message(s: ParserModel, values: Seq<u16>)
    ensures
        run(s, meter_message(values)).1 == seq![
            EventModel::Meters(crate::meters::meter_values(meter_message(values))),
        ],
{
    let msg = meter_message(values);
    let body = msg.subrange(1, msg.len() - 1);
    pack_is_seven_bit(le_bytes(values));
    let packed = pack(le_bytes(values));
    assert forall|i: int| 0 <= i < body.len() implies #[trigger] body[i] != 0xf0 && body[i] != 0xf7 && body[i]
        < 0xf8 by {
        if i >= 9 {
            assert(body[i] == packed[i - 9]);
        }
    }
    assert(sysex_body(body));
    assert(seq![0xf0u8] + body + seq![0xf7u8] =~= msg);
    sysex_is_framed(s, body);
    meter_message_round_trip(values);
    assert(sysex_event(msg) == EventModel::Meters(crate::meters::meter_values(msg)));
}

fn layout_value_at(inputs: &[u16; 16], stereo: &[[u16; 2]; 3], mixes: &[[u16; 2]; 8], p: usize) -> (res: u16)
    requires
        p < 788,
    ensures
        res == layout_value(inputs@, stereo@, mixes@, p as int),
{
    if p < 160 {
        if p % 10 == 0 {
            inputs[p / 10]
        } else {
            0
        }
    } else if p < 240 {
        0
    } else if p < 300 {
        let q = p - 240;
        if q % 10 == 0 {
            let pair = stereo[q / 20];
            pair[(q / 10) % 2]
        } else {
            0
        }
    } else if p < 320 {
        0
    } else if p < 360 {
        let q = p - 320;
        if q % 10 == 0 {
            let pair = mixes[q / 10];
            pair[0]
        } else {
            0
        }
    } else if p < 440 {
        let q = p - 360;
        if q % 10 == 0 {
            let pair = mixes[4 + q / 20];
            pair[(q / 10) % 2]
        } else {
            0
        }
    } else {
        0
    }
}

/// The meter values of a Qu-16 meter data message: input `i`'s value
/// first in its block, each stereo input's left and right values first
/// in their halves, the first four mixes first in the mono mix blocks,
/// the last four as left and right of the stereo mix blocks; zero
/// elsewhere.
pub fn meter_values(inputs: &[u16; 16], stereo: &[[u16; 2]; 3], mixes: &[[u16; 2]; 8]) -> (res: Vec<u16>)
    ensures
        res@ == meter_layout(inputs@, stereo@, mixes@),
{
    let mut values: Vec<u16> = Vec::new();
    let mut p: usize = 0;
    while p < METER_COUNT
        invariant
            p <= 788,
            values@.len() == p,
            forall|j: int| 0 <= j < p ==> #[trigger] values@[j] == layout_value(inputs@, stereo@, mixes@, j),
        decreases 788 - p,
    {
        let v = layout_value_at(inputs, stereo, mixes, p);
        values.push(v);
        p = p + 1;
    }
    assert(values@ =~= meter_layout(inputs@, stereo@, mixes@));
    values
}

/// A meter data SysEx carrying `values`, in the 7-bit form of
/// [`encode_meter_data`].
pub fn meter_sysex(values: &[u16]) -> (res: Vec<u8>)
    requires
        values@.len() <= 0x1000_0000,
    ensures
        res@ == meter_message(values@),
{
    let mut raw: Vec<u8> = Vec::new();
    let mut i: usize = 0;
    while i < values.len()
        invariant
            i <= values@.len() <= 0x1000_0000,
            raw@.len() == 2 * i,
            forall|j: int| 0 <= j < 2 * i ==> #[trigger] raw@[j] == le_bytes(values@)[j],
        decreases values@.len() - i,
    {
        let v = values[i];
        raw.push((v % 256) as u8);
        raw.push((v / 256) as u8);
        i = i + 1;
    }
    assert(raw@ =~= le_bytes(values@));
    let encoded = encode_meter_data(raw.as_slice());
    let mut message: Vec<u8> = Vec::new();
    append_bytes(&mut message, &SYSEX_HEADER);
    message.push(0x00);
    message.push(SYSEX_METER_DATA);
    append_bytes(&mut message, encoded.as_slice());
    message.push(0xf7);
    assert(message@ =~= meter_message(values@));
    message
}

/// The meter data message of an emulated Qu-16 whose inputs, stereo
/// inputs and mixes show the given raw meter values.
pub fn meter_data(inputs: &[u16; 16], stereo: &[[u16; 2]; 3], mixes: &[[u16; 2]; 8]) -> (res: Vec<u8>)
    ensures
        res@ == meter_message(meter_layout(inputs@, stereo@, mixes@)),
{
    let values = meter_values(inputs, stereo, mixes);
    meter_sysex(values.as_slice())
}


// -------------------------------------------------------------------------
// System state
// -------------------------------------------------------------------------

/// Major firmware version reported by the emulator.
pub const FIRMWARE_MAJOR: u8 = 1;
/// Minor firmware version reported by the emulator.
pub const FIRMWARE_MINOR: u8 = 99;

/// The number of messages of the emulator's system state.
pub const SYNC_LENGTH: usize = 199;

/// A Channel Name message for channel `c` carrying `name` in UTF-8.
pub open spec fn name_message_bytes(c: Channel, name: Seq<char>) -> Seq<u8> {
    sysex_header() + seq![0x00u8, 0x02, (c.0 % 128) as u8] + encode_utf8(name) + seq![0xf7u8]
}

/// The mute group assignment message of channel `c` for mute group `g`
/// (0..4).
pub open spec fn assignment_message(c: Channel, g: int, assigned: bool) -> Seq<u8> {
    nrpn_bytes(0, c.0, 0x5c, if assigned { (0x40 + g) as u8 } else { g as u8 }, 0x07)
}

/// The state of channel `c` in `m` (any value when it has none).
pub open spec fn channel_state<F>(m: MixerModel<F>, c: Channel) -> ChannelModel<F> {
    channel_model(m, c)->0
}

/// Message `i` of the system state that the emulator sends for mixer
/// state `m`: the System State response (firmware 1.99 of a Qu-16 on
/// MIDI channel 1); then for each channel of [`state_channel`] its fader
/// (position `1 + 6k`, see [`is_fader_message`]), its mute and its
/// assignment to each of the four mute groups; then the mutes of the four
/// mute groups; the names of the channels; the names of the mute groups;
/// and End Sync.
pub open spec fn sync_message<F>(m: MixerModel<F>, i: int) -> Seq<u8> {
    if i == 0 {
        sysex_header() + seq![0x00u8, 0x11, 0x01, 0x01, 0x63, 0xf7]
    } else if i < 163 {
        let c = state_channel((i - 1) / 6);
        let r = (i - 1) % 6;
        if r == 1 {
            mute_bytes(c.0, channel_state(m, c).muted)
        } else if r >= 2 {
            assignment_message(c, r - 2, m.mute_groups[r - 2].channels.contains(c))
        } else {
            Seq::empty()
        }
    } else if i < 167 {
        mute_bytes((0x50 + i - 163) as u8, m.mute_groups[i - 163].muted)
    } else if i < 194 {
        let c = state_channel(i - 167);
        name_message_bytes(c, channel_state(m, c).name)
    } else if i < 198 {
        name_message_bytes(Channel((0x50 + i - 194) as u8), m.mute_groups[i - 194].name)
    } else {
        sysex_header() + seq![0x00u8, 0x14, 0xf7]
    }
}

/// What the system state says, in terms of the mixer state `m`: first the
/// System State response of a Qu-16 (firmware 1.99, MIDI channel 1); then
/// for each input `k` (0..16) its mute, and its assignment to each mute group
/// `g`, at positions `2 + 6k` and `3 + 6k + g`; likewise for the stereo inputs
/// and the mixes after them; the mute of each mute group `g` at `163 + g`;
/// the name of input `k` at `167 + k` and of mute group `g` at `194 + g`; and
/// End Sync last.
pub proof fn system_state_reports_state<F>(m: MixerModel<F>)
    requires
        well_formed(m),
    ensures
        sync_message(m, 0) == seq![0xf0u8, 0x00, 0x00, 0x1a, 0x50, 0x11, 0x01, 0x00, 0x00, 0x11, 0x01, 0x01, 0x63, 0xf7],
        forall|k: int|
            0 <= k < 16 ==> #[trigger] sync_message(m, 2 + 6 * k) == mute_bytes((0x20 + k) as u8, m.inputs[k].muted),
        forall|k: int|
            0 <= k < 3 ==> #[trigger] sync_message(m, 98 + 6 * k) == mute_bytes((0x40 + k) as u8, m.stereo[k].muted),
        forall|k: int|
            0 <= k < 8 ==> #[trigger] sync_message(m, 116 + 6 * k) == mute_bytes((0x60 + k) as u8, m.mixes[k].muted),
        forall|k: int, g: int|
            0 <= k < 16 && 0 <= g < 4 ==> #[trigger] sync_message(m, 3 + 6 * k + g) == nrpn_bytes(
                0,
                (0x20 + k) as u8,
                0x5c,
                if m.mute_groups[g].channels.contains(Channel((0x20 + k) as u8)) {
                    (0x40 + g) as u8
                } else {
                    g as u8
                },
                0x07,
            ),
        forall|g: int|
            0 <= g < 4 ==> #[trigger] sync_message(m, 163 + g) == mute_bytes((0x50 + g) as u8, m.mute_groups[g].muted),
        forall|k: int|
            0 <= k < 16 ==> #[trigger] sync_message(m, 167 + k) == seq![0xf0u8, 0x00, 0x00, 0x1a, 0x50, 0x11, 0x01, 0x00, 0x00, 0x02, (0x20 + k) as u8]
                + encode_utf8(m.inputs[k].name) + seq![0xf7u8],
        forall|g: int|
            0 <= g < 4 ==> #[trigger] sync_message(m, 194 + g) == seq![0xf0u8, 0x00, 0x00, 0x1a, 0x50, 0x11, 0x01, 0x00, 0x00, 0x02, (0x50 + g) as u8]
                + encode_utf8(m.mute_groups[g].name) + seq![0xf7u8],
        sync_message(m, 198) == seq![0xf0u8, 0x00, 0x00, 0x1a, 0x50, 0x11, 0x01, 0x00, 0x00, 0x14, 0xf7],
{
    assert(sync_message(m, 0) =~= seq![0xf0u8, 0x00, 0x00, 0x1a, 0x50, 0x11, 0x01, 0x00, 0x00, 0x11, 0x01, 0x01, 0x63, 0xf7]);
    assert(sync_message(m, 198) =~= seq![0xf0u8, 0x00, 0x00, 0x1a, 0x50, 0x11, 0x01, 0x00, 0x00, 0x14, 0xf7]);
    assert forall|k: int| 0 <= k < 16 implies #[trigger] sync_message(m, 2 + 6 * k) == mute_bytes(
        (0x20 + k) as u8,
        m.inputs[k].muted,
    ) by {
        assert((2 + 6 * k - 1) / 6 == k && (2 + 6 * k - 1) % 6 == 1);
    }
    assert forall|k: int| 0 <= k < 3 implies #[trigger] sync_message(m, 98 + 6 * k) == mute_bytes(
        (0x40 + k) as u8,
        m.stereo[k].muted,
    ) by {
        assert((98 + 6 * k - 1) / 6 == 16 + k && (98 + 6 * k - 1) % 6 == 1);
    }
    assert forall|k: int| 0 <= k < 8 implies #[trigger] sync_message(m, 116 + 6 * k) == mute_bytes(
        (0x60 + k) as u8,
        m.mixes[k].muted,
    ) by {
        assert((116 + 6 * k - 1) / 6 == 19 + k && (116 + 6 * k - 1) % 6 == 1);
    }
    assert forall|k: int, g: int| 0 <= k < 16 && 0 <= g < 4 implies #[trigger] sync_message(m, 3 + 6 * k + g)
        == nrpn_bytes(
        0,
        (0x20 + k) as u8,
        0x5c,
        if m.mute_groups[g].channels.contains(Channel((0x20 + k) as u8)) {
            (0x40 + g) as u8
        } else {
            g as u8
        },
        0x07,
    ) by {
        assert((3 + 6 * k + g - 1) / 6 == k && (3 + 6 * k + g - 1) % 6 == g + 2);
    }
    assert forall|k: int| 0 <= k < 16 implies #[trigger] sync_message(m, 167 + k) == seq![0xf0u8, 0x00, 0x00, 0x1a, 0x50, 0x11, 0x01, 0x00, 0x00, 0x02, (0x20 + k) as u8]
        + encode_utf8(m.inputs[k].name) + seq![0xf7u8] by {
        assert(sync_message(m, 167 + k) =~= seq![0xf0u8, 0x00, 0x00, 0x1a, 0x50, 0x11, 0x01, 0x00, 0x00, 0x02, (0x20 + k) as u8]
            + encode_utf8(m.inputs[k].name) + seq![0xf7u8]);
    }
    assert forall|g: int| 0 <= g < 4 implies #[trigger] sync_message(m, 194 + g) == seq![0xf0u8, 0x00, 0x00, 0x1a, 0x50, 0x11, 0x01, 0x00, 0x00, 0x02, (0x50 + g) as u8]
        + encode_utf8(m.mute_groups[g].name) + seq![0xf7u8] by {
        assert(sync_message(m, 194 + g) =~= seq![0xf0u8, 0x00, 0x00, 0x1a, 0x50, 0x11, 0x01, 0x00, 0x00, 0x02, (0x50 + g) as u8]
            + encode_utf8(m.mute_groups[g].name) + seq![0xf7u8]);
    }
}

/// Whether `c` is among `v`.
fn slice_contains(v: &[Channel], c: Channel) -> (res: bool)
    ensures
        res == v@.contains(c),
{
    let mut i: usize = 0;
    while i < v.len()
        invariant
            i <= v@.len(),
            forall|k: int| 0 <= k < i ==> v@[k] != c,
        decreases v@.len() - i,
    {
        if v[i] == c {
            assert(v@[i as int] == c);
            return true;
        }
        i = i + 1;
    }
    false
}

/// The messages an emulated Qu-16 sends in answer to Get System State,
/// in order (see [`sync_message`]); each fader level is converted to its
/// raw protocol value by `raw_of`.
pub fn system_state_messages<F: Copy, R: Fn(F) -> u8>(state: &MixerState<F>, raw_of: &R) -> (res: Vec<Vec<u8>>)
    requires
        forall|l: F| raw_of.requires((l,)),
    ensures
        res@.len() == 199,
        forall|i: int| 0 <= i < 199 && !(1 <= i < 163 && (i - 1) % 6 == 0) ==> #[trigger] res@[i]@ == sync_message(state@, i),
        forall|g: int|
            0 <= g < 4 ==> #[trigger] res@[163 + g]@ == mute_bytes((0x50 + g) as u8, state@.mute_groups[g].muted),
        forall|k: int|
            0 <= k < 27 ==> is_fader_message(
                res@[1 + 6 * k]@,
                #[trigger] state_channel(k),
                channel_state(state@, state_channel(k)).fader,
                *raw_of,
            ),
{
    let ghost m = state@;
    let mut messages: Vec<Vec<u8>> = Vec::new();
    messages.push(system_state_response(0, QU16_BOX_ID, FIRMWARE_MAJOR, FIRMWARE_MINOR));
    assert(messages@[0]@ =~= sync_message(m, 0));
    let mut k: usize = 0;
    while k < 27
        invariant
            k <= 27,
            m == state@,
            forall|l: F| raw_of.requires((l,)),
            messages@.len() == 1 + 6 * k,
            forall|i: int| 0 <= i < 1 + 6 * k && !(1 <= i < 163 && (i - 1) % 6 == 0) ==> #[trigger] messages@[i]@ == sync_message(m, i),
            forall|j: int| 0 <= j < k ==> is_fader_message(
                messages@[1 + 6 * j]@,
                #[trigger] state_channel(j),
                channel_state(m, state_channel(j)).fader,
                *raw_of,
            ),
        decreases 27 - k,
    {
        let channel = state_channel_exec(k);
        let ghost before = messages@;
        match fader(state, channel, raw_of) {
            Some(msg) => messages.push(msg),
            None => {
                assert(false);
                return messages;
            },
        }
        match mute(state, channel) {
            Some(msg) => messages.push(msg),
            None => {
                assert(false);
                return messages;
            },
        }
        let mut g: usize = 0;
        while g < 4
            invariant
                k < 27,
                g <= 4,
                m == state@,
                channel == state_channel(k as int),
                messages@.len() == 3 + 6 * k + g,
                forall|i: int| 0 <= i < 3 + 6 * k + g && !(1 <= i < 163 && (i - 1) % 6 == 0) ==> #[trigger] messages@[i]@ == sync_message(m, i),
                forall|j: int| 0 <= j <= k ==> is_fader_message(
                    messages@[1 + 6 * j]@,
                    #[trigger] state_channel(j),
                    channel_state(m, state_channel(j)).fader,
                    *raw_of,
                ),
            decreases 4 - g,
        {
            let group = Channel(0x50 + g as u8);
            let assigned = match state.mute_group_assignments(group) {
                Some(channels) => slice_contains(channels, channel),
                None => {
                    assert(false);
                    false
                },
            };
            let bytes = mute_group_assignment(channel, group, assigned);
            messages.push(slice_to_vec(&bytes));
            proof {
                let i = 3 + 6 * k + g;
                assert((i - 1) / 6 == k && (i - 1) % 6 == g + 2);
                assert(group.0 % 4 == g);
                assert(messages@[i as int]@ =~= sync_message(m, i as int));
            }
            g = g + 1;
        }
        proof {
            assert(before.len() == 1 + 6 * k);
            let i = 1 + 6 * k;
            assert((i - 1) / 6 == k && (i - 1) % 6 == 0);
            assert(((i + 1) - 1) / 6 == k && ((i + 1) - 1) % 6 == 1);
        }
        k = k + 1;
    }
    let mut g: usize = 0;
    while g < 4
        invariant
            g <= 4,
            m == state@,
            messages@.len() == 163 + g,
            forall|i: int| 0 <= i < 163 + g && !(1 <= i < 163 && (i - 1) % 6 == 0) ==> #[trigger] messages@[i]@ == sync_message(m, i),
            forall|j: int| 0 <= j < 27 ==> is_fader_message(
                messages@[1 + 6 * j]@,
                #[trigger] state_channel(j),
                channel_state(m, state_channel(j)).fader,
                *raw_of,
            ),
        decreases 4 - g,
    {
        let group = Channel(0x50 + g as u8);
        match mute(state, group) {
            Some(msg) => messages.push(msg),
            None => {
                assert(false);
                return messages;
            },
        }
        g = g + 1;
    }
    let mut k: usize = 0;
    while k < 27
        invariant
            k <= 27,
            m == state@,
            messages@.len() == 167 + k,
            forall|i: int| 0 <= i < 167 + k && !(1 <= i < 163 && (i - 1) % 6 == 0) ==> #[trigger] messages@[i]@ == sync_message(m, i),
            forall|j: int| 0 <= j < 27 ==> is_fader_message(
                messages@[1 + 6 * j]@,
                #[trigger] state_channel(j),
                channel_state(m, state_channel(j)).fader,
                *raw_of,
            ),
        decreases 27 - k,
    {
        let channel = state_channel_exec(k);
        match state.name(channel) {
            Some(name) => {
                let msg = channel_name(channel, name.as_str().as_bytes());
                messages.push(msg);
                assert(messages@[167 + k as int]@ =~= sync_message(m, 167 + k as int));
            },
            None => {
                assert(false);
                return messages;
            },
        }
        k = k + 1;
    }
    let mut g: usize = 0;
    while g < 4
        invariant
            g <= 4,
            m == state@,
            messages@.len() == 194 + g,
            forall|i: int| 0 <= i < 194 + g && !(1 <= i < 163 && (i - 1) % 6 == 0) ==> #[trigger] messages@[i]@ == sync_message(m, i),
            forall|j: int| 0 <= j < 27 ==> is_fader_message(
                messages@[1 + 6 * j]@,
                #[trigger] state_channel(j),
                channel_state(m, state_channel(j)).fader,
                *raw_of,
            ),
        decreases 4 - g,
    {
        let group = Channel(0x50 + g as u8);
        match state.mute_group(group) {
            Some(st) => {
                let msg = channel_name(group, st.name.as_str().as_bytes());
                messages.push(msg);
                assert(group.0 % 128 == 0x50 + g);
                assert(messages@[194 + g as int]@ =~= sync_message(m, 194 + g as int));
            },
            None => {
                assert(false);
                return messages;
            },
        }
        g = g + 1;
    }
    messages.push(end_sync());
    assert(messages@[198]@ =~= sync_message(m, 198));
    messages
}

// -------------------------------------------------------------------------
// Received SysEx requests
// -------------------------------------------------------------------------

/// The Get System State request.
pub open spec fn system_state_request() -> Seq<u8> {
    sysex_header() + seq![0x7fu8, 0x10, 0x00, 0xf7]
}

/// Scanning buffered bytes `s` for SysEx requests, with the meter stream
/// on (`meters`) or off: each complete message is taken in turn; a meter
/// control message switches the meter stream, and every other message
/// that is a Get System State request is counted. The result is the bytes
/// that remain, whether the meter stream is then on, and the number of
/// requests.
pub open spec fn scan_sysex(s: Seq<u8>, meters: bool) -> (Seq<u8>, bool, nat)
    decreases s.len(),
{
    let (msg, rest) = take_sysex(s);
    match msg {
        None => (rest, meters, 0),
        Some(m) => if rest.len() < s.len() {
            let next = match meter_control(m) {
                Some(on) => on,
                None => meters,
            };
            let (r, on, n) = scan_sysex(rest, next);
            (r, on, n + if meter_control(m) is None && m == system_state_request() { 1nat } else { 0nat })
        } else {
            (rest, meters, 0)
        },
    }
}

/// Each request counted takes at least two buffered bytes.
proof fn scan_sysex_count(s: Seq<u8>, meters: bool)
    ensures
        2 * scan_sysex(s, meters).2 + scan_sysex(s, meters).0.len() <= s.len(),
    decreases s.len(),
{
    taken_sysex_is_framed(s);
    let (msg, rest) = take_sysex(s);
    match msg {
        None => {},
        Some(m) => {
            let next = match meter_control(m) {
                Some(on) => on,
                None => meters,
            };
            scan_sysex_count(rest, next);
        },
    }
}

/// The SysEx side of an emulated Qu-16's connection: received bytes not
/// yet framed into messages, and whether the meter stream is on.
pub struct SysexSession {
    pub buffer: Vec<u8>,
    pub meters_enabled: bool,
}

/// The most bytes kept while waiting for the end of a SysEx message; a
/// longer buffer is cleared.
pub const BUFFER_LIMIT: usize = 65536;

impl SysexSession {
    /// No bytes buffered, and the meter stream off.
    pub fn new() -> (res: Self)
        ensures
            res.buffer@ == Seq::<u8>::empty(),
            !res.meters_enabled,
    {
        SysexSession { buffer: Vec::new(), meters_enabled: false }
    }

    /// Takes in received bytes: frames the SysEx messages of the buffered
    /// bytes, switches the meter stream as they ask, and returns the
    /// number of Get System State requests among them, each to be answered
    /// with the system state. What remains is kept for the next bytes,
    /// unless it is longer than [`BUFFER_LIMIT`].
    pub fn receive(&mut self, data: &[u8]) -> (requests: usize)
        ensures
            ({
                let (rest, meters, n) = scan_sysex(old(self).buffer@ + data@, old(self).meters_enabled);
                &&& requests == n
                &&& final(self).meters_enabled == meters
                &&& final(self).buffer@ == if rest.len() > 65536 {
                    Seq::<u8>::empty()
                } else {
                    rest
                }
            }),
    {
        append_bytes(&mut self.buffer, data);
        let length = self.buffer.len();
        let ghost total = self.buffer@;
        let ghost meters0 = self.meters_enabled;
        let mut count: usize = 0;
        proof {
            scan_sysex_count(total, meters0);
        }
        loop
            invariant_except_break
                total.len() == length,
                2 * count + self.buffer@.len() <= total.len(),
                ({
                    let (r, on, n) = scan_sysex(self.buffer@, self.meters_enabled);
                    scan_sysex(total, meters0) == (r, on, (n + count) as nat)
                }),
            ensures
                scan_sysex(total, meters0) == (self.buffer@, self.meters_enabled, count as nat),
            decreases self.buffer@.len(),
        {
            let ghost before = self.buffer@;
            let ghost meters = self.meters_enabled;
            proof {
                taken_sysex_is_framed(before);
                scan_sysex_count(before, meters);
            }
            match next_sysex(&mut self.buffer) {
                None => {
                    assert(scan_sysex(before, meters) == (self.buffer@, meters, 0nat));
                    break;
                },
                Some(message) => {
                    assert(self.buffer@.len() < before.len());
                    match handle_meter_control(message.as_slice()) {
                        Some(on) => {
                            self.meters_enabled = on;
                        },
                        None => {
                            if is_system_state_request(message.as_slice()) {
                                count = count + 1;
                            }
                        },
                    }
                },
            }
        }
        if self.buffer.len() > BUFFER_LIMIT {
            self.buffer = Vec::new();
        }
        count
    }
}

} // verus!
