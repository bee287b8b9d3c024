//! Qu meter data.
//!
//! A meter data SysEx (command `0x13`) carries 16-bit meter levels packed
//! into 7-bit MIDI data bytes: each group of eight bytes starts with a byte
//! holding the high bits of the seven bytes that follow, the first of them
//! in bit 6 and the last in bit 0. Unpacked, each level takes two bytes,
//! low byte first, and is a signed dB value in units of 1/256 dB, offset by
//! `0x8000`. Levels follow one another in a fixed order of meter blocks.

use vstd::prelude::*;
use crate::protocol::{sysex_header, SYSEX_HEADER, SYSEX_METER_DATA};

verus! {

/// The block of the meter stream that a level belongs to.
#[derive(Debug, Clone, Copy, PartialEq, Eq, Hash, Structural)]
pub enum MeterBlock {
    /// Mono input `n` (1..=24), ten meters.
    MonoInput(u8),
    /// Stereo input `n` (1..=4), ten meters for each side.
    StereoInput(u8),
    /// Mono mix `n` (1..=4), ten meters.
    MonoMix(u8),
    /// Stereo mix `n` (1..=4), ten meters for each side.
    StereoMix(u8),
    /// The stereo monitor, sixteen meters.
    StereoMonitor,
    /// Stereo FX `n` (1..=4), 83 meters.
    StereoFx(u8),
    /// A level beyond the known blocks; its index counts from the first of them.
    Unassigned,
}

/// One meter level.
#[derive(Debug, Clone, Copy, PartialEq, Eq, Hash, Structural)]
pub struct Meter {
    /// The meter block.
    pub block: MeterBlock,
    /// The meter's position within its block.
    pub index: usize,
    /// The level in units of 1/256 dB.
    pub level: i16,
}

/// The block and index of the `k`-th level of the meter stream.
pub open spec fn meter_position(k: int) -> (MeterBlock, int) {
    if k < 240 {
        (MeterBlock::MonoInput((k / 10 + 1) as u8), k % 10)
    } else if k < 320 {
        (MeterBlock::StereoInput(((k - 240) / 20 + 1) as u8), (k - 240) % 20)
    } else if k < 360 {
        (MeterBlock::MonoMix(((k - 320) / 10 + 1) as u8), (k - 320) % 10)
    } else if k < 440 {
        (MeterBlock::StereoMix(((k - 360) / 20 + 1) as u8), (k - 360) % 20)
    } else if k < 456 {
        (MeterBlock::StereoMonitor, k - 440)
    } else if k < 788 {
        (MeterBlock::StereoFx(((k - 456) / 83 + 1) as u8), (k - 456) % 83)
    } else {
        (MeterBlock::Unassigned, k - 788)
    }
}

/// The mask of the high bit of the `j`-th data byte of a group.
pub open spec fn group_mask(j: int) -> u8
    decreases j,
{
    if j <= 0 {
        64
    } else {
        (group_mask(j - 1) / 2) as u8
    }
}

/// Data byte `b`, the `j`-th of its group, with its high bit restored from
/// the group's first byte `high`.
pub open spec fn restore_byte(high: u8, j: int, b: u8) -> u8 {
    if high & group_mask(j) != 0 {
        (b % 128 + 128) as u8
    } else {
        (b % 128) as u8
    }
}

/// The bytes that one group (its high-bit byte and up to seven data bytes)
/// stands for.
pub open spec fn unpack_group(g: Seq<u8>) -> Seq<u8> {
    Seq::new((g.len() - 1) as nat, |j: int| restore_byte(g[0], j, g[j + 1]))
}

/// The bytes that packed 7-bit data `p` stands for, group by group.
pub open spec fn unpack(p: Seq<u8>) -> Seq<u8>
    decreases p.len(),
{
    if p.len() == 0 {
        Seq::empty()
    } else if p.len() <= 8 {
        unpack_group(p)
    } else {
        unpack_group(p.take(8)) + unpack(p.skip(8))
    }
}

/// The level of a meter whose bytes are `lo` and `hi`, in 1/256 dB.
pub open spec fn level_of(lo: u8, hi: u8) -> int {
    lo + 256 * hi - 32768
}

/// The meters of unpacked meter bytes `raw`: one for each two bytes, in
/// stream order; a final odd byte is ignored.
pub open spec fn meters_of(raw: Seq<u8>) -> Seq<Meter> {
    Seq::new(
        raw.len() / 2,
        |k: int|
            Meter {
                block: meter_position(k).0,
                index: meter_position(k).1 as usize,
                level: level_of(raw[2 * k], raw[2 * k + 1]) as i16,
            },
    )
}

/// Whether SysEx `msg` is a meter data message: the standard header, a
/// channel byte, command `0x13`, and the closing `F7`.
pub open spec fn is_meter_data(msg: Seq<u8>) -> bool {
    &&& msg.len() >= 11
    &&& msg.take(8) == sysex_header()
    &&& msg[9] == 0x13
    &&& msg.last() == 0xf7
}

/// The meters that meter data message `msg` carries.
pub open spec fn meter_values(msg: Seq<u8>) -> Seq<Meter> {
    meters_of(unpack(msg.subrange(10, msg.len() - 1)))
}

/// Whether `msg` is a meter data message.
pub fn meter_data_message(msg: &[u8]) -> (res: bool)
    ensures
        res == is_meter_data(msg@),
{
    if msg.len() < 11 {
        return false;
    }
    let mut i: usize = 0;
    while i < 8
        invariant
            msg@.len() >= 11,
            i <= 8,
            forall|t: int| 0 <= t < i ==> msg@[t] == SYSEX_HEADER@[t],
        decreases 8 - i,
    {
        if msg[i] != SYSEX_HEADER[i] {
            assert(SYSEX_HEADER@ =~= sysex_header());
            assert(msg@.take(8)[i as int] != sysex_header()[i as int]);
            return false;
        }
        i = i + 1;
    }
    assert(msg@.take(8) =~= sysex_header()) by {
        assert(SYSEX_HEADER@ =~= sysex_header());
    }
    msg[9] == SYSEX_METER_DATA && msg[msg.len() - 1] == 0xf7
}

fn restore(high: u8, mask: u8, b: u8) -> (res: u8)
    ensures
        res == (if high & mask != 0 { (b % 128 + 128) as u8 } else { (b % 128) as u8 }),
{
    assert(b & 0x7f == b % 128) by (bit_vector);
    assert((b & 0x7f) | 0x80 == b % 128 + 128) by (bit_vector);
    if high & mask != 0 {
        (b & 0x7f) | 0x80
    } else {
        b & 0x7f
    }
}

/// Unpacks 7-bit packed data into the bytes it stands for.
pub fn unpack_bytes(p: &[u8]) -> (res: Vec<u8>)
    ensures
        res@ == unpack(p@),
{
    let mut out: Vec<u8> = Vec::new();
    let mut i: usize = 0;
    assert(p@.skip(0) =~= p@);
    while i < p.len()
        invariant
            i <= p@.len(),
            unpack(p@) == out@ + unpack(p@.skip(i as int)),
        decreases p@.len() - i,
    {
        let rest = p.len() - i;
        let count: usize = if rest > 8 { 7 } else { rest - 1 };
        let high = p[i];
        let ghost before = out@;
        let ghost group = if rest > 8 { p@.skip(i as int).take(8) } else { p@.skip(i as int) };
        let mut j: usize = 0;
        let mut mask: u8 = 0x40;
        while j < count
            invariant
                i < p@.len(),
                p@.len() <= usize::MAX,
                i + group.len() <= p@.len(),
                count == group.len() - 1,
                group.len() >= 1,
                group[0] == high,
                forall|t: int| 0 <= t < group.len() ==> group[t] == p@[i + t],
                j <= count,
                count <= 7,
                mask == group_mask(j as int),
                out@ == before + Seq::new(j as nat, |t: int| restore_byte(high, t, group[t + 1])),
            decreases count - j,
        {
            let b = restore(high, mask, p[i + 1 + j]);
            out.push(b);
            mask = mask / 2;
            j = j + 1;
            assert(out@ =~= before + Seq::new(j as nat, |t: int| restore_byte(high, t, group[t + 1])));
        }
        assert(out@ =~= before + unpack_group(group));
        if rest > 8 {
            assert(p@.skip(i as int).skip(8) =~= p@.skip(i + 8));
            i = i + 8;
        } else {
            assert(p@.skip(p@.len() as int) =~= Seq::<u8>::empty());
            i = p.len();
        }
    }
    assert(out@ =~= out@ + unpack(p@.skip(p@.len() as int)));
    out
}

fn position(k: usize) -> (res: (MeterBlock, usize))
    ensures
        res.0 == meter_position(k as int).0,
        res.1 == meter_position(k as int).1,
{
    if k < 240 {
        (MeterBlock::MonoInput((k / 10 + 1) as u8), k % 10)
    } else if k < 320 {
        (MeterBlock::StereoInput(((k - 240) / 20 + 1) as u8), (k - 240) % 20)
    } else if k < 360 {
        (MeterBlock::MonoMix(((k - 320) / 10 + 1) as u8), (k - 320) % 10)
    } else if k < 440 {
        (MeterBlock::StereoMix(((k - 360) / 20 + 1) as u8), (k - 360) % 20)
    } else if k < 456 {
        (MeterBlock::StereoMonitor, k - 440)
    } else if k < 788 {
        (MeterBlock::StereoFx(((k - 456) / 83 + 1) as u8), (k - 456) % 83)
    } else {
        (MeterBlock::Unassigned, k - 788)
    }
}

/// The meters of unpacked meter bytes.
pub fn meters_from_bytes(raw: &[u8]) -> (res: Vec<Meter>)
    ensures
        res@ == meters_of(raw@),
{
    let mut out: Vec<Meter> = Vec::new();
    let n = raw.len() / 2;
    let mut k: usize = 0;
    while k < n
        invariant
            n == raw@.len() / 2,
            raw@.len() <= usize::MAX,
            k <= n,
            out@ =~= meters_of(raw@).take(k as int),
        decreases n - k,
    {
        assert(2 * k + 1 < raw@.len()) by (nonlinear_arith)
            requires
                k < n,
                n == raw@.len() / 2,
        ;
        let (block, index) = position(k);
        let lo = raw[2 * k];
        let hi = raw[2 * k + 1];
        let level = (lo as i32 + 256 * hi as i32 - 32768) as i16;
        out.push(Meter { block, index, level });
        k = k + 1;
        assert(out@ =~= meters_of(raw@).take(k as int));
    }
    out
}

/// The meters carried by meter data message `msg`.
pub fn decode_meter_data(msg: &[u8]) -> (res: Vec<Meter>)
    requires
        is_meter_data(msg@),
    ensures
        res@ == meter_values(msg@),
{
    let payload = vstd::slice::slice_subrange(msg, 10, msg.len() - 1);
    let raw = unpack_bytes(payload);
    meters_from_bytes(raw.as_slice())
}

} // verus!
