//! Qu mixer channel and routing identifiers.
//!
//! Defines the channel, strip, and send-destination identifiers used by the
//! Qu MIDI protocol, as typed representations of its numeric channel IDs.

use vstd::prelude::*;
use crate::text::{decimal, hex_byte, push_decimal, push_hex_byte, push_str};

verus! {

/// A Qu MIDI channel/strip identifier (the protocol's CH value).
#[derive(Debug, Clone, Copy, PartialEq, Eq, Hash, Structural)]
pub struct Channel(pub u8);

/// The channel `base + number - 1` when `1 <= number <= hi`, otherwise none.
pub open spec fn numbered(number: u8, hi: u8, base: u8) -> Option<Channel> {
    if 1 <= number <= hi {
        Some(Channel((base + number - 1) as u8))
    } else {
        None
    }
}

impl Channel {
    /// Input channel (CH) `number`, 1..=32.
    pub fn input(number: u8) -> (res: Option<Self>)
        ensures
            res == numbered(number, 32, 0x20),
    {
        if 1 <= number && number <= 32 {
            Some(Channel(0x20 + number - 1))
        } else {
            None
        }
    }

    /// Stereo input (ST) `number`, 1..=3.
    pub fn stereo(number: u8) -> (res: Option<Self>)
        ensures
            res == numbered(number, 3, 0x40),
    {
        if 1 <= number && number <= 3 {
            Some(Channel(0x40 + number - 1))
        } else {
            None
        }
    }

    /// Mute group (MG) `number`, 1..=4.
    pub fn mute_group(number: u8) -> (res: Option<Self>)
        ensures
            res == numbered(number, 4, 0x50),
    {
        if 1 <= number && number <= 4 {
            Some(Channel(0x50 + number - 1))
        } else {
            None
        }
    }

    /// Mix (MIX) `number`, 1..=10, counted from `0x60`.
    pub fn mix(number: u8) -> (res: Option<Self>)
        ensures
            res == numbered(number, 10, 0x60),
    {
        if 1 <= number && number <= 10 {
            Some(Channel(0x60 + number - 1))
        } else {
            None
        }
    }

    /// The main LR mix (the 8th mix, treated as a special case).
    pub fn lr() -> (res: Self)
        ensures
            res == Channel(0x67),
    {
        Channel(0x67)
    }

    /// Group (GRP) `number`, 1..=4.
    pub fn group(number: u8) -> (res: Option<Self>)
        ensures
            res == numbered(number, 4, 0x68),
    {
        if 1 <= number && number <= 4 {
            Some(Channel(0x68 + number - 1))
        } else {
            None
        }
    }

    /// Matrix (MT) `number`, 1..=2.
    pub fn matrix(number: u8) -> (res: Option<Self>)
        ensures
            res == numbered(number, 2, 0x6c),
    {
        match number {
            1 => Some(Channel(0x6c)),
            2 => Some(Channel(0x6d)),
            _ => None,
        }
    }

    /// DCA group (DG) `number`, 1..=4.
    pub fn dca(number: u8) -> (res: Option<Self>)
        ensures
            res == numbered(number, 4, 0x10),
    {
        if 1 <= number && number <= 4 {
            Some(Channel(0x10 + number - 1))
        } else {
            None
        }
    }

    /// FX send `number`, 1..=4.
    pub fn fx_send(number: u8) -> (res: Option<Self>)
        ensures
            res == numbered(number, 4, 0x00),
    {
        if 1 <= number && number <= 4 {
            Some(Channel(number - 1))
        } else {
            None
        }
    }

    /// FX return `number`, 1..=4.
    pub fn fx_return(number: u8) -> (res: Option<Self>)
        ensures
            res == numbered(number, 4, 0x08),
    {
        if 1 <= number && number <= 4 {
            Some(Channel(0x08 + number - 1))
        } else {
            None
        }
    }

    /// The protocol's numeric channel identifier.
    pub fn raw(self) -> (res: u8)
        ensures
            res == self.0,
    {
        self.0
    }

    /// The channel with identifier `value`, restricted to 7 bits.
    pub fn from_raw(value: u8) -> (res: Self)
        ensures
            res == Channel((value % 128) as u8),
    {
        assert(value & 0x7f == value % 128) by (bit_vector);
        Channel(value & 0x7f)
    }

    /// The channel's human-readable Qu designation, such as `CH1`, `ST1`
    /// or `Mix 1`; an unrecognised identifier is shown in hexadecimal.
    pub fn label(&self) -> (res: String)
        ensures
            res@ == channel_label(self.0),
    {
        let raw = self.0;
        let mut s = String::new();
        if raw <= 0x03 {
            push_str(&mut s, "FX Send ");
            push_decimal(&mut s, (raw + 1) as u64);
        } else if 0x08 <= raw && raw <= 0x0b {
            push_str(&mut s, "FX Return ");
            push_decimal(&mut s, (raw - 0x08 + 1) as u64);
        } else if 0x10 <= raw && raw <= 0x13 {
            push_str(&mut s, "DCA ");
            push_decimal(&mut s, (raw - 0x10 + 1) as u64);
        } else if 0x20 <= raw && raw <= 0x3f {
            push_str(&mut s, "CH");
            push_decimal(&mut s, (raw - 0x20 + 1) as u64);
        } else if 0x40 <= raw && raw <= 0x42 {
            push_str(&mut s, "ST");
            push_decimal(&mut s, (raw - 0x40 + 1) as u64);
        } else if 0x50 <= raw && raw <= 0x53 {
            push_str(&mut s, "Mute Group ");
            push_decimal(&mut s, (raw - 0x50 + 1) as u64);
        } else if 0x60 <= raw && raw <= 0x66 {
            push_str(&mut s, "Mix ");
            push_decimal(&mut s, (raw - 0x60 + 1) as u64);
        } else if raw == 0x67 {
            push_str(&mut s, "LR");
        } else if 0x68 <= raw && raw <= 0x6b {
            push_str(&mut s, "Group ");
            push_decimal(&mut s, (raw - 0x68 + 1) as u64);
        } else if raw == 0x6c {
            push_str(&mut s, "Matrix 1-2");
        } else if raw == 0x6d {
            push_str(&mut s, "Matrix 3-4");
        } else {
            push_str(&mut s, "Channel 0x");
            push_hex_byte(&mut s, raw);
        }
        s
    }
}

/// The human-readable designation of channel identifier `raw`.
pub open spec fn channel_label(raw: u8) -> Seq<char> {
    if raw <= 0x03 {
        "FX Send "@ + decimal((raw + 1) as nat)
    } else if 0x08 <= raw <= 0x0b {
        "FX Return "@ + decimal((raw - 0x08 + 1) as nat)
    } else if 0x10 <= raw <= 0x13 {
        "DCA "@ + decimal((raw - 0x10 + 1) as nat)
    } else if 0x20 <= raw <= 0x3f {
        "CH"@ + decimal((raw - 0x20 + 1) as nat)
    } else if 0x40 <= raw <= 0x42 {
        "ST"@ + decimal((raw - 0x40 + 1) as nat)
    } else if 0x50 <= raw <= 0x53 {
        "Mute Group "@ + decimal((raw - 0x50 + 1) as nat)
    } else if 0x60 <= raw <= 0x66 {
        "Mix "@ + decimal((raw - 0x60 + 1) as nat)
    } else if raw == 0x67 {
        "LR"@
    } else if 0x68 <= raw <= 0x6b {
        "Group "@ + decimal((raw - 0x68 + 1) as nat)
    } else if raw == 0x6c {
        "Matrix 1-2"@
    } else if raw == 0x6d {
        "Matrix 3-4"@
    } else {
        "Channel 0x"@ + hex_byte(raw)
    }
}

/// A possible destination of a channel send, by the protocol's destination
/// (VX) index. `Unknown` keeps an unrecognised index unchanged.
#[derive(Debug, Clone, Copy, PartialEq, Eq, Hash, Structural)]
pub enum SendDestination {
    Mix1,
    Mix2,
    Mix3,
    Mix4,
    Mix5_6,
    Mix7_8,
    Mix9_10,
    Lr,
    Group1_2,
    Group3_4,
    Group5_6,
    Group7_8,
    Matrix1_2,
    Matrix3_4,
    FxSend1,
    FxSend2,
    FxSend3,
    FxSend4,
    Unknown(u8),
}

/// The destination that protocol index `index` stands for.
pub open spec fn destination_of(index: u8) -> SendDestination {
    match index {
        0x00 => SendDestination::Mix1,
        0x01 => SendDestination::Mix2,
        0x02 => SendDestination::Mix3,
        0x03 => SendDestination::Mix4,
        0x04 => SendDestination::Mix5_6,
        0x05 => SendDestination::Mix7_8,
        0x06 => SendDestination::Mix9_10,
        0x07 => SendDestination::Lr,
        0x08 => SendDestination::Group1_2,
        0x09 => SendDestination::Group3_4,
        0x0a => SendDestination::Group5_6,
        0x0b => SendDestination::Group7_8,
        0x0c => SendDestination::Matrix1_2,
        0x0d => SendDestination::Matrix3_4,
        0x10 => SendDestination::FxSend1,
        0x11 => SendDestination::FxSend2,
        0x12 => SendDestination::FxSend3,
        0x13 => SendDestination::FxSend4,
        other => SendDestination::Unknown(other),
    }
}

/// The protocol index of destination `d`.
pub open spec fn index_of(d: SendDestination) -> u8 {
    match d {
        SendDestination::Mix1 => 0x00,
        SendDestination::Mix2 => 0x01,
        SendDestination::Mix3 => 0x02,
        SendDestination::Mix4 => 0x03,
        SendDestination::Mix5_6 => 0x04,
        SendDestination::Mix7_8 => 0x05,
        SendDestination::Mix9_10 => 0x06,
        SendDestination::Lr => 0x07,
        SendDestination::Group1_2 => 0x08,
        SendDestination::Group3_4 => 0x09,
        SendDestination::Group5_6 => 0x0a,
        SendDestination::Group7_8 => 0x0b,
        SendDestination::Matrix1_2 => 0x0c,
        SendDestination::Matrix3_4 => 0x0d,
        SendDestination::FxSend1 => 0x10,
        SendDestination::FxSend2 => 0x11,
        SendDestination::FxSend3 => 0x12,
        SendDestination::FxSend4 => 0x13,
        SendDestination::Unknown(value) => value,
    }
}

/// The human-readable designation of destination `d`.
pub open spec fn destination_label(d: SendDestination) -> Seq<char> {
    match d {
        SendDestination::Mix1 => "Mix 1"@,
        SendDestination::Mix2 => "Mix 2"@,
        SendDestination::Mix3 => "Mix 3"@,
        SendDestination::Mix4 => "Mix 4"@,
        SendDestination::Mix5_6 => "Mix 5-6"@,
        SendDestination::Mix7_8 => "Mix 7-8"@,
        SendDestination::Mix9_10 => "Mix 9-10"@,
        SendDestination::Lr => "LR"@,
        SendDestination::Group1_2 => "Group 1-2"@,
        SendDestination::Group3_4 => "Group 3-4"@,
        SendDestination::Group5_6 => "Group 5-6"@,
        SendDestination::Group7_8 => "Group 7-8"@,
        SendDestination::Matrix1_2 => "Matrix 1-2"@,
        SendDestination::Matrix3_4 => "Matrix 3-4"@,
        SendDestination::FxSend1 => "FX Send 1"@,
        SendDestination::FxSend2 => "FX Send 2"@,
        SendDestination::FxSend3 => "FX Send 3"@,
        SendDestination::FxSend4 => "FX Send 4"@,
        SendDestination::Unknown(value) => "Index 0x"@ + hex_byte(value),
    }
}

impl SendDestination {
    /// The typed destination of a send-destination (VX) index; an
    /// unrecognised index is kept as `Unknown`.
    pub fn from_index(index: u8) -> (res: Self)
        ensures
            res == destination_of(index),
    {
        match index {
            0x00 => SendDestination::Mix1,
            0x01 => SendDestination::Mix2,
            0x02 => SendDestination::Mix3,
            0x03 => SendDestination::Mix4,
            0x04 => SendDestination::Mix5_6,
            0x05 => SendDestination::Mix7_8,
            0x06 => SendDestination::Mix9_10,
            0x07 => SendDestination::Lr,
            0x08 => SendDestination::Group1_2,
            0x09 => SendDestination::Group3_4,
            0x0a => SendDestination::Group5_6,
            0x0b => SendDestination::Group7_8,
            0x0c => SendDestination::Matrix1_2,
            0x0d => SendDestination::Matrix3_4,
            0x10 => SendDestination::FxSend1,
            0x11 => SendDestination::FxSend2,
            0x12 => SendDestination::FxSend3,
            0x13 => SendDestination::FxSend4,
            other => SendDestination::Unknown(other),
        }
    }

    /// The raw protocol index of the destination; for `Unknown`, the
    /// unrecognised index unchanged.
    pub fn index(self) -> (res: u8)
        ensures
            res == index_of(self),
    {
        match self {
            SendDestination::Mix1 => 0x00,
            SendDestination::Mix2 => 0x01,
            SendDestination::Mix3 => 0x02,
            SendDestination::Mix4 => 0x03,
            SendDestination::Mix5_6 => 0x04,
            SendDestination::Mix7_8 => 0x05,
            SendDestination::Mix9_10 => 0x06,
            SendDestination::Lr => 0x07,
            SendDestination::Group1_2 => 0x08,
            SendDestination::Group3_4 => 0x09,
            SendDestination::Group5_6 => 0x0a,
            SendDestination::Group7_8 => 0x0b,
            SendDestination::Matrix1_2 => 0x0c,
            SendDestination::Matrix3_4 => 0x0d,
            SendDestination::FxSend1 => 0x10,
            SendDestination::FxSend2 => 0x11,
            SendDestination::FxSend3 => 0x12,
            SendDestination::FxSend4 => 0x13,
            SendDestination::Unknown(value) => value,
        }
    }

    /// The destination's human-readable Qu designation, such as `Mix 5-6`.
    pub fn label(&self) -> (res: String)
        ensures
            res@ == destination_label(*self),
    {
        let mut s = String::new();
        match *self {
            SendDestination::Mix1 => push_str(&mut s, "Mix 1"),
            SendDestination::Mix2 => push_str(&mut s, "Mix 2"),
            SendDestination::Mix3 => push_str(&mut s, "Mix 3"),
            SendDestination::Mix4 => push_str(&mut s, "Mix 4"),
            SendDestination::Mix5_6 => push_str(&mut s, "Mix 5-6"),
            SendDestination::Mix7_8 => push_str(&mut s, "Mix 7-8"),
            SendDestination::Mix9_10 => push_str(&mut s, "Mix 9-10"),
            SendDestination::Lr => push_str(&mut s, "LR"),
            SendDestination::Group1_2 => push_str(&mut s, "Group 1-2"),
            SendDestination::Group3_4 => push_str(&mut s, "Group 3-4"),
            SendDestination::Group5_6 => push_str(&mut s, "Group 5-6"),
            SendDestination::Group7_8 => push_str(&mut s, "Group 7-8"),
            SendDestination::Matrix1_2 => push_str(&mut s, "Matrix 1-2"),
            SendDestination::Matrix3_4 => push_str(&mut s, "Matrix 3-4"),
            SendDestination::FxSend1 => push_str(&mut s, "FX Send 1"),
            SendDestination::FxSend2 => push_str(&mut s, "FX Send 2"),
            SendDestination::FxSend3 => push_str(&mut s, "FX Send 3"),
            SendDestination::FxSend4 => push_str(&mut s, "FX Send 4"),
            SendDestination::Unknown(value) => {
                push_str(&mut s, "Index 0x");
                push_hex_byte(&mut s, value);
            },
        }
        s
    }
}

/// Every index reads back unchanged through its destination:
/// `from_index(i).index() == i` for all `i`.
pub proof fn index_round_trip(index: u8)
    ensures
        index_of(destination_of(index)) == index,
{
}

/// Every destination other than an `Unknown` that holds a recognised index
/// is found again from its index: `from_index(d.index()) == d`.
pub proof fn destination_round_trip(d: SendDestination)
    requires
        d matches SendDestination::Unknown(v) ==> destination_of(v) == SendDestination::Unknown(v),
    ensures
        destination_of(index_of(d)) == d,
{
}

} // verus!
