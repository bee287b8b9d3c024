//! MIDI messages and high-level Qu events.
//!
//! Raw MIDI messages and the semantic events that a Qu mixer produces or
//! accepts, over the protocol's byte-level representation.

use vstd::prelude::*;
use crate::channels::{Channel, SendDestination, channel_label, destination_label};
use crate::meters::Meter;
use crate::parameters::{Parameter, parameter_name};
use crate::text::{
    decimal, decimal_items, decimal_list, hex_byte, hex_list, push_char, push_decimal,
    push_hex_byte, push_str,
};

verus! {

/// A raw MIDI message.
#[derive(Debug, Clone, PartialEq, Eq)]
pub enum MidiMessage {
    ControlChange { channel: u8, controller: u8, value: u8 },
    NoteOn { channel: u8, note: u8, velocity: u8 },
    NoteOff { channel: u8, note: u8, velocity: u8 },
    ProgramChange { channel: u8, program: u8 },
    SysEx(Vec<u8>),
    ActiveSense,
}

/// A semantic event of the Qu protocol.
#[derive(Debug, Clone, PartialEq, Eq)]
pub enum QuEvent {
    ActiveSense,
    Mute { channel: Channel, muted: bool },
    Fader { channel: Channel, value: u8 },
    Pan { channel: Channel, destination: SendDestination, value: u8 },
    SendLevel { channel: Channel, destination: SendDestination, value: u8 },
    Pafl { channel: Channel, enabled: bool },
    PhantomPower { channel: Channel, enabled: bool },
    LRAssign { channel: Channel, enabled: bool },
    Polarity { channel: Channel, reversed: bool },
    Parameter { channel: Channel, parameter: Parameter, value: u8, index: u8 },
    SysEx(Vec<u8>),
    ProgramChange { channel: u8, program: u8 },
    Midi(MidiMessage),
    Unknown(Vec<u8>),
    Meters { values: Vec<Meter> },
}

/// The mathematical value of a [`MidiMessage`]: its byte vectors as sequences.
pub enum MidiModel {
    ControlChange { channel: u8, controller: u8, value: u8 },
    NoteOn { channel: u8, note: u8, velocity: u8 },
    NoteOff { channel: u8, note: u8, velocity: u8 },
    ProgramChange { channel: u8, program: u8 },
    SysEx(Seq<u8>),
    ActiveSense,
}

/// The mathematical value of a [`QuEvent`]: its vectors as sequences.
pub enum EventModel {
    ActiveSense,
    Mute { channel: Channel, muted: bool },
    Fader { channel: Channel, value: u8 },
    Pan { channel: Channel, destination: SendDestination, value: u8 },
    SendLevel { channel: Channel, destination: SendDestination, value: u8 },
    Pafl { channel: Channel, enabled: bool },
    PhantomPower { channel: Channel, enabled: bool },
    LRAssign { channel: Channel, enabled: bool },
    Polarity { channel: Channel, reversed: bool },
    Parameter { channel: Channel, parameter: Parameter, value: u8, index: u8 },
    SysEx(Seq<u8>),
    ProgramChange { channel: u8, program: u8 },
    Midi(MidiModel),
    Unknown(Seq<u8>),
    Meters(Seq<Meter>),
}

impl View for MidiMessage {
    type V = MidiModel;

    open spec fn view(&self) -> MidiModel {
        match self {
            MidiMessage::ControlChange { channel, controller, value } => MidiModel::ControlChange {
                channel: *channel,
                controller: *controller,
                value: *value,
            },
            MidiMessage::NoteOn { channel, note, velocity } => MidiModel::NoteOn {
                channel: *channel,
                note: *note,
                velocity: *velocity,
            },
            MidiMessage::NoteOff { channel, note, velocity } => MidiModel::NoteOff {
                channel: *channel,
                note: *note,
                velocity: *velocity,
            },
            MidiMessage::ProgramChange { channel, program } => MidiModel::ProgramChange {
                channel: *channel,
                program: *program,
            },
            MidiMessage::SysEx(data) => MidiModel::SysEx(data@),
            MidiMessage::ActiveSense => MidiModel::ActiveSense,
        }
    }
}

impl View for QuEvent {
    type V = EventModel;

    open spec fn view(&self) -> EventModel {
        match self {
            QuEvent::ActiveSense => EventModel::ActiveSense,
            QuEvent::Mute { channel, muted } => EventModel::Mute { channel: *channel, muted: *muted },
            QuEvent::Fader { channel, value } => EventModel::Fader { channel: *channel, value: *value },
            QuEvent::Pan { channel, destination, value } => EventModel::Pan {
                channel: *channel,
                destination: *destination,
                value: *value,
            },
            QuEvent::SendLevel { channel, destination, value } => EventModel::SendLevel {
                channel: *channel,
                destination: *destination,
                value: *value,
            },
            QuEvent::Pafl { channel, enabled } => EventModel::Pafl { channel: *channel, enabled: *enabled },
            QuEvent::PhantomPower { channel, enabled } => EventModel::PhantomPower {
                channel: *channel,
                enabled: *enabled,
            },
            QuEvent::LRAssign { channel, enabled } => EventModel::LRAssign {
                channel: *channel,
                enabled: *enabled,
            },
            QuEvent::Polarity { channel, reversed } => EventModel::Polarity {
                channel: *channel,
                reversed: *reversed,
            },
            QuEvent::Parameter { channel, parameter, value, index } => EventModel::Parameter {
                channel: *channel,
                parameter: *parameter,
                value: *value,
                index: *index,
            },
            QuEvent::SysEx(data) => EventModel::SysEx(data@),
            QuEvent::ProgramChange { channel, program } => EventModel::ProgramChange {
                channel: *channel,
                program: *program,
            },
            QuEvent::Midi(message) => EventModel::Midi(message@),
            QuEvent::Unknown(data) => EventModel::Unknown(data@),
            QuEvent::Meters { values } => EventModel::Meters(values@),
        }
    }
}

/// The text of a `bool` shown as `ON` or `OFF`.
pub open spec fn on_off(b: bool) -> Seq<char> {
    if b {
        "ON"@
    } else {
        "OFF"@
    }
}

/// The position text of a pan value.
pub open spec fn pan_position(value: u8) -> Seq<char> {
    if value == 0x00 {
        "full left"@
    } else if value == 0x25 {
        "centre"@
    } else if value == 0x4a {
        "full right"@
    } else {
        "raw "@ + hex_byte(value)
    }
}

/// The debug text of a MIDI message, as `{:?}` shows it.
pub open spec fn midi_debug(m: MidiModel) -> Seq<char> {
    match m {
        MidiModel::ControlChange { channel, controller, value } => "ControlChange { channel: "@
            + decimal(channel as nat) + ", controller: "@ + decimal(controller as nat) + ", value: "@
            + decimal(value as nat) + " }"@,
        MidiModel::NoteOn { channel, note, velocity } => "NoteOn { channel: "@ + decimal(channel as nat)
            + ", note: "@ + decimal(note as nat) + ", velocity: "@ + decimal(velocity as nat) + " }"@,
        MidiModel::NoteOff { channel, note, velocity } => "NoteOff { channel: "@ + decimal(channel as nat)
            + ", note: "@ + decimal(note as nat) + ", velocity: "@ + decimal(velocity as nat) + " }"@,
        MidiModel::ProgramChange { channel, program } => "ProgramChange { channel: "@ + decimal(
            channel as nat,
        ) + ", program: "@ + decimal(program as nat) + " }"@,
        MidiModel::SysEx(data) => "SysEx("@ + decimal_list(data) + ")"@,
        MidiModel::ActiveSense => "ActiveSense"@,
    }
}

/// The human-readable description of event `e`; `level` is the text of
/// the dB level that goes with a fader or send-level value.
pub open spec fn event_description(e: EventModel, level: Seq<char>) -> Seq<char> {
    match e {
        EventModel::ActiveSense => "Active Sense"@,
        EventModel::Fader { channel, value } => channel_label(channel.0) + " Fader: "@ + level
            + " (MIDI "@ + hex_byte(value) + ")"@,
        EventModel::SendLevel { channel, destination, value } => channel_label(channel.0) + " "@
            + destination_label(destination) + " send: "@ + level + " (MIDI "@ + hex_byte(value)
            + ")"@,
        EventModel::Pan { channel, destination, value } => channel_label(channel.0) + " Pan ("@
            + destination_label(destination) + "): "@ + pan_position(value),
        EventModel::Mute { channel, muted } => channel_label(channel.0) + " MUTE: "@ + on_off(muted),
        EventModel::Pafl { channel, enabled } => channel_label(channel.0) + " PAFL: "@ + on_off(enabled),
        EventModel::PhantomPower { channel, enabled } => channel_label(channel.0) + " Phantom Power: "@
            + on_off(enabled),
        EventModel::LRAssign { channel, enabled } => channel_label(channel.0) + " LR Assign: "@ + on_off(
            enabled,
        ),
        EventModel::Polarity { channel, reversed } => channel_label(channel.0) + " Polarity: "@ + (if reversed {
            "REVERSED"@
        } else {
            "normal"@
        }),
        EventModel::Parameter { channel, parameter, value, index } => channel_label(channel.0) + " "@
            + parameter_name(parameter) + ": value="@ + hex_byte(value) + " index="@ + hex_byte(index),
        EventModel::SysEx(data) => "SysEx: "@ + hex_list(data),
        EventModel::ProgramChange { channel, program } => "Program Change: channel="@ + decimal(
            (channel + 1) as nat,
        ) + " program="@ + decimal(program as nat),
        EventModel::Midi(message) => midi_debug(message),
        EventModel::Unknown(data) => "Unknown: "@ + hex_list(data),
        EventModel::Meters(values) => "Meters: "@ + decimal(values.len()) + " values"@,
    }
}

/// Bytes as space-separated pairs of upper-case hexadecimal digits.
pub fn hex(data: &[u8]) -> (res: String)
    ensures
        res@ == hex_list(data@),
{
    let mut s = String::new();
    let mut i: usize = 0;
    while i < data.len()
        invariant
            i <= data@.len(),
            s@ == hex_list(data@.subrange(0, i as int)),
        decreases data@.len() - i,
    {
        let ghost prefix = data@.subrange(0, i as int);
        if i > 0 {
            push_char(&mut s, ' ');
        }
        push_hex_byte(&mut s, data[i]);
        i = i + 1;
        proof {
            let next = data@.subrange(0, i as int);
            assert(next.drop_last() =~= prefix);
            if i == 1 {
                assert(s@ =~= hex_list(next));
            } else {
                assert(s@ =~= hex_list(next));
            }
        }
    }
    assert(data@.subrange(0, data@.len() as int) =~= data@);
    s
}

/// Appends the bytes `data` in the form `[1, 2, 3]`.
fn push_decimal_list(s: &mut String, data: &[u8])
    ensures
        final(s)@ == old(s)@ + decimal_list(data@),
{
    push_char(s, '[');
    let ghost start = s@;
    let mut i: usize = 0;
    while i < data.len()
        invariant
            i <= data@.len(),
            s@ == start + decimal_items(data@.subrange(0, i as int)),
        decreases data@.len() - i,
    {
        let ghost prefix = data@.subrange(0, i as int);
        if i > 0 {
            proof {
                reveal_strlit(", ");
            }
            push_str(s, ", ");
        }
        push_decimal(s, data[i] as u64);
        i = i + 1;
        proof {
            let next = data@.subrange(0, i as int);
            assert(next.drop_last() =~= prefix);
            assert(s@ =~= start + decimal_items(next));
        }
    }
    assert(data@.subrange(0, data@.len() as int) =~= data@);
    push_char(s, ']');
    assert(s@ =~= old(s)@ + decimal_list(data@));
}

fn push_on_off(s: &mut String, b: bool)
    ensures
        final(s)@ == old(s)@ + on_off(b),
{
    if b {
        push_str(s, "ON");
    } else {
        push_str(s, "OFF");
    }
}

impl MidiMessage {
    /// The message as `{:?}` shows it.
    pub fn debug_text(&self) -> (res: String)
        ensures
            res@ == midi_debug(self@),
    {
        let mut s = String::new();
        match self {
            MidiMessage::ControlChange { channel, controller, value } => {
                push_str(&mut s, "ControlChange { channel: ");
                push_decimal(&mut s, *channel as u64);
                push_str(&mut s, ", controller: ");
                push_decimal(&mut s, *controller as u64);
                push_str(&mut s, ", value: ");
                push_decimal(&mut s, *value as u64);
                push_str(&mut s, " }");
            },
            MidiMessage::NoteOn { channel, note, velocity } => {
                push_str(&mut s, "NoteOn { channel: ");
                push_decimal(&mut s, *channel as u64);
                push_str(&mut s, ", note: ");
                push_decimal(&mut s, *note as u64);
                push_str(&mut s, ", velocity: ");
                push_decimal(&mut s, *velocity as u64);
                push_str(&mut s, " }");
            },
            MidiMessage::NoteOff { channel, note, velocity } => {
                push_str(&mut s, "NoteOff { channel: ");
                push_decimal(&mut s, *channel as u64);
                push_str(&mut s, ", note: ");
                push_decimal(&mut s, *note as u64);
                push_str(&mut s, ", velocity: ");
                push_decimal(&mut s, *velocity as u64);
                push_str(&mut s, " }");
            },
            MidiMessage::ProgramChange { channel, program } => {
                push_str(&mut s, "ProgramChange { channel: ");
                push_decimal(&mut s, *channel as u64);
                push_str(&mut s, ", program: ");
                push_decimal(&mut s, *program as u64);
                push_str(&mut s, " }");
            },
            MidiMessage::SysEx(data) => {
                push_str(&mut s, "SysEx(");
                push_decimal_list(&mut s, data.as_slice());
                push_str(&mut s, ")");
            },
            MidiMessage::ActiveSense => {
                push_str(&mut s, "ActiveSense");
            },
        }
        s
    }
}

impl QuEvent {
    /// A human-readable description of the event. `level` is the text of
    /// the dB level of a fader or send-level value (for example
    /// `-5.0 dB` or `-inf dB`); other events do not use it.
    pub fn describe(&self, level: &str) -> (res: String)
        requires
            self matches QuEvent::ProgramChange { channel, .. } ==> channel < 255,
        ensures
            res@ == event_description(self@, level@),
    {
        let mut s = String::new();
        match self {
            QuEvent::ActiveSense => {
                push_str(&mut s, "Active Sense");
            },
            QuEvent::Fader { channel, value } => {
                let label = channel.label();
                push_str(&mut s, label.as_str());
                push_str(&mut s, " Fader: ");
                push_str(&mut s, level);
                push_str(&mut s, " (MIDI ");
                push_hex_byte(&mut s, *value);
                push_str(&mut s, ")");
            },
            QuEvent::SendLevel { channel, destination, value } => {
                let label = channel.label();
                let dest = destination.label();
                push_str(&mut s, label.as_str());
                push_str(&mut s, " ");
                push_str(&mut s, dest.as_str());
                push_str(&mut s, " send: ");
                push_str(&mut s, level);
                push_str(&mut s, " (MIDI ");
                push_hex_byte(&mut s, *value);
                push_str(&mut s, ")");
            },
            QuEvent::Pan { channel, destination, value } => {
                let label = channel.label();
                let dest = destination.label();
                push_str(&mut s, label.as_str());
                push_str(&mut s, " Pan (");
                push_str(&mut s, dest.as_str());
                push_str(&mut s, "): ");
                if *value == 0x00 {
                    push_str(&mut s, "full left");
                } else if *value == 0x25 {
                    push_str(&mut s, "centre");
                } else if *value == 0x4a {
                    push_str(&mut s, "full right");
                } else {
                    push_str(&mut s, "raw ");
                    push_hex_byte(&mut s, *value);
                }
            },
            QuEvent::Mute { channel, muted } => {
                let label = channel.label();
                push_str(&mut s, label.as_str());
                push_str(&mut s, " MUTE: ");
                push_on_off(&mut s, *muted);
            },
            QuEvent::Pafl { channel, enabled } => {
                let label = channel.label();
                push_str(&mut s, label.as_str());
                push_str(&mut s, " PAFL: ");
                push_on_off(&mut s, *enabled);
            },
            QuEvent::PhantomPower { channel, enabled } => {
                let label = channel.label();
                push_str(&mut s, label.as_str());
                push_str(&mut s, " Phantom Power: ");
                push_on_off(&mut s, *enabled);
            },
            QuEvent::LRAssign { channel, enabled } => {
                let label = channel.label();
                push_str(&mut s, label.as_str());
                push_str(&mut s, " LR Assign: ");
                push_on_off(&mut s, *enabled);
            },
            QuEvent::Polarity { channel, reversed } => {
                let label = channel.label();
                push_str(&mut s, label.as_str());
                push_str(&mut s, " Polarity: ");
                if *reversed {
                    push_str(&mut s, "REVERSED");
                } else {
                    push_str(&mut s, "normal");
                }
            },
            QuEvent::Parameter { channel, parameter, value, index } => {
                let label = channel.label();
                push_str(&mut s, label.as_str());
                push_str(&mut s, " ");
                push_str(&mut s, parameter.name());
                push_str(&mut s, ": value=");
                push_hex_byte(&mut s, *value);
                push_str(&mut s, " index=");
                push_hex_byte(&mut s, *index);
            },
            QuEvent::SysEx(data) => {
                let text = hex(data.as_slice());
                push_str(&mut s, "SysEx: ");
                push_str(&mut s, text.as_str());
            },
            QuEvent::ProgramChange { channel, program } => {
                push_str(&mut s, "Program Change: channel=");
                push_decimal(&mut s, (*channel + 1) as u64);
                push_str(&mut s, " program=");
                push_decimal(&mut s, *program as u64);
            },
            QuEvent::Midi(message) => {
                let text = message.debug_text();
                push_str(&mut s, text.as_str());
            },
            QuEvent::Unknown(data) => {
                let text = hex(data.as_slice());
                push_str(&mut s, "Unknown: ");
                push_str(&mut s, text.as_str());
            },
            QuEvent::Meters { values } => {
                push_str(&mut s, "Meters: ");
                push_decimal(&mut s, values.len() as u64);
                push_str(&mut s, " values");
            },
        }
        proof {
            assert(s@ =~= event_description(self@, level@));
        }
        s
    }
}

/// The pan positions of the protocol are named: value `0x00` is full left,
/// `0x25` the centre and `0x4A` full right; any other value is shown raw,
/// in hexadecimal.
pub proof fn pan_positions_are_named(value: u8)
    ensures
        pan_position(0x00) == "full left"@,
        pan_position(0x25) == "centre"@,
        pan_position(0x4a) == "full right"@,
        value != 0x00 && value != 0x25 && value != 0x4a ==> pan_position(value) == "raw "@ + hex_byte(value),
{
}

} // verus!
