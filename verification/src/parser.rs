//! Parser for incoming Qu MIDI protocol data.
//!
//! Turns a stream of MIDI bytes into structured Qu events, handling MIDI
//! message framing, running status, SysEx messages, MIDI real-time bytes,
//! and the multi-message NRPN sequences of the Qu protocol. The parser keeps
//! its state between calls, so a message split across buffers is assembled
//! as if it had arrived in one.

use vstd::prelude::*;
use crate::channels::{Channel, SendDestination, destination_of};
use crate::messages::{EventModel, MidiMessage, MidiModel, QuEvent};
use crate::meters::{decode_meter_data, is_meter_data, meter_data_message, meter_values};
use crate::parameters::{Parameter, parameter_of};

verus! {

/// The NRPN components received so far.
pub struct NrpnModel {
    pub channel: Option<u8>,
    pub parameter: Option<u8>,
    pub value_msb: Option<u8>,
    pub value_lsb: Option<u8>,
}

/// The state of a [`Parser`].
pub struct ParserModel {
    /// The status byte of the current channel message, if any.
    pub running_status: Option<u8>,
    /// The data bytes of the channel message being assembled.
    pub data: Seq<u8>,
    /// The SysEx message being assembled, if one has started.
    pub sysex: Option<Seq<u8>>,
    /// The NRPN components received so far.
    pub nrpn: NrpnModel,
}

/// The state of a new parser.
pub open spec fn fresh_parser() -> ParserModel {
    ParserModel {
        running_status: None,
        data: Seq::empty(),
        sysex: None,
        nrpn: NrpnModel { channel: None, parameter: None, value_msb: None, value_lsb: None },
    }
}

/// The views of a sequence of events.
pub open spec fn views(events: Seq<QuEvent>) -> Seq<EventModel> {
    events.map_values(|e: QuEvent| e@)
}

/// The event of a complete SysEx message: meter data becomes `Meters`,
/// anything else is passed on as `SysEx`.
pub open spec fn sysex_event(msg: Seq<u8>) -> EventModel {
    if is_meter_data(msg) {
        EventModel::Meters(meter_values(msg))
    } else {
        EventModel::SysEx(msg)
    }
}

/// The state after status byte `status` (`0x80..=0xF7`): SysEx start begins a
/// SysEx, system messages end running status, channel messages set it.
pub open spec fn status_step(s: ParserModel, status: u8) -> ParserModel {
    if status == 0xf0 {
        ParserModel { sysex: Some(seq![0xf0u8]), running_status: None, data: Seq::empty(), ..s }
    } else if status >= 0xf1 {
        ParserModel { running_status: None, data: Seq::empty(), ..s }
    } else {
        ParserModel { running_status: Some(status), data: Seq::empty(), ..s }
    }
}

/// The first data byte, or zero.
pub open spec fn first_or_zero(data: Seq<u8>) -> u8 {
    if data.len() > 0 {
        data[0]
    } else {
        0
    }
}

/// The second data byte, or zero.
pub open spec fn second_or_zero(data: Seq<u8>) -> u8 {
    if data.len() > 1 {
        data[1]
    } else {
        0
    }
}

/// The raw MIDI message of status `status` and data bytes `data`.
pub open spec fn midi_from_raw(status: u8, data: Seq<u8>) -> MidiModel {
    let channel = (status % 16) as u8;
    let kind = status / 16;
    if kind == 0x8 {
        MidiModel::NoteOff { channel, note: first_or_zero(data), velocity: second_or_zero(data) }
    } else if kind == 0x9 {
        MidiModel::NoteOn { channel, note: first_or_zero(data), velocity: second_or_zero(data) }
    } else if kind == 0xc {
        MidiModel::ProgramChange { channel, program: first_or_zero(data) }
    } else {
        MidiModel::ControlChange {
            channel,
            controller: first_or_zero(data),
            value: second_or_zero(data),
        }
    }
}

/// The event of a complete Qu NRPN parameter change.
pub open spec fn nrpn_event(channel: Channel, parameter: Parameter, value: u8, index: u8) -> EventModel {
    match parameter {
        Parameter::Fader => EventModel::Fader { channel, value },
        Parameter::SendLevel => EventModel::SendLevel {
            channel,
            destination: destination_of(index),
            value,
        },
        Parameter::Pan => EventModel::Pan { channel, destination: destination_of(index), value },
        Parameter::Local48v => EventModel::PhantomPower { channel, enabled: value != 0 },
        Parameter::LRAssign => EventModel::LRAssign { channel, enabled: value != 0 },
        Parameter::Polarity => EventModel::Polarity { channel, reversed: value != 0 },
        Parameter::Pafl => EventModel::Pafl { channel, enabled: value != 0 },
        _ => EventModel::Parameter { channel, parameter, value, index },
    }
}

/// The bytes of an NRPN sequence whose parameter ID is not known.
pub open spec fn unknown_nrpn(midi_channel: u8, channel: u8, id: u8, msb: u8, value: u8) -> Seq<u8> {
    let s = (0xb0 + midi_channel) as u8;
    seq![s, 0x63u8, channel, s, 0x62u8, id, s, 0x06u8, msb, s, 0x26u8, value]
}

/// The state and events after Control Change `controller`/`value`.
pub open spec fn cc_step(s: ParserModel, midi_channel: u8, controller: u8, value: u8) -> (
    ParserModel,
    Seq<EventModel>,
) {
    let n = s.nrpn;
    if controller == 0x63 {
        (
            ParserModel {
                nrpn: NrpnModel { channel: Some(value), parameter: None, value_msb: None, value_lsb: None },
                ..s
            },
            Seq::empty(),
        )
    } else if controller == 0x62 {
        (ParserModel { nrpn: NrpnModel { parameter: Some(value), ..n }, ..s }, Seq::empty())
    } else if controller == 0x06 {
        (ParserModel { nrpn: NrpnModel { value_msb: Some(value), ..n }, ..s }, Seq::empty())
    } else if controller == 0x26 {
        let s1 = ParserModel { nrpn: NrpnModel { value_lsb: Some(value), ..n }, ..s };
        if n.channel is Some && n.parameter is Some && n.value_msb is Some {
            let channel = n.channel.unwrap();
            let id = n.parameter.unwrap();
            let msb = n.value_msb.unwrap();
            match parameter_of(id) {
                Some(parameter) => (s1, seq![nrpn_event(Channel(channel), parameter, msb, value)]),
                None => (s1, seq![EventModel::Unknown(unknown_nrpn(midi_channel, channel, id, msb, value))]),
            }
        } else {
            (s1, Seq::empty())
        }
    } else {
        (
            s,
            seq![
                EventModel::Midi(MidiModel::ControlChange { channel: midi_channel, controller, value }),
            ],
        )
    }
}

/// The events of a Note On: Qu mutes for notes `0x20..=0x3F` (velocity
/// `0x40` and above mutes, zero is ignored), PAFL select for `0x40..=0x5F`.
pub open spec fn note_on_events(midi_channel: u8, note: u8, velocity: u8) -> Seq<EventModel> {
    if 0x20 <= note <= 0x3f {
        if velocity == 0 {
            Seq::empty()
        } else {
            seq![EventModel::Mute { channel: Channel(note), muted: velocity >= 0x40 }]
        }
    } else if 0x40 <= note <= 0x5f {
        if velocity == 0 {
            Seq::empty()
        } else {
            seq![EventModel::Pafl { channel: Channel(note), enabled: true }]
        }
    } else {
        seq![EventModel::Midi(MidiModel::NoteOn { channel: midi_channel, note, velocity })]
    }
}

/// The events of a Note Off; those for mute notes are ignored.
pub open spec fn note_off_events(midi_channel: u8, note: u8, velocity: u8) -> Seq<EventModel> {
    if 0x20 <= note <= 0x3f {
        Seq::empty()
    } else {
        seq![EventModel::Midi(MidiModel::NoteOff { channel: midi_channel, note, velocity })]
    }
}

/// The state and events of complete channel message `status`/`data`.
pub open spec fn message_step(s: ParserModel, status: u8, data: Seq<u8>) -> (ParserModel, Seq<EventModel>) {
    let kind = status / 16;
    let midi_channel = (status % 16) as u8;
    if kind == 0x8 {
        if data.len() >= 2 {
            (s, note_off_events(midi_channel, data[0], data[1]))
        } else {
            (s, Seq::empty())
        }
    } else if kind == 0x9 {
        if data.len() >= 2 {
            (s, note_on_events(midi_channel, data[0], data[1]))
        } else {
            (s, Seq::empty())
        }
    } else if kind == 0xb {
        if data.len() >= 2 {
            cc_step(s, midi_channel, data[0], data[1])
        } else {
            (s, Seq::empty())
        }
    } else if kind == 0xc {
        if data.len() > 0 {
            (s, seq![EventModel::ProgramChange { channel: midi_channel, program: data[0] }])
        } else {
            (s, Seq::empty())
        }
    } else {
        (s, seq![EventModel::Midi(midi_from_raw(status, data))])
    }
}

/// The number of data bytes of a channel message with status `status`.
pub open spec fn required_data(status: u8) -> int {
    if status / 16 == 0xc || status / 16 == 0xd {
        1
    } else {
        2
    }
}

/// The state and events after one byte.
pub open spec fn step(s: ParserModel, b: u8) -> (ParserModel, Seq<EventModel>) {
    if b >= 0xf8 {
        if b == 0xfe {
            (s, seq![EventModel::ActiveSense])
        } else {
            (s, Seq::empty())
        }
    } else if b == 0xf0 {
        (status_step(s, b), Seq::empty())
    } else if s.sysex is Some {
        let sx = s.sysex.unwrap().push(b);
        if b == 0xf7 {
            (ParserModel { sysex: None, ..s }, seq![sysex_event(sx)])
        } else {
            (ParserModel { sysex: Some(sx), ..s }, Seq::empty())
        }
    } else if b >= 0x80 {
        (status_step(s, b), Seq::empty())
    } else if s.running_status is None {
        (s, seq![EventModel::Unknown(seq![b])])
    } else {
        let status = s.running_status.unwrap();
        let data = s.data.push(b);
        if data.len() < required_data(status) {
            (ParserModel { data, ..s }, Seq::empty())
        } else {
            message_step(ParserModel { data: Seq::empty(), ..s }, status, data)
        }
    }
}

/// The state and events after the bytes `bytes`, in order.
pub open spec fn run(s: ParserModel, bytes: Seq<u8>) -> (ParserModel, Seq<EventModel>)
    decreases bytes.len(),
{
    if bytes.len() == 0 {
        (s, Seq::empty())
    } else {
        let (s1, e1) = run(s, bytes.drop_last());
        let (s2, e2) = step(s1, bytes.last());
        (s2, e1 + e2)
    }
}

/// The NRPN components received so far.
#[derive(Debug)]
struct NRPNState {
    channel: Option<u8>,
    parameter: Option<u8>,
    value_msb: Option<u8>,
    value_lsb: Option<u8>,
}

impl View for NRPNState {
    type V = NrpnModel;

    closed spec fn view(&self) -> NrpnModel {
        NrpnModel {
            channel: self.channel,
            parameter: self.parameter,
            value_msb: self.value_msb,
            value_lsb: self.value_lsb,
        }
    }
}

impl NRPNState {
    /// Clears the value components; channel and parameter stay.
    fn reset_value(&mut self)
        ensures
            final(self)@ == (NrpnModel { value_msb: None, value_lsb: None, ..old(self)@ }),
    {
        self.value_msb = None;
        self.value_lsb = None;
    }

    /// Clears every component.
    fn reset(&mut self)
        ensures
            final(self)@ == (NrpnModel { channel: None, parameter: None, value_msb: None, value_lsb: None }),
    {
        self.channel = None;
        self.parameter = None;
        self.reset_value();
    }
}

/// Parses a stream of MIDI bytes into [`QuEvent`] values.
#[derive(Debug)]
pub struct Parser {
    running_status: Option<u8>,
    data: Vec<u8>,
    sysex: Option<Vec<u8>>,
    nrpn: NRPNState,
}

impl View for Parser {
    type V = ParserModel;

    closed spec fn view(&self) -> ParserModel {
        ParserModel {
            running_status: self.running_status,
            data: self.data@,
            sysex: match self.sysex {
                Some(v) => Some(v@),
                None => None,
            },
            nrpn: self.nrpn@,
        }
    }
}

/// Appends `e` to `events`.
fn emit(events: &mut Vec<QuEvent>, e: QuEvent)
    ensures
        views(final(events)@) == views(old(events)@).push(e@),
{
    events.push(e);
    assert(views(events@) =~= views(old(events)@).push(e@));
}

fn bytes1(b: u8) -> (res: Vec<u8>)
    ensures
        res@ == seq![b],
{
    let mut v = Vec::new();
    v.push(b);
    assert(v@ =~= seq![b]);
    v
}

impl Parser {
    /// A parser with no message in progress.
    pub fn new() -> (res: Self)
        ensures
            res@ == fresh_parser(),
    {
        let res = Parser {
            running_status: None,
            data: Vec::new(),
            sysex: None,
            nrpn: NRPNState { channel: None, parameter: None, value_msb: None, value_lsb: None },
        };
        assert(res@.data =~= fresh_parser().data);
        res
    }

    /// Processes `bytes` and returns the events that they complete, in
    /// order. The state is kept, so a message that spans calls is completed
    /// by a later call.
    pub fn push(&mut self, bytes: &[u8]) -> (events: Vec<QuEvent>)
        ensures
            final(self)@ == run(old(self)@, bytes@).0,
            views(events@) == run(old(self)@, bytes@).1,
    {
        let mut events: Vec<QuEvent> = Vec::new();
        let mut i: usize = 0;
        assert(bytes@.take(0) =~= Seq::<u8>::empty());
        assert(views(events@) =~= Seq::<EventModel>::empty());
        while i < bytes.len()
            invariant
                i <= bytes@.len(),
                self@ == run(old(self)@, bytes@.take(i as int)).0,
                views(events@) == run(old(self)@, bytes@.take(i as int)).1,
            decreases bytes@.len() - i,
        {
            self.push_byte(bytes[i], &mut events);
            assert(bytes@.take(i + 1).drop_last() =~= bytes@.take(i as int));
            i = i + 1;
        }
        assert(bytes@.take(bytes@.len() as int) =~= bytes@);
        events
    }

    /// Processes one byte.
    fn push_byte(&mut self, byte: u8, events: &mut Vec<QuEvent>)
        ensures
            final(self)@ == step(old(self)@, byte).0,
            views(final(events)@) == views(old(events)@) + step(old(self)@, byte).1,
    {
        if byte >= 0xf8 {
            if byte == 0xfe {
                emit(events, QuEvent::ActiveSense);
            }
            assert(views(events@) =~= views(old(events)@) + step(old(self)@, byte).1);
            return;
        }
        if byte == 0xf0 {
            self.sysex = Some(bytes1(byte));
            self.running_status = None;
            self.data.clear();
            assert(self@ =~= step(old(self)@, byte).0);
            assert(views(events@) =~= views(old(events)@) + step(old(self)@, byte).1);
            return;
        }
        if self.sysex.is_some() {
            let mut sx = self.sysex.take().unwrap();
            sx.push(byte);
            if byte == 0xf7 {
                Self::emit_sysex(sx, events);
            } else {
                self.sysex = Some(sx);
                assert(views(events@) =~= views(old(events)@) + step(old(self)@, byte).1);
            }
            return;
        }
        if byte >= 0x80 {
            self.handle_status(byte);
            assert(views(events@) =~= views(old(events)@) + step(old(self)@, byte).1);
            return;
        }
        let status = match self.running_status {
            None => {
                emit(events, QuEvent::Unknown(bytes1(byte)));
                assert(views(events@) =~= views(old(events)@) + step(old(self)@, byte).1);
                return;
            },
            Some(status) => status,
        };
        self.data.push(byte);
        assert(status & 0xf0 == (status / 16) * 16) by (bit_vector);
        let kind = status & 0xf0;
        let required: usize = if kind == 0xc0 || kind == 0xd0 {
            1
        } else {
            2
        };
        if self.data.len() < required {
            assert(views(events@) =~= views(old(events)@) + step(old(self)@, byte).1);
            return;
        }
        let mut data: Vec<u8> = Vec::new();
        std::mem::swap(&mut data, &mut self.data);
        self.handle_message(status, data.as_slice(), events);
    }

    /// Emits the event of a complete SysEx message.
    fn emit_sysex(sx: Vec<u8>, events: &mut Vec<QuEvent>)
        ensures
            views(final(events)@) == views(old(events)@).push(sysex_event(sx@)),
    {
        if meter_data_message(sx.as_slice()) {
            let values = decode_meter_data(sx.as_slice());
            emit(events, QuEvent::Meters { values });
        } else {
            emit(events, QuEvent::SysEx(sx));
        }
    }

    /// Processes a status byte (`0x80..=0xF7`).
    fn handle_status(&mut self, status: u8)
        requires
            0x80 <= status < 0xf8,
        ensures
            final(self)@ == status_step(old(self)@, status),
    {
        match status {
            0xf0 => {
                self.sysex = Some(bytes1(status));
                self.running_status = None;
                self.data.clear();
            },
            0xf1 | 0xf2 | 0xf3 | 0xf6 => {
                self.running_status = None;
                self.data.clear();
            },
            0xf4 | 0xf5 | 0xf7 => {
                self.running_status = None;
                self.data.clear();
            },
            _ => {
                self.running_status = Some(status);
                self.data.clear();
            },
        }
        assert(self@ =~= status_step(old(self)@, status));
    }

    /// Interprets a complete channel message.
    fn handle_message(&mut self, status: u8, data: &[u8], events: &mut Vec<QuEvent>)
        ensures
            final(self)@ == message_step(old(self)@, status, data@).0,
            views(final(events)@) == views(old(events)@) + message_step(old(self)@, status, data@).1,
    {
        assert(status & 0xf0 == (status / 16) * 16) by (bit_vector);
        assert(status & 0x0f == status % 16) by (bit_vector);
        let message_type = status & 0xf0;
        let midi_channel = status & 0x0f;
        if message_type == 0x80 {
            if data.len() >= 2 {
                Self::handle_note_off(midi_channel, data[0], data[1], events);
            } else {
                assert(views(events@) =~= views(old(events)@) + message_step(old(self)@, status, data@).1);
            }
        } else if message_type == 0x90 {
            if data.len() >= 2 {
                Self::handle_note_on(midi_channel, data[0], data[1], events);
            } else {
                assert(views(events@) =~= views(old(events)@) + message_step(old(self)@, status, data@).1);
            }
        } else if message_type == 0xb0 {
            if data.len() >= 2 {
                self.handle_cc(midi_channel, data[0], data[1], events);
            } else {
                assert(views(events@) =~= views(old(events)@) + message_step(old(self)@, status, data@).1);
            }
        } else if message_type == 0xc0 {
            if data.len() > 0 {
                emit(events, QuEvent::ProgramChange { channel: midi_channel, program: data[0] });
            }
            assert(views(events@) =~= views(old(events)@) + message_step(old(self)@, status, data@).1);
        } else {
            emit(events, QuEvent::Midi(MidiMessage::from_raw(status, data)));
            assert(views(events@) =~= views(old(events)@) + message_step(old(self)@, status, data@).1);
        }
    }

    /// Processes a Control Change message.
    fn handle_cc(&mut self, midi_channel: u8, controller: u8, value: u8, events: &mut Vec<QuEvent>)
        requires
            midi_channel < 16,
        ensures
            final(self)@ == cc_step(old(self)@, midi_channel, controller, value).0,
            views(final(events)@) == views(old(events)@) + cc_step(old(self)@, midi_channel, controller, value).1,
    {
        if controller == 0x63 {
            self.nrpn.channel = Some(value);
            self.nrpn.parameter = None;
            self.nrpn.reset_value();
            assert(self@ =~= cc_step(old(self)@, midi_channel, controller, value).0);
            assert(views(events@) =~= views(old(events)@) + cc_step(old(self)@, midi_channel, controller, value).1);
        } else if controller == 0x62 {
            self.nrpn.parameter = Some(value);
            assert(self@ =~= cc_step(old(self)@, midi_channel, controller, value).0);
            assert(views(events@) =~= views(old(events)@) + cc_step(old(self)@, midi_channel, controller, value).1);
        } else if controller == 0x06 {
            self.nrpn.value_msb = Some(value);
            assert(self@ =~= cc_step(old(self)@, midi_channel, controller, value).0);
            assert(views(events@) =~= views(old(events)@) + cc_step(old(self)@, midi_channel, controller, value).1);
        } else if controller == 0x26 {
            self.nrpn.value_lsb = Some(value);
            assert(self@ =~= cc_step(old(self)@, midi_channel, controller, value).0);
            match (self.nrpn.channel, self.nrpn.parameter, self.nrpn.value_msb) {
                (Some(channel), Some(parameter_id), Some(value_msb)) => {
                    match Parameter::from_id(parameter_id) {
                        Some(parameter) => {
                            Self::emit_nrpn(Channel(channel), parameter, value_msb, value, events);
                        },
                        None => {
                            assert(0xb0 | midi_channel == 0xb0 + midi_channel) by (bit_vector)
                                requires
                                    midi_channel < 16,
                            ;
                            let s = 0xb0 | midi_channel;
                            let mut bytes: Vec<u8> = Vec::new();
                            bytes.push(s);
                            bytes.push(0x63);
                            bytes.push(channel);
                            bytes.push(s);
                            bytes.push(0x62);
                            bytes.push(parameter_id);
                            bytes.push(s);
                            bytes.push(0x06);
                            bytes.push(value_msb);
                            bytes.push(s);
                            bytes.push(0x26);
                            bytes.push(value);
                            assert(bytes@ =~= unknown_nrpn(midi_channel, channel, parameter_id, value_msb, value));
                            emit(events, QuEvent::Unknown(bytes));
                        },
                    }
                },
                _ => {
                    assert(views(events@) =~= views(old(events)@) + cc_step(old(self)@, midi_channel, controller, value).1);
                },
            }
        } else {
            emit(events, QuEvent::Midi(MidiMessage::ControlChange { channel: midi_channel, controller, value }));
            assert(views(events@) =~= views(old(events)@) + cc_step(old(self)@, midi_channel, controller, value).1);
        }
    }

    /// Emits the event of a complete Qu NRPN parameter change.
    fn emit_nrpn(channel: Channel, parameter: Parameter, value: u8, index: u8, events: &mut Vec<QuEvent>)
        ensures
            views(final(events)@) == views(old(events)@).push(nrpn_event(channel, parameter, value, index)),
    {
        match parameter {
            Parameter::Fader => emit(events, QuEvent::Fader { channel, value }),
            Parameter::SendLevel => emit(
                events,
                QuEvent::SendLevel { channel, destination: SendDestination::from_index(index), value },
            ),
            Parameter::Pan => emit(
                events,
                QuEvent::Pan { channel, destination: SendDestination::from_index(index), value },
            ),
            Parameter::Local48v => emit(events, QuEvent::PhantomPower { channel, enabled: value != 0 }),
            Parameter::LRAssign => emit(events, QuEvent::LRAssign { channel, enabled: value != 0 }),
            Parameter::Polarity => emit(events, QuEvent::Polarity { channel, reversed: value != 0 }),
            Parameter::Pafl => emit(events, QuEvent::Pafl { channel, enabled: value != 0 }),
            _ => emit(events, QuEvent::Parameter { channel, parameter, value, index }),
        }
    }

    /// Processes a Note On message.
    fn handle_note_on(midi_channel: u8, note: u8, velocity: u8, events: &mut Vec<QuEvent>)
        ensures
            views(final(events)@) == views(old(events)@) + note_on_events(midi_channel, note, velocity),
    {
        if 0x20 <= note && note <= 0x3f {
            if velocity != 0 {
                emit(events, QuEvent::Mute { channel: Channel(note), muted: velocity >= 0x40 });
            }
        } else if 0x40 <= note && note <= 0x5f {
            if velocity != 0 {
                emit(events, QuEvent::Pafl { channel: Channel(note), enabled: true });
            }
        } else {
            emit(events, QuEvent::Midi(MidiMessage::NoteOn { channel: midi_channel, note, velocity }));
        }
        assert(views(events@) =~= views(old(events)@) + note_on_events(midi_channel, note, velocity));
    }

    /// Processes a Note Off message.
    fn handle_note_off(midi_channel: u8, note: u8, velocity: u8, events: &mut Vec<QuEvent>)
        ensures
            views(final(events)@) == views(old(events)@) + note_off_events(midi_channel, note, velocity),
    {
        if !(0x20 <= note && note <= 0x3f) {
            emit(events, QuEvent::Midi(MidiMessage::NoteOff { channel: midi_channel, note, velocity }));
        }
        assert(views(events@) =~= views(old(events)@) + note_off_events(midi_channel, note, velocity));
    }
}

impl MidiMessage {
    /// The raw MIDI message of status byte `status` and data bytes `data`;
    /// missing data bytes read as zero.
    pub fn from_raw(status: u8, data: &[u8]) -> (res: Self)
        ensures
            res@ == midi_from_raw(status, data@),
    {
        assert(status & 0xf0 == (status / 16) * 16) by (bit_vector);
        assert(status & 0x0f == status % 16) by (bit_vector);
        let channel = status & 0x0f;
        let first = if data.len() > 0 {
            data[0]
        } else {
            0
        };
        let second = if data.len() > 1 {
            data[1]
        } else {
            0
        };
        let kind = status & 0xf0;
        if kind == 0x80 {
            MidiMessage::NoteOff { channel, note: first, velocity: second }
        } else if kind == 0x90 {
            MidiMessage::NoteOn { channel, note: first, velocity: second }
        } else if kind == 0xb0 {
            MidiMessage::ControlChange { channel, controller: first, value: second }
        } else if kind == 0xc0 {
            MidiMessage::ProgramChange { channel, program: first }
        } else {
            MidiMessage::ControlChange { channel, controller: first, value: second }
        }
    }
}

/// The default parser is a new one: no message in progress.
impl Default for Parser {
    fn default() -> (res: Self)
        ensures
            res@ == fresh_parser(),
    {
        Parser::new()
    }
}

} // verus!
