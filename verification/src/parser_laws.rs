//! Laws of the parser: what holds of every byte stream and every state.

use vstd::prelude::*;
use crate::channels::Channel;
use crate::messages::{EventModel, MidiModel};
use crate::parameters::{Parameter, id_round_trip, ids_are_seven_bit, parameter_id, parameter_of};
use crate::parser::{
    ParserModel, fresh_parser, message_step, note_on_events, nrpn_event, run, step, sysex_event,
};
use crate::protocol::{mute_bytes, nrpn_bytes};

verus! {

/// Feeding a stream in two pieces gives the same state and the same events
/// as feeding it whole: the events of `a + b` are those of `a` followed by
/// those of `b` from the state that `a` leaves.
pub proof fn run_splits(s: ParserModel, a: Seq<u8>, b: Seq<u8>)
    ensures
        run(s, a + b).0 == run(run(s, a).0, b).0,
        run(s, a + b).1 == run(s, a).1 + run(run(s, a).0, b).1,
    decreases b.len(),
{
    if b.len() == 0 {
        assert(a + b =~= a);
        assert(run(s, a).1 + run(run(s, a).0, b).1 =~= run(s, a).1);
    } else {
        run_splits(s, a, b.drop_last());
        assert((a + b).drop_last() =~= a + b.drop_last());
        assert((a + b).last() == b.last());
        let ea = run(s, a).1;
        let eb1 = run(run(s, a).0, b.drop_last()).1;
        let eb2 = step(run(run(s, a).0, b.drop_last()).0, b.last()).1;
        assert(ea + (eb1 + eb2) =~= (ea + eb1) + eb2);
    }
}

/// Running one more byte is one more step.
proof fn run_push(s: ParserModel, q: Seq<u8>, b: u8)
    ensures
        run(s, q.push(b)).0 == step(run(s, q).0, b).0,
        run(s, q.push(b)).1 == run(s, q).1 + step(run(s, q).0, b).1,
{
    assert(q.push(b).drop_last() =~= q);
    assert(q.push(b).last() == b);
}

/// Running no bytes changes nothing.
proof fn run_empty(s: ParserModel)
    ensures
        run(s, Seq::empty()).0 == s,
        run(s, Seq::empty()).1 == Seq::<EventModel>::empty(),
{
}

/// The events of a MIDI real-time byte (`0xF8` and above): Active Sense for
/// `0xFE`, none for the others.
pub open spec fn realtime_events(b: u8) -> Seq<EventModel> {
    if b == 0xfe {
        seq![EventModel::ActiveSense]
    } else {
        Seq::empty()
    }
}

/// A MIDI real-time byte may stand anywhere in the stream, inside another
/// message or a SysEx too: it leaves the parser's state as it was, and the
/// other events are those of the stream without it.
pub proof fn realtime_bytes_are_transparent(s: ParserModel, a: Seq<u8>, b: u8, c: Seq<u8>)
    requires
        b >= 0xf8,
    ensures
        run(s, a + seq![b] + c).0 == run(s, a + c).0,
        run(s, a + seq![b] + c).1 == run(s, a).1 + realtime_events(b) + run(run(s, a).0, c).1,
        run(s, a + c).1 == run(s, a).1 + run(run(s, a).0, c).1,
{
    run_splits(s, a + seq![b], c);
    run_splits(s, a, seq![b]);
    run_splits(s, a, c);
    let sa = run(s, a).0;
    run_empty(sa);
    run_push(sa, Seq::empty(), b);
    assert(Seq::<u8>::empty().push(b) =~= seq![b]);
    assert(run(sa, seq![b]).0 == sa);
    assert(run(sa, seq![b]).1 =~= realtime_events(b));
}

/// Whether `body` may stand inside a SysEx: no SysEx start or end, no
/// real-time byte.
pub open spec fn sysex_body(body: Seq<u8>) -> bool {
    forall|i: int| 0 <= i < body.len() ==> #[trigger] body[i] != 0xf0 && body[i] != 0xf7 && body[i] < 0xf8
}

proof fn sysex_prefix(s: ParserModel, body: Seq<u8>)
    requires
        sysex_body(body),
    ensures
        run(s, seq![0xf0u8] + body).0 == (ParserModel {
            sysex: Some(seq![0xf0u8] + body),
            running_status: None,
            data: Seq::empty(),
            ..s
        }),
        run(s, seq![0xf0u8] + body).1 == Seq::<EventModel>::empty(),
    decreases body.len(),
{
    if body.len() == 0 {
        assert(seq![0xf0u8] + body =~= Seq::<u8>::empty().push(0xf0u8));
        run_empty(s);
        run_push(s, Seq::empty(), 0xf0u8);
        assert(run(s, seq![0xf0u8] + body).1 =~= Seq::<EventModel>::empty());
    } else {
        let shorter = body.drop_last();
        assert(sysex_body(shorter)) by {
            assert forall|i: int| 0 <= i < shorter.len() implies #[trigger] shorter[i] != 0xf0 && shorter[i]
                != 0xf7 && shorter[i] < 0xf8 by {
                assert(shorter[i] == body[i]);
            }
        }
        sysex_prefix(s, shorter);
        assert((seq![0xf0u8] + shorter).push(body.last()) =~= seq![0xf0u8] + body);
        let last = body.last();
        assert(last == body[body.len() - 1]);
        run_push(s, seq![0xf0u8] + shorter, last);
        assert((seq![0xf0u8] + shorter).push(last) =~= seq![0xf0u8] + body);
        assert(run(s, seq![0xf0u8] + body).1 =~= Seq::<EventModel>::empty());
    }
}

/// A SysEx message is delivered whole, whatever the parser was doing: it
/// ends running status and any message in progress, keeps the NRPN state,
/// and yields exactly one event, that of the complete message.
pub proof fn sysex_is_framed(s: ParserModel, body: Seq<u8>)
    requires
        sysex_body(body),
    ensures
        run(s, seq![0xf0u8] + body + seq![0xf7u8]).0 == (ParserModel {
            sysex: None,
            running_status: None,
            data: Seq::empty(),
            ..s
        }),
        run(s, seq![0xf0u8] + body + seq![0xf7u8]).1 == seq![
            sysex_event(seq![0xf0u8] + body + seq![0xf7u8]),
        ],
{
    sysex_prefix(s, body);
    let msg = seq![0xf0u8] + body + seq![0xf7u8];
    assert((seq![0xf0u8] + body).push(0xf7u8) =~= msg);
    run_push(s, seq![0xf0u8] + body, 0xf7u8);
    assert(run(s, msg).1 =~= seq![sysex_event(msg)]);
}

/// The state in which a channel message with status `status` starts.
pub open spec fn started(s: ParserModel, status: u8) -> ParserModel {
    ParserModel { running_status: Some(status), data: Seq::empty(), ..s }
}

/// A three-byte channel message, received outside a SysEx, is handled as
/// one complete message.
pub proof fn channel_message(s: ParserModel, status: u8, d1: u8, d2: u8)
    requires
        s.sysex is None,
        0x80 <= status < 0xc0 || 0xe0 <= status < 0xf0,
        d1 < 0x80,
        d2 < 0x80,
    ensures
        run(s, seq![status, d1, d2]) == message_step(started(s, status), status, seq![d1, d2]),
{
    let m1 = Seq::<u8>::empty().push(status);
    let m2 = m1.push(d1);
    let m3 = m2.push(d2);
    assert(m3 =~= seq![status, d1, d2]);
    run_empty(s);
    run_push(s, Seq::empty(), status);
    run_push(s, m1, d1);
    run_push(s, m2, d2);
    let st = started(s, status);
    assert(status / 16 != 0xc && status / 16 != 0xd);
    assert(run(s, m1).0 == st);
    assert(st.data.push(d1) =~= seq![d1]);
    let sd = ParserModel { data: seq![d1], ..st };
    assert(run(s, m2).0 == sd);
    assert(seq![d1].push(d2) =~= seq![d1, d2]);
    assert(ParserModel { data: Seq::empty(), ..sd } == st);
    let e = message_step(st, status, seq![d1, d2]).1;
    assert(run(s, m3).1 =~= e);
}

/// A Control Change message, received outside a SysEx, is one `cc_step`.
proof fn cc_message(s: ParserModel, status: u8, controller: u8, value: u8)
    requires
        s.sysex is None,
        0xb0 <= status < 0xc0,
        controller < 0x80,
        value < 0x80,
    ensures
        run(s, seq![status, controller, value]) == crate::parser::cc_step(
            started(s, status),
            (status % 16) as u8,
            controller,
            value,
        ),
{
    channel_message(s, status, controller, value);
}

/// The NRPN state after selecting channel, parameter and value MSB.
pub open spec fn nrpn_selected(s: ParserModel, status: u8, channel: u8, id: u8, msb: u8) -> ParserModel {
    ParserModel {
        running_status: Some(status),
        data: Seq::empty(),
        nrpn: crate::parser::NrpnModel {
            channel: Some(channel),
            parameter: Some(id),
            value_msb: Some(msb),
            value_lsb: None,
        },
        ..s
    }
}

#[verifier::spinoff_prover]
#[verifier::rlimit(40)]
proof fn nrpn_selection(s: ParserModel, status: u8, channel: u8, id: u8, msb: u8)
    requires
        s.sysex is None,
        0xb0 <= status < 0xc0,
        channel < 0x80,
        id < 0x80,
        msb < 0x80,
    ensures
        run(s, seq![status, 0x63u8, channel] + seq![status, 0x62u8, id] + seq![status, 0x06u8, msb]).0
            == nrpn_selected(s, status, channel, id, msb),
        run(s, seq![status, 0x63u8, channel] + seq![status, 0x62u8, id] + seq![status, 0x06u8, msb]).1
            == Seq::<EventModel>::empty(),
{
    let m1 = seq![status, 0x63u8, channel];
    let m2 = seq![status, 0x62u8, id];
    let m3 = seq![status, 0x06u8, msb];
    cc_message(s, status, 0x63, channel);
    let s1 = run(s, m1).0;
    cc_message(s1, status, 0x62, id);
    let s2 = run(s1, m2).0;
    cc_message(s2, status, 0x06, msb);
    run_splits(s, m1, m2);
    run_splits(s, m1 + m2, m3);
    assert(run(s, m1 + m2).1 =~= Seq::<EventModel>::empty());
    assert(run(s, m1 + m2 + m3).1 =~= Seq::<EventModel>::empty());
}

proof fn nrpn_completion(s: ParserModel, status: u8, channel: u8, id: u8, msb: u8, lsb: u8, parameter: Parameter)
    requires
        s.sysex is None,
        0xb0 <= status < 0xc0,
        channel < 0x80,
        id < 0x80,
        msb < 0x80,
        lsb < 0x80,
        parameter_of(id) == Some(parameter),
    ensures
        run(nrpn_selected(s, status, channel, id, msb), seq![status, 0x26u8, lsb]).1 == seq![
            nrpn_event(Channel(channel), parameter, msb, lsb),
        ],
        run(nrpn_selected(s, status, channel, id, msb), seq![status, 0x26u8, lsb]).0.sysex is None,
{
    cc_message(nrpn_selected(s, status, channel, id, msb), status, 0x26, lsb);
}

proof fn nrpn_bytes_split(midi_channel: u8, channel: u8, id: u8, value: u8, index: u8)
    ensures
        nrpn_bytes(midi_channel, channel, id, value, index) =~= seq![
            (0xb0 + midi_channel % 16) as u8,
            0x63u8,
            (channel % 128) as u8,
        ] + seq![(0xb0 + midi_channel % 16) as u8, 0x62u8, (id % 128) as u8] + seq![
            (0xb0 + midi_channel % 16) as u8,
            0x06u8,
            (value % 128) as u8,
        ] + seq![(0xb0 + midi_channel % 16) as u8, 0x26u8, (index % 128) as u8],
{
}

/// Decoding undoes encoding for NRPN messages: outside a SysEx, the bytes of
/// `encode_nrpn` (on any MIDI channel) yield exactly the event of that
/// parameter change, with every value restricted to 7 bits.
pub proof fn nrpn_round_trip(
    s: ParserModel,
    midi_channel: u8,
    channel: Channel,
    parameter: Parameter,
    value: u8,
    index: u8,
)
    requires
        s.sysex is None,
    ensures
        run(s, nrpn_bytes(midi_channel, channel.0, parameter_id(parameter), value, index)).1 == seq![
            nrpn_event(Channel((channel.0 % 128) as u8), parameter, (value % 128) as u8, (index % 128) as u8),
        ],
        run(s, nrpn_bytes(midi_channel, channel.0, parameter_id(parameter), value, index)).0.sysex is None,
{
    let st = (0xb0 + midi_channel % 16) as u8;
    let c = (channel.0 % 128) as u8;
    let pid = parameter_id(parameter);
    ids_are_seven_bit(parameter);
    id_round_trip(parameter);
    let id = (pid % 128) as u8;
    assert(id == pid);
    let v = (value % 128) as u8;
    let x = (index % 128) as u8;
    let m1 = seq![st, 0x63u8, c];
    let m2 = seq![st, 0x62u8, id];
    let m3 = seq![st, 0x06u8, v];
    let m4 = seq![st, 0x26u8, x];
    nrpn_bytes_split(midi_channel, channel.0, pid, value, index);
    nrpn_selection(s, st, c, id, v);
    nrpn_completion(s, st, c, id, v, x, parameter);
    run_splits(s, m1 + m2 + m3, m4);
    assert(run(s, m1 + m2 + m3 + m4).1 =~= seq![nrpn_event(Channel(c), parameter, v, x)]);
}

/// Decoding undoes encoding for mutes of input channels: outside a SysEx,
/// the bytes of `mute` for a channel in `0x20..=0x3F` yield exactly one
/// `Mute` event with the same channel and state.
pub proof fn mute_round_trip(s: ParserModel, note: u8, muted: bool)
    requires
        s.sysex is None,
        0x20 <= note <= 0x3f,
    ensures
        run(s, mute_bytes(note, muted)).1 == seq![EventModel::Mute { channel: Channel(note), muted }],
        run(s, mute_bytes(note, muted)).0.sysex is None,
{
    let velocity: u8 = if muted { 0x7f } else { 0x3f };
    let m1 = seq![0x90u8, note, velocity];
    let m2 = seq![0x90u8, note, 0x00u8];
    assert(mute_bytes(note, muted) =~= m1 + m2);
    channel_message(s, 0x90, note, velocity);
    let s1 = run(s, m1).0;
    channel_message(s1, 0x90, note, 0x00);
    run_splits(s, m1, m2);
    assert(note_on_events(0, note, 0x00) =~= Seq::<EventModel>::empty());
    assert(run(s, m1 + m2).1 =~= seq![EventModel::Mute { channel: Channel(note), muted }]);
}

/// A new parser has no message in progress: no bytes give no events, and a
/// lone data byte, which no status byte precedes, is reported as unknown
/// and leaves the parser as it was.
pub proof fn fresh_parser_reads_stray_data(d: u8)
    requires
        d < 0x80,
    ensures
        run(fresh_parser(), Seq::empty()) == (fresh_parser(), Seq::<EventModel>::empty()),
        run(fresh_parser(), seq![d]) == (fresh_parser(), seq![EventModel::Unknown(seq![d])]),
{
    run_empty(fresh_parser());
    run_push(fresh_parser(), Seq::empty(), d);
    assert(Seq::<u8>::empty().push(d) =~= seq![d]);
    assert(Seq::<EventModel>::empty() + seq![EventModel::Unknown(seq![d])] =~= seq![EventModel::Unknown(seq![d])]);
}

/// A Control Change that is not part of an NRPN (controller other than
/// `0x63`, `0x62`, `0x06`, `0x26`), received outside a SysEx, is passed on
/// as it came: one `ControlChange` event on the status byte's MIDI channel,
/// whose controller is the first data byte and whose value the second.
pub proof fn other_control_change_passes_through(s: ParserModel, n: u8, controller: u8, value: u8)
    requires
        s.sysex is None,
        n < 16,
        controller < 0x80,
        value < 0x80,
        controller != 0x63 && controller != 0x62 && controller != 0x06 && controller != 0x26,
    ensures
        run(s, seq![(0xb0 + n) as u8, controller, value]).1 == seq![
            EventModel::Midi(MidiModel::ControlChange { channel: n, controller: controller, value: value }),
        ],
        run(s, seq![(0xb0 + n) as u8, controller, value]).0.nrpn == s.nrpn,
{
    cc_message(s, (0xb0 + n) as u8, controller, value);
    assert(((0xb0 + n) as u8) % 16 == n);
}

} // verus!
