//! Qu mixer parameter identifiers.
//!
//! The parameters exposed by the Qu MIDI protocol, their numeric protocol
//! IDs, and the conversion between IDs and typed parameters.

use vstd::prelude::*;
pub use crate::meters::MeterBlock;

verus! {

/// A parameter of the Qu NRPN protocol.
#[derive(Debug, Clone, Copy, PartialEq, Eq, Hash, Structural)]
pub enum Parameter {
    LfEqGain,
    LfEqFrequency,
    LfEqWidth,
    LfEqType,
    LmEqGain,
    LmEqFrequency,
    LmEqWidth,
    HmEqGain,
    HmEqFrequency,
    HmEqWidth,
    HfEqGain,
    HfEqFrequency,
    HfEqWidth,
    HfEqType,
    PeqInOut,
    UsbSource,
    HpfFrequency,
    HpfInOut,
    Pan,
    Fader,
    LRAssign,
    LocalGain,
    SendLevel,
    DcaAssignment,
    GateAttack,
    GateRelease,
    GateHold,
    GateThreshold,
    GateDepth,
    GateInOut,
    FxDelayTimeMsb,
    FxDelayTimeLsb,
    DelayTime,
    DelayInOut,
    MixPrePost,
    Pafl,
    DigitalTrim,
    StereoTrim,
    MixAssignment,
    PreampSource,
    DsnakeGain,
    DsnakePad,
    Dsnake48v,
    MuteGroupAssignment,
    DsnakePatch,
    GroupMixMode,
    RemoteShutdown,
    CompressorType,
    CompressorAttack,
    CompressorRelease,
    CompressorKnee,
    CompressorRatio,
    CompressorThreshold,
    CompressorGain,
    CompressorInOut,
    Local48v,
    Polarity,
    InsertInOut,
    DelayTime2,
    DelayInOut2,
    GeqGain,
    GeqInOut,
}

/// The number of parameters.
pub const PARAMETER_COUNT: usize = 62;

/// The protocol ID of parameter `p`.
pub open spec fn parameter_id(p: Parameter) -> u8 {
    match p {
        Parameter::LfEqGain => 0x01,
        Parameter::LfEqFrequency => 0x02,
        Parameter::LfEqWidth => 0x03,
        Parameter::LfEqType => 0x04,
        Parameter::LmEqGain => 0x05,
        Parameter::LmEqFrequency => 0x06,
        Parameter::LmEqWidth => 0x07,
        Parameter::HmEqGain => 0x09,
        Parameter::HmEqFrequency => 0x0a,
        Parameter::HmEqWidth => 0x0b,
        Parameter::HfEqGain => 0x0d,
        Parameter::HfEqFrequency => 0x0e,
        Parameter::HfEqWidth => 0x0f,
        Parameter::HfEqType => 0x10,
        Parameter::PeqInOut => 0x11,
        Parameter::UsbSource => 0x12,
        Parameter::HpfFrequency => 0x13,
        Parameter::HpfInOut => 0x14,
        Parameter::Pan => 0x16,
        Parameter::Fader => 0x17,
        Parameter::LRAssign => 0x18,
        Parameter::LocalGain => 0x19,
        Parameter::SendLevel => 0x20,
        Parameter::DcaAssignment => 0x40,
        Parameter::GateAttack => 0x41,
        Parameter::GateRelease => 0x42,
        Parameter::GateHold => 0x43,
        Parameter::GateThreshold => 0x44,
        Parameter::GateDepth => 0x45,
        Parameter::GateInOut => 0x46,
        Parameter::FxDelayTimeMsb => 0x48,
        Parameter::FxDelayTimeLsb => 0x49,
        Parameter::DelayTime => 0x4c,
        Parameter::DelayInOut => 0x4d,
        Parameter::MixPrePost => 0x50,
        Parameter::Pafl => 0x51,
        Parameter::DigitalTrim => 0x52,
        Parameter::StereoTrim => 0x54,
        Parameter::MixAssignment => 0x55,
        Parameter::PreampSource => 0x57,
        Parameter::DsnakeGain => 0x58,
        Parameter::DsnakePad => 0x59,
        Parameter::Dsnake48v => 0x5a,
        Parameter::MuteGroupAssignment => 0x5c,
        Parameter::DsnakePatch => 0x5d,
        Parameter::GroupMixMode => 0x5e,
        Parameter::RemoteShutdown => 0x5f,
        Parameter::CompressorType => 0x61,
        Parameter::CompressorAttack => 0x62,
        Parameter::CompressorRelease => 0x63,
        Parameter::CompressorKnee => 0x64,
        Parameter::CompressorRatio => 0x65,
        Parameter::CompressorThreshold => 0x66,
        Parameter::CompressorGain => 0x67,
        Parameter::CompressorInOut => 0x68,
        Parameter::Local48v => 0x69,
        Parameter::Polarity => 0x6a,
        Parameter::InsertInOut => 0x6b,
        Parameter::DelayTime2 => 0x6c,
        Parameter::DelayInOut2 => 0x6d,
        Parameter::GeqGain => 0x70,
        Parameter::GeqInOut => 0x71,
    }
}

/// The parameter with protocol ID `id`, if any.
pub open spec fn parameter_of(id: u8) -> Option<Parameter> {
    match id {
        0x01 => Some(Parameter::LfEqGain),
        0x02 => Some(Parameter::LfEqFrequency),
        0x03 => Some(Parameter::LfEqWidth),
        0x04 => Some(Parameter::LfEqType),
        0x05 => Some(Parameter::LmEqGain),
        0x06 => Some(Parameter::LmEqFrequency),
        0x07 => Some(Parameter::LmEqWidth),
        0x09 => Some(Parameter::HmEqGain),
        0x0a => Some(Parameter::HmEqFrequency),
        0x0b => Some(Parameter::HmEqWidth),
        0x0d => Some(Parameter::HfEqGain),
        0x0e => Some(Parameter::HfEqFrequency),
        0x0f => Some(Parameter::HfEqWidth),
        0x10 => Some(Parameter::HfEqType),
        0x11 => Some(Parameter::PeqInOut),
        0x12 => Some(Parameter::UsbSource),
        0x13 => Some(Parameter::HpfFrequency),
        0x14 => Some(Parameter::HpfInOut),
        0x16 => Some(Parameter::Pan),
        0x17 => Some(Parameter::Fader),
        0x18 => Some(Parameter::LRAssign),
        0x19 => Some(Parameter::LocalGain),
        0x20 => Some(Parameter::SendLevel),
        0x40 => Some(Parameter::DcaAssignment),
        0x41 => Some(Parameter::GateAttack),
        0x42 => Some(Parameter::GateRelease),
        0x43 => Some(Parameter::GateHold),
        0x44 => Some(Parameter::GateThreshold),
        0x45 => Some(Parameter::GateDepth),
        0x46 => Some(Parameter::GateInOut),
        0x48 => Some(Parameter::FxDelayTimeMsb),
        0x49 => Some(Parameter::FxDelayTimeLsb),
        0x4c => Some(Parameter::DelayTime),
        0x4d => Some(Parameter::DelayInOut),
        0x50 => Some(Parameter::MixPrePost),
        0x51 => Some(Parameter::Pafl),
        0x52 => Some(Parameter::DigitalTrim),
        0x54 => Some(Parameter::StereoTrim),
        0x55 => Some(Parameter::MixAssignment),
        0x57 => Some(Parameter::PreampSource),
        0x58 => Some(Parameter::DsnakeGain),
        0x59 => Some(Parameter::DsnakePad),
        0x5a => Some(Parameter::Dsnake48v),
        0x5c => Some(Parameter::MuteGroupAssignment),
        0x5d => Some(Parameter::DsnakePatch),
        0x5e => Some(Parameter::GroupMixMode),
        0x5f => Some(Parameter::RemoteShutdown),
        0x61 => Some(Parameter::CompressorType),
        0x62 => Some(Parameter::CompressorAttack),
        0x63 => Some(Parameter::CompressorRelease),
        0x64 => Some(Parameter::CompressorKnee),
        0x65 => Some(Parameter::CompressorRatio),
        0x66 => Some(Parameter::CompressorThreshold),
        0x67 => Some(Parameter::CompressorGain),
        0x68 => Some(Parameter::CompressorInOut),
        0x69 => Some(Parameter::Local48v),
        0x6a => Some(Parameter::Polarity),
        0x6b => Some(Parameter::InsertInOut),
        0x6c => Some(Parameter::DelayTime2),
        0x6d => Some(Parameter::DelayInOut2),
        0x70 => Some(Parameter::GeqGain),
        0x71 => Some(Parameter::GeqInOut),
        _ => None,
    }
}

/// The variant name of parameter `p`, as `{:?}` shows it.
pub open spec fn parameter_name(p: Parameter) -> Seq<char> {
    match p {
        Parameter::LfEqGain => "LfEqGain"@,
        Parameter::LfEqFrequency => "LfEqFrequency"@,
        Parameter::LfEqWidth => "LfEqWidth"@,
        Parameter::LfEqType => "LfEqType"@,
        Parameter::LmEqGain => "LmEqGain"@,
        Parameter::LmEqFrequency => "LmEqFrequency"@,
        Parameter::LmEqWidth => "LmEqWidth"@,
        Parameter::HmEqGain => "HmEqGain"@,
        Parameter::HmEqFrequency => "HmEqFrequency"@,
        Parameter::HmEqWidth => "HmEqWidth"@,
        Parameter::HfEqGain => "HfEqGain"@,
        Parameter::HfEqFrequency => "HfEqFrequency"@,
        Parameter::HfEqWidth => "HfEqWidth"@,
        Parameter::HfEqType => "HfEqType"@,
        Parameter::PeqInOut => "PeqInOut"@,
        Parameter::UsbSource => "UsbSource"@,
        Parameter::HpfFrequency => "HpfFrequency"@,
        Parameter::HpfInOut => "HpfInOut"@,
        Parameter::Pan => "Pan"@,
        Parameter::Fader => "Fader"@,
        Parameter::LRAssign => "LRAssign"@,
        Parameter::LocalGain => "LocalGain"@,
        Parameter::SendLevel => "SendLevel"@,
        Parameter::DcaAssignment => "DcaAssignment"@,
        Parameter::GateAttack => "GateAttack"@,
        Parameter::GateRelease => "GateRelease"@,
        Parameter::GateHold => "GateHold"@,
        Parameter::GateThreshold => "GateThreshold"@,
        Parameter::GateDepth => "GateDepth"@,
        Parameter::GateInOut => "GateInOut"@,
        Parameter::FxDelayTimeMsb => "FxDelayTimeMsb"@,
        Parameter::FxDelayTimeLsb => "FxDelayTimeLsb"@,
        Parameter::DelayTime => "DelayTime"@,
        Parameter::DelayInOut => "DelayInOut"@,
        Parameter::MixPrePost => "MixPrePost"@,
        Parameter::Pafl => "Pafl"@,
        Parameter::DigitalTrim => "DigitalTrim"@,
        Parameter::StereoTrim => "StereoTrim"@,
        Parameter::MixAssignment => "MixAssignment"@,
        Parameter::PreampSource => "PreampSource"@,
        Parameter::DsnakeGain => "DsnakeGain"@,
        Parameter::DsnakePad => "DsnakePad"@,
        Parameter::Dsnake48v => "Dsnake48v"@,
        Parameter::MuteGroupAssignment => "MuteGroupAssignment"@,
        Parameter::DsnakePatch => "DsnakePatch"@,
        Parameter::GroupMixMode => "GroupMixMode"@,
        Parameter::RemoteShutdown => "RemoteShutdown"@,
        Parameter::CompressorType => "CompressorType"@,
        Parameter::CompressorAttack => "CompressorAttack"@,
        Parameter::CompressorRelease => "CompressorRelease"@,
        Parameter::CompressorKnee => "CompressorKnee"@,
        Parameter::CompressorRatio => "CompressorRatio"@,
        Parameter::CompressorThreshold => "CompressorThreshold"@,
        Parameter::CompressorGain => "CompressorGain"@,
        Parameter::CompressorInOut => "CompressorInOut"@,
        Parameter::Local48v => "Local48v"@,
        Parameter::Polarity => "Polarity"@,
        Parameter::InsertInOut => "InsertInOut"@,
        Parameter::DelayTime2 => "DelayTime2"@,
        Parameter::DelayInOut2 => "DelayInOut2"@,
        Parameter::GeqGain => "GeqGain"@,
        Parameter::GeqInOut => "GeqInOut"@,
    }
}

/// The `i`-th parameter in order of protocol ID.
#[verifier::opaque]
pub open spec fn nth_parameter(i: int) -> Parameter {
    
    if i == 0 { Parameter::LfEqGain } else
    if i == 1 { Parameter::LfEqFrequency } else
    if i == 2 { Parameter::LfEqWidth } else
    if i == 3 { Parameter::LfEqType } else
    if i == 4 { Parameter::LmEqGain } else
    if i == 5 { Parameter::LmEqFrequency } else
    if i == 6 { Parameter::LmEqWidth } else
    if i == 7 { Parameter::HmEqGain } else
    if i == 8 { Parameter::HmEqFrequency } else
    if i == 9 { Parameter::HmEqWidth } else
    if i == 10 { Parameter::HfEqGain } else
    if i == 11 { Parameter::HfEqFrequency } else
    if i == 12 { Parameter::HfEqWidth } else
    if i == 13 { Parameter::HfEqType } else
    if i == 14 { Parameter::PeqInOut } else
    if i == 15 { Parameter::UsbSource } else
    if i == 16 { Parameter::HpfFrequency } else
    if i == 17 { Parameter::HpfInOut } else
    if i == 18 { Parameter::Pan } else
    if i == 19 { Parameter::Fader } else
    if i == 20 { Parameter::LRAssign } else
    if i == 21 { Parameter::LocalGain } else
    if i == 22 { Parameter::SendLevel } else
    if i == 23 { Parameter::DcaAssignment } else
    if i == 24 { Parameter::GateAttack } else
    if i == 25 { Parameter::GateRelease } else
    if i == 26 { Parameter::GateHold } else
    if i == 27 { Parameter::GateThreshold } else
    if i == 28 { Parameter::GateDepth } else
    if i == 29 { Parameter::GateInOut } else
    if i == 30 { Parameter::FxDelayTimeMsb } else
    if i == 31 { Parameter::FxDelayTimeLsb } else
    if i == 32 { Parameter::DelayTime } else
    if i == 33 { Parameter::DelayInOut } else
    if i == 34 { Parameter::MixPrePost } else
    if i == 35 { Parameter::Pafl } else
    if i == 36 { Parameter::DigitalTrim } else
    if i == 37 { Parameter::StereoTrim } else
    if i == 38 { Parameter::MixAssignment } else
    if i == 39 { Parameter::PreampSource } else
    if i == 40 { Parameter::DsnakeGain } else
    if i == 41 { Parameter::DsnakePad } else
    if i == 42 { Parameter::Dsnake48v } else
    if i == 43 { Parameter::MuteGroupAssignment } else
    if i == 44 { Parameter::DsnakePatch } else
    if i == 45 { Parameter::GroupMixMode } else
    if i == 46 { Parameter::RemoteShutdown } else
    if i == 47 { Parameter::CompressorType } else
    if i == 48 { Parameter::CompressorAttack } else
    if i == 49 { Parameter::CompressorRelease } else
    if i == 50 { Parameter::CompressorKnee } else
    if i == 51 { Parameter::CompressorRatio } else
    if i == 52 { Parameter::CompressorThreshold } else
    if i == 53 { Parameter::CompressorGain } else
    if i == 54 { Parameter::CompressorInOut } else
    if i == 55 { Parameter::Local48v } else
    if i == 56 { Parameter::Polarity } else
    if i == 57 { Parameter::InsertInOut } else
    if i == 58 { Parameter::DelayTime2 } else
    if i == 59 { Parameter::DelayInOut2 } else
    if i == 60 { Parameter::GeqGain } else
        { Parameter::GeqInOut }
}

/// The position of parameter `p` in order of protocol ID.
pub open spec fn parameter_position(p: Parameter) -> int {
    match p {
        Parameter::LfEqGain => 0,
        Parameter::LfEqFrequency => 1,
        Parameter::LfEqWidth => 2,
        Parameter::LfEqType => 3,
        Parameter::LmEqGain => 4,
        Parameter::LmEqFrequency => 5,
        Parameter::LmEqWidth => 6,
        Parameter::HmEqGain => 7,
        Parameter::HmEqFrequency => 8,
        Parameter::HmEqWidth => 9,
        Parameter::HfEqGain => 10,
        Parameter::HfEqFrequency => 11,
        Parameter::HfEqWidth => 12,
        Parameter::HfEqType => 13,
        Parameter::PeqInOut => 14,
        Parameter::UsbSource => 15,
        Parameter::HpfFrequency => 16,
        Parameter::HpfInOut => 17,
        Parameter::Pan => 18,
        Parameter::Fader => 19,
        Parameter::LRAssign => 20,
        Parameter::LocalGain => 21,
        Parameter::SendLevel => 22,
        Parameter::DcaAssignment => 23,
        Parameter::GateAttack => 24,
        Parameter::GateRelease => 25,
        Parameter::GateHold => 26,
        Parameter::GateThreshold => 27,
        Parameter::GateDepth => 28,
        Parameter::GateInOut => 29,
        Parameter::FxDelayTimeMsb => 30,
        Parameter::FxDelayTimeLsb => 31,
        Parameter::DelayTime => 32,
        Parameter::DelayInOut => 33,
        Parameter::MixPrePost => 34,
        Parameter::Pafl => 35,
        Parameter::DigitalTrim => 36,
        Parameter::StereoTrim => 37,
        Parameter::MixAssignment => 38,
        Parameter::PreampSource => 39,
        Parameter::DsnakeGain => 40,
        Parameter::DsnakePad => 41,
        Parameter::Dsnake48v => 42,
        Parameter::MuteGroupAssignment => 43,
        Parameter::DsnakePatch => 44,
        Parameter::GroupMixMode => 45,
        Parameter::RemoteShutdown => 46,
        Parameter::CompressorType => 47,
        Parameter::CompressorAttack => 48,
        Parameter::CompressorRelease => 49,
        Parameter::CompressorKnee => 50,
        Parameter::CompressorRatio => 51,
        Parameter::CompressorThreshold => 52,
        Parameter::CompressorGain => 53,
        Parameter::CompressorInOut => 54,
        Parameter::Local48v => 55,
        Parameter::Polarity => 56,
        Parameter::InsertInOut => 57,
        Parameter::DelayTime2 => 58,
        Parameter::DelayInOut2 => 59,
        Parameter::GeqGain => 60,
        Parameter::GeqInOut => 61,
    }
}

impl Parameter {
    /// The parameter's protocol ID.
    pub fn id(self) -> (res: u8)
        ensures
            res == parameter_id(self),
    {
        match self {
            Parameter::LfEqGain => 0x01,
            Parameter::LfEqFrequency => 0x02,
            Parameter::LfEqWidth => 0x03,
            Parameter::LfEqType => 0x04,
            Parameter::LmEqGain => 0x05,
            Parameter::LmEqFrequency => 0x06,
            Parameter::LmEqWidth => 0x07,
            Parameter::HmEqGain => 0x09,
            Parameter::HmEqFrequency => 0x0a,
            Parameter::HmEqWidth => 0x0b,
            Parameter::HfEqGain => 0x0d,
            Parameter::HfEqFrequency => 0x0e,
            Parameter::HfEqWidth => 0x0f,
            Parameter::HfEqType => 0x10,
            Parameter::PeqInOut => 0x11,
            Parameter::UsbSource => 0x12,
            Parameter::HpfFrequency => 0x13,
            Parameter::HpfInOut => 0x14,
            Parameter::Pan => 0x16,
            Parameter::Fader => 0x17,
            Parameter::LRAssign => 0x18,
            Parameter::LocalGain => 0x19,
            Parameter::SendLevel => 0x20,
            Parameter::DcaAssignment => 0x40,
            Parameter::GateAttack => 0x41,
            Parameter::GateRelease => 0x42,
            Parameter::GateHold => 0x43,
            Parameter::GateThreshold => 0x44,
            Parameter::GateDepth => 0x45,
            Parameter::GateInOut => 0x46,
            Parameter::FxDelayTimeMsb => 0x48,
            Parameter::FxDelayTimeLsb => 0x49,
            Parameter::DelayTime => 0x4c,
            Parameter::DelayInOut => 0x4d,
            Parameter::MixPrePost => 0x50,
            Parameter::Pafl => 0x51,
            Parameter::DigitalTrim => 0x52,
            Parameter::StereoTrim => 0x54,
            Parameter::MixAssignment => 0x55,
            Parameter::PreampSource => 0x57,
            Parameter::DsnakeGain => 0x58,
            Parameter::DsnakePad => 0x59,
            Parameter::Dsnake48v => 0x5a,
            Parameter::MuteGroupAssignment => 0x5c,
            Parameter::DsnakePatch => 0x5d,
            Parameter::GroupMixMode => 0x5e,
            Parameter::RemoteShutdown => 0x5f,
            Parameter::CompressorType => 0x61,
            Parameter::CompressorAttack => 0x62,
            Parameter::CompressorRelease => 0x63,
            Parameter::CompressorKnee => 0x64,
            Parameter::CompressorRatio => 0x65,
            Parameter::CompressorThreshold => 0x66,
            Parameter::CompressorGain => 0x67,
            Parameter::CompressorInOut => 0x68,
            Parameter::Local48v => 0x69,
            Parameter::Polarity => 0x6a,
            Parameter::InsertInOut => 0x6b,
            Parameter::DelayTime2 => 0x6c,
            Parameter::DelayInOut2 => 0x6d,
            Parameter::GeqGain => 0x70,
            Parameter::GeqInOut => 0x71,
        }
    }

    /// The parameter with protocol ID `id`, or none if no parameter has it.
    pub fn from_id(id: u8) -> (res: Option<Self>)
        ensures
            res == parameter_of(id),
    {
        match id {
            0x01 => Some(Parameter::LfEqGain),
            0x02 => Some(Parameter::LfEqFrequency),
            0x03 => Some(Parameter::LfEqWidth),
            0x04 => Some(Parameter::LfEqType),
            0x05 => Some(Parameter::LmEqGain),
            0x06 => Some(Parameter::LmEqFrequency),
            0x07 => Some(Parameter::LmEqWidth),
            0x09 => Some(Parameter::HmEqGain),
            0x0a => Some(Parameter::HmEqFrequency),
            0x0b => Some(Parameter::HmEqWidth),
            0x0d => Some(Parameter::HfEqGain),
            0x0e => Some(Parameter::HfEqFrequency),
            0x0f => Some(Parameter::HfEqWidth),
            0x10 => Some(Parameter::HfEqType),
            0x11 => Some(Parameter::PeqInOut),
            0x12 => Some(Parameter::UsbSource),
            0x13 => Some(Parameter::HpfFrequency),
            0x14 => Some(Parameter::HpfInOut),
            0x16 => Some(Parameter::Pan),
            0x17 => Some(Parameter::Fader),
            0x18 => Some(Parameter::LRAssign),
            0x19 => Some(Parameter::LocalGain),
            0x20 => Some(Parameter::SendLevel),
            0x40 => Some(Parameter::DcaAssignment),
            0x41 => Some(Parameter::GateAttack),
            0x42 => Some(Parameter::GateRelease),
            0x43 => Some(Parameter::GateHold),
            0x44 => Some(Parameter::GateThreshold),
            0x45 => Some(Parameter::GateDepth),
            0x46 => Some(Parameter::GateInOut),
            0x48 => Some(Parameter::FxDelayTimeMsb),
            0x49 => Some(Parameter::FxDelayTimeLsb),
            0x4c => Some(Parameter::DelayTime),
            0x4d => Some(Parameter::DelayInOut),
            0x50 => Some(Parameter::MixPrePost),
            0x51 => Some(Parameter::Pafl),
            0x52 => Some(Parameter::DigitalTrim),
            0x54 => Some(Parameter::StereoTrim),
            0x55 => Some(Parameter::MixAssignment),
            0x57 => Some(Parameter::PreampSource),
            0x58 => Some(Parameter::DsnakeGain),
            0x59 => Some(Parameter::DsnakePad),
            0x5a => Some(Parameter::Dsnake48v),
            0x5c => Some(Parameter::MuteGroupAssignment),
            0x5d => Some(Parameter::DsnakePatch),
            0x5e => Some(Parameter::GroupMixMode),
            0x5f => Some(Parameter::RemoteShutdown),
            0x61 => Some(Parameter::CompressorType),
            0x62 => Some(Parameter::CompressorAttack),
            0x63 => Some(Parameter::CompressorRelease),
            0x64 => Some(Parameter::CompressorKnee),
            0x65 => Some(Parameter::CompressorRatio),
            0x66 => Some(Parameter::CompressorThreshold),
            0x67 => Some(Parameter::CompressorGain),
            0x68 => Some(Parameter::CompressorInOut),
            0x69 => Some(Parameter::Local48v),
            0x6a => Some(Parameter::Polarity),
            0x6b => Some(Parameter::InsertInOut),
            0x6c => Some(Parameter::DelayTime2),
            0x6d => Some(Parameter::DelayInOut2),
            0x70 => Some(Parameter::GeqGain),
            0x71 => Some(Parameter::GeqInOut),
            _ => None,
        }
    }

    /// The parameter's variant name, as `{:?}` shows it.
    pub fn name(self) -> (res: &'static str)
        ensures
            res@ == parameter_name(self),
    {
        match self {
            Parameter::LfEqGain => "LfEqGain",
            Parameter::LfEqFrequency => "LfEqFrequency",
            Parameter::LfEqWidth => "LfEqWidth",
            Parameter::LfEqType => "LfEqType",
            Parameter::LmEqGain => "LmEqGain",
            Parameter::LmEqFrequency => "LmEqFrequency",
            Parameter::LmEqWidth => "LmEqWidth",
            Parameter::HmEqGain => "HmEqGain",
            Parameter::HmEqFrequency => "HmEqFrequency",
            Parameter::HmEqWidth => "HmEqWidth",
            Parameter::HfEqGain => "HfEqGain",
            Parameter::HfEqFrequency => "HfEqFrequency",
            Parameter::HfEqWidth => "HfEqWidth",
            Parameter::HfEqType => "HfEqType",
            Parameter::PeqInOut => "PeqInOut",
            Parameter::UsbSource => "UsbSource",
            Parameter::HpfFrequency => "HpfFrequency",
            Parameter::HpfInOut => "HpfInOut",
            Parameter::Pan => "Pan",
            Parameter::Fader => "Fader",
            Parameter::LRAssign => "LRAssign",
            Parameter::LocalGain => "LocalGain",
            Parameter::SendLevel => "SendLevel",
            Parameter::DcaAssignment => "DcaAssignment",
            Parameter::GateAttack => "GateAttack",
            Parameter::GateRelease => "GateRelease",
            Parameter::GateHold => "GateHold",
            Parameter::GateThreshold => "GateThreshold",
            Parameter::GateDepth => "GateDepth",
            Parameter::GateInOut => "GateInOut",
            Parameter::FxDelayTimeMsb => "FxDelayTimeMsb",
            Parameter::FxDelayTimeLsb => "FxDelayTimeLsb",
            Parameter::DelayTime => "DelayTime",
            Parameter::DelayInOut => "DelayInOut",
            Parameter::MixPrePost => "MixPrePost",
            Parameter::Pafl => "Pafl",
            Parameter::DigitalTrim => "DigitalTrim",
            Parameter::StereoTrim => "StereoTrim",
            Parameter::MixAssignment => "MixAssignment",
            Parameter::PreampSource => "PreampSource",
            Parameter::DsnakeGain => "DsnakeGain",
            Parameter::DsnakePad => "DsnakePad",
            Parameter::Dsnake48v => "Dsnake48v",
            Parameter::MuteGroupAssignment => "MuteGroupAssignment",
            Parameter::DsnakePatch => "DsnakePatch",
            Parameter::GroupMixMode => "GroupMixMode",
            Parameter::RemoteShutdown => "RemoteShutdown",
            Parameter::CompressorType => "CompressorType",
            Parameter::CompressorAttack => "CompressorAttack",
            Parameter::CompressorRelease => "CompressorRelease",
            Parameter::CompressorKnee => "CompressorKnee",
            Parameter::CompressorRatio => "CompressorRatio",
            Parameter::CompressorThreshold => "CompressorThreshold",
            Parameter::CompressorGain => "CompressorGain",
            Parameter::CompressorInOut => "CompressorInOut",
            Parameter::Local48v => "Local48v",
            Parameter::Polarity => "Polarity",
            Parameter::InsertInOut => "InsertInOut",
            Parameter::DelayTime2 => "DelayTime2",
            Parameter::DelayInOut2 => "DelayInOut2",
            Parameter::GeqGain => "GeqGain",
            Parameter::GeqInOut => "GeqInOut",
        }
    }

    fn nth(i: usize) -> (res: Self)
        requires
            i < PARAMETER_COUNT,
        ensures
            res == nth_parameter(i as int),
    {
        reveal(nth_parameter);
        match i {
            0 => Parameter::LfEqGain,
            1 => Parameter::LfEqFrequency,
            2 => Parameter::LfEqWidth,
            3 => Parameter::LfEqType,
            4 => Parameter::LmEqGain,
            5 => Parameter::LmEqFrequency,
            6 => Parameter::LmEqWidth,
            7 => Parameter::HmEqGain,
            8 => Parameter::HmEqFrequency,
            9 => Parameter::HmEqWidth,
            10 => Parameter::HfEqGain,
            11 => Parameter::HfEqFrequency,
            12 => Parameter::HfEqWidth,
            13 => Parameter::HfEqType,
            14 => Parameter::PeqInOut,
            15 => Parameter::UsbSource,
            16 => Parameter::HpfFrequency,
            17 => Parameter::HpfInOut,
            18 => Parameter::Pan,
            19 => Parameter::Fader,
            20 => Parameter::LRAssign,
            21 => Parameter::LocalGain,
            22 => Parameter::SendLevel,
            23 => Parameter::DcaAssignment,
            24 => Parameter::GateAttack,
            25 => Parameter::GateRelease,
            26 => Parameter::GateHold,
            27 => Parameter::GateThreshold,
            28 => Parameter::GateDepth,
            29 => Parameter::GateInOut,
            30 => Parameter::FxDelayTimeMsb,
            31 => Parameter::FxDelayTimeLsb,
            32 => Parameter::DelayTime,
            33 => Parameter::DelayInOut,
            34 => Parameter::MixPrePost,
            35 => Parameter::Pafl,
            36 => Parameter::DigitalTrim,
            37 => Parameter::StereoTrim,
            38 => Parameter::MixAssignment,
            39 => Parameter::PreampSource,
            40 => Parameter::DsnakeGain,
            41 => Parameter::DsnakePad,
            42 => Parameter::Dsnake48v,
            43 => Parameter::MuteGroupAssignment,
            44 => Parameter::DsnakePatch,
            45 => Parameter::GroupMixMode,
            46 => Parameter::RemoteShutdown,
            47 => Parameter::CompressorType,
            48 => Parameter::CompressorAttack,
            49 => Parameter::CompressorRelease,
            50 => Parameter::CompressorKnee,
            51 => Parameter::CompressorRatio,
            52 => Parameter::CompressorThreshold,
            53 => Parameter::CompressorGain,
            54 => Parameter::CompressorInOut,
            55 => Parameter::Local48v,
            56 => Parameter::Polarity,
            57 => Parameter::InsertInOut,
            58 => Parameter::DelayTime2,
            59 => Parameter::DelayInOut2,
            60 => Parameter::GeqGain,
            _ => Parameter::GeqInOut,
        }
    }

    /// Every parameter, once each, in order of protocol ID.
    pub fn all() -> (res: Vec<Self>)
        ensures
            res@.len() == PARAMETER_COUNT,
            forall|i: int| 0 <= i < res@.len() ==> #[trigger] res@[i] == nth_parameter(i),
            forall|p: Parameter| res@.contains(p),
            forall|i: int, j: int| 0 <= i < j < res@.len() ==> #[trigger] res@[i] != #[trigger] res@[j],
    {
        let mut res: Vec<Self> = Vec::new();
        let mut i: usize = 0;
        while i < PARAMETER_COUNT
            invariant
                i <= PARAMETER_COUNT,
                res@.len() == i,
                forall|k: int| 0 <= k < i ==> #[trigger] res@[k] == nth_parameter(k),
            decreases PARAMETER_COUNT - i,
        {
            res.push(Self::nth(i));
            i = i + 1;
        }
        proof {
            lemma_positions();
            lemma_positions_inverse();
            assert forall|i: int, j: int| 0 <= i < j < res@.len() implies #[trigger] res@[i] != #[trigger] res@[j] by {
                assert(parameter_position(res@[i]) == i);
                assert(parameter_position(res@[j]) == j);
            }
            assert forall|p: Parameter| res@.contains(p) by {
                assert(res@[parameter_position(p)] == p);
            }
        }
        res
    }
}

/// Every parameter stands at its position in the order of protocol IDs.
proof fn lemma_positions()
    ensures
        forall|p: Parameter|
            0 <= #[trigger] parameter_position(p) < PARAMETER_COUNT
                && nth_parameter(parameter_position(p)) == p,
{
    reveal(nth_parameter);
}

/// Each position holds a different parameter.
proof fn lemma_positions_inverse()
    ensures
        forall|i: int| 0 <= i < PARAMETER_COUNT ==> parameter_position(#[trigger] nth_parameter(i)) == i,
{
    reveal(nth_parameter);
}

/// A parameter is found again from its ID: `from_id(p.id()) == Some(p)`.
pub proof fn id_round_trip(p: Parameter)
    ensures
        parameter_of(parameter_id(p)) == Some(p),
{
}

/// An ID that names a parameter is that parameter's ID, so no two
/// parameters share an ID.
pub proof fn ids_are_unique(id: u8)
    ensures
        parameter_of(id) matches Some(p) ==> parameter_id(p) == id,
{
}

/// Every protocol ID fits in 7 bits.
pub proof fn ids_are_seven_bit(p: Parameter)
    ensures
        parameter_id(p) < 0x80,
{
}

} // verus!
