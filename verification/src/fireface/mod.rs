//! Protocols defined by RME GmbH for Fireface series.

pub mod config_rom;
pub mod former;
pub mod latter;

use vstd::prelude::*;

verus! {

/// The organizationally unique identifier of RME GmbH.
pub const RME_OUI: u32 = 0x00000a35;

/// Nominal frequency of sampling clock.
#[derive(Debug, Copy, Clone, PartialEq, Eq, Structural)]
pub enum ClkNominalRate {
    R32000,
    R44100,
    R48000,
    R64000,
    R88200,
    R96000,
    R128000,
    R176400,
    R192000,
}

impl Default for ClkNominalRate {
    fn default() -> (r: Self)
        ensures
            r == ClkNominalRate::R44100,
    {
        ClkNominalRate::R44100
    }
}

/// Format of S/PDIF signal.
#[derive(Debug, Copy, Clone, PartialEq, Eq, Structural)]
pub enum SpdifFormat {
    Consumer,
    Professional,
}

impl Default for SpdifFormat {
    fn default() -> (r: Self)
        ensures
            r == SpdifFormat::Consumer,
    {
        SpdifFormat::Consumer
    }
}

/// Digital interface of S/PDIF signal.
#[derive(Debug, Copy, Clone, PartialEq, Eq, Structural)]
pub enum SpdifIface {
    Coaxial,
    Optical,
}

impl Default for SpdifIface {
    fn default() -> (r: Self)
        ensures
            r == SpdifIface::Coaxial,
    {
        SpdifIface::Coaxial
    }
}

/// Configuration of S/PDIF input.
#[derive(Debug, Copy, Clone, PartialEq, Eq, Structural)]
pub struct SpdifInput {
    /// The interface of S/PDIF signal.
    pub iface: SpdifIface,
    /// Whether to deliver preamble information by corresponding audio data channel of tx stream.
    pub use_preemble: bool,
}

impl Default for SpdifInput {
    fn default() -> (r: Self)
        ensures
            r == (SpdifInput { iface: SpdifIface::Coaxial, use_preemble: false }),
    {
        SpdifInput { iface: SpdifIface::default(), use_preemble: false }
    }
}

/// Type of signal to optical output interface.
#[derive(Debug, Copy, Clone, PartialEq, Eq, Structural)]
pub enum OpticalOutputSignal {
    Adat,
    Spdif,
}

impl Default for OpticalOutputSignal {
    fn default() -> (r: Self)
        ensures
            r == OpticalOutputSignal::Adat,
    {
        OpticalOutputSignal::Adat
    }
}

/// Nominal level of line outputs.
#[derive(Debug, Copy, Clone, PartialEq, Eq, Structural)]
pub enum LineOutNominalLevel {
    High,
    /// -10 dBV.
    Consumer,
    /// +4 dBu.
    Professional,
}

impl Default for LineOutNominalLevel {
    fn default() -> (r: Self)
        ensures
            r == LineOutNominalLevel::High,
    {
        LineOutNominalLevel::High
    }
}

/// Serialize offsets for parameters.
pub trait RmeFfOffsetParamsSerialize<T> {
    /// The raw data for the parameters.
    spec fn offsets_of(params: T) -> Seq<u8>;

    /// Serialize parameters into raw data.
    fn serialize_offsets(params: &T) -> (raw: Vec<u8>)
        ensures
            raw@ == Self::offsets_of(*params),
    ;
}

/// Deserialize offsets for parameters.
pub trait RmeFfOffsetParamsDeserialize<T> {
    /// Whether the raw data can be deserialized into the parameters.
    spec fn offsets_acceptable(params: T, raw: Seq<u8>) -> bool;

    /// Whether the parameters after deserializing the raw data into the parameters are `after`.
    spec fn deserialized(params: T, raw: Seq<u8>, after: T) -> bool;

    /// Deserialize parameters from raw data.
    fn deserialize_offsets(params: &mut T, raw: &[u8])
        requires
            Self::offsets_acceptable(*old(params), raw@),
        ensures
            Self::deserialized(*old(params), raw@, *final(params)),
    ;
}

} // verus!
