//! Protocol specific to Weiss Engineering AV/C models.
//!
//! MAN301 includes two units in the root directory of its configuration ROM. The first unit
//! expresses AV/C protocol, and the second unit expresses TCAT protocol. Its parameters are
//! operated by a vendor dependent AV/C command whose arguments are a block of six big-endian
//! quadlets: the numeric identifier of the parameter, its value, and four reserved quadlets.
//!
//! ```text
//! spdif-opt-input-1/2  ---+
//! spdif-coax-input-1/2 --(or)--> digital-input-1/2 -----------------> stream-output-1/2
//! aesebu-xlr-input-1/2 ---+
//!
//! stream-input-1/2 --------------------------+----------------------> spdif-coax-output-1/2
//!                                            +----------------------> aesebu-xlr-output-1/2
//!                                            +--analog-output-1/2 --> analog-xlr-output-1/2
//!                                                       +-----------> analog-coax-output-1/2
//! ```
//!
//! The framing of the vendor dependent command and the transaction itself are left to the
//! caller; this module builds and parses the argument block and converts the parameters.

use crate::codec::{be_quad_at, group_quad_lemmas, put_be_quad, read_be_quad, write_be_quad};
use vstd::prelude::*;

verus! {

broadcast use group_quad_lemmas;

/// Protocol implementation specific to MAN301.
#[derive(Default, Debug)]
pub struct WeissMan301Protocol;

/// The length of the argument block in the parameter command.
pub const PARAM_COMMAND_ARGUMENTS_LENGTH: usize = 24;

/// The cause of failure in the parameter command.
#[derive(Debug, Copy, Clone, PartialEq, Eq, Structural)]
pub enum WeissAvcError {
    /// The arguments in the response are shorter than the given length.
    TooShortResp(usize),
}

/// The content of command to operate parameter.
#[derive(Debug)]
pub struct WeissAvcParamCmd {
    /// The numeric identifier of parameter.
    pub numeric_id: u32,
    /// The value of parameter.
    pub value: u32,
    /// For future use.
    pub reserved: [u32; 4],
    /// The arguments of the vendor dependent command.
    pub arguments: Vec<u8>,
}

impl Default for WeissAvcParamCmd {
    /// The command with all of its quadlets filled with ones and no arguments yet.
    fn default() -> (cmd: Self)
        ensures
            cmd.numeric_id == u32::MAX,
            cmd.value == u32::MAX,
            cmd.reserved@ == seq![u32::MAX, u32::MAX, u32::MAX, u32::MAX],
            cmd.arguments@ == Seq::<u8>::empty(),
    {
        let cmd = WeissAvcParamCmd {
            numeric_id: u32::MAX,
            value: u32::MAX,
            reserved: [u32::MAX, u32::MAX, u32::MAX, u32::MAX],
            arguments: Vec::new(),
        };
        proof {
            assert(cmd.reserved@ =~= seq![u32::MAX, u32::MAX, u32::MAX, u32::MAX]);
        }
        cmd
    }
}

/// The bytes cut or extended with `fill` to `len` bytes.
pub open spec fn resized(s: Seq<u8>, len: nat, fill: u8) -> Seq<u8> {
    Seq::new(len, |i: int| if i < s.len() { s[i] } else { fill })
}

/// The bytes after storing the four reserved quadlets after the identifier and the value.
pub open spec fn put_reserved(s: Seq<u8>, reserved: Seq<u32>) -> Seq<u8> {
    put_be_quad(
        put_be_quad(put_be_quad(put_be_quad(s, 8, reserved[0]), 12, reserved[1]), 16, reserved[2]),
        20,
        reserved[3],
    )
}

/// The arguments of status command: the former ones resized with 0xff, then the identifier and
/// the reserved quadlets stored. The quadlet of value keeps what the former arguments had there.
pub open spec fn status_arguments(args: Seq<u8>, numeric_id: u32, reserved: Seq<u32>) -> Seq<u8> {
    put_reserved(put_be_quad(resized(args, 24, 0xff), 0, numeric_id), reserved)
}

/// The arguments of control command: the former ones resized with zero, then the identifier, the
/// value and the reserved quadlets stored.
pub open spec fn control_arguments(
    args: Seq<u8>,
    numeric_id: u32,
    value: u32,
    reserved: Seq<u32>,
) -> Seq<u8> {
    put_reserved(put_be_quad(put_be_quad(resized(args, 24, 0), 0, numeric_id), 4, value), reserved)
}

/// The reserved quadlets stored in the arguments.
pub open spec fn reserved_of(args: Seq<u8>) -> Seq<u32> {
    seq![be_quad_at(args, 8), be_quad_at(args, 12), be_quad_at(args, 16), be_quad_at(args, 20)]
}

/// The arguments of a control command, read back as those of a response, give the identifier,
/// the value and the reserved quadlets of the command.
pub proof fn lemma_control_arguments_roundtrip(
    args: Seq<u8>,
    numeric_id: u32,
    value: u32,
    reserved: Seq<u32>,
)
    requires
        reserved.len() == 4,
    ensures
        control_arguments(args, numeric_id, value, reserved).len() == 24,
        be_quad_at(control_arguments(args, numeric_id, value, reserved), 0) == numeric_id,
        be_quad_at(control_arguments(args, numeric_id, value, reserved), 4) == value,
        reserved_of(control_arguments(args, numeric_id, value, reserved)) == reserved,
{
    let s0 = resized(args, 24, 0);
    let s1 = put_be_quad(s0, 0, numeric_id);
    let s2 = put_be_quad(s1, 4, value);
    let s3 = put_be_quad(s2, 8, reserved[0]);
    let s4 = put_be_quad(s3, 12, reserved[1]);
    let s5 = put_be_quad(s4, 16, reserved[2]);
    let s6 = put_be_quad(s5, 20, reserved[3]);
    assert(be_quad_at(s6, 0) == numeric_id);
    assert(be_quad_at(s6, 4) == value);
    assert(be_quad_at(s6, 8) == reserved[0]);
    assert(be_quad_at(s6, 12) == reserved[1]);
    assert(be_quad_at(s6, 16) == reserved[2]);
    assert(be_quad_at(s6, 20) == reserved[3]);
    assert(reserved_of(s6) =~= reserved);
}

/// The arguments of a status command, read back as those of a response, give the identifier and
/// the reserved quadlets of the command; the value is what the former arguments had there, with
/// ones where they were too short.
pub proof fn lemma_status_arguments_roundtrip(args: Seq<u8>, numeric_id: u32, reserved: Seq<u32>)
    requires
        reserved.len() == 4,
    ensures
        status_arguments(args, numeric_id, reserved).len() == 24,
        be_quad_at(status_arguments(args, numeric_id, reserved), 0) == numeric_id,
        be_quad_at(status_arguments(args, numeric_id, reserved), 4) == be_quad_at(
            resized(args, 24, 0xff),
            4,
        ),
        reserved_of(status_arguments(args, numeric_id, reserved)) == reserved,
{
    let s0 = resized(args, 24, 0xff);
    let s1 = put_be_quad(s0, 0, numeric_id);
    let s3 = put_be_quad(s1, 8, reserved[0]);
    let s4 = put_be_quad(s3, 12, reserved[1]);
    let s5 = put_be_quad(s4, 16, reserved[2]);
    let s6 = put_be_quad(s5, 20, reserved[3]);
    assert(be_quad_at(s6, 0) == numeric_id);
    assert(be_quad_at(s6, 4) == be_quad_at(s0, 4));
    assert(be_quad_at(s6, 8) == reserved[0]);
    assert(be_quad_at(s6, 12) == reserved[1]);
    assert(be_quad_at(s6, 16) == reserved[2]);
    assert(be_quad_at(s6, 20) == reserved[3]);
    assert(reserved_of(s6) =~= reserved);
}

/// Cut or extend the bytes with `fill` to `len` bytes.
fn resize_bytes(bytes: &mut Vec<u8>, len: usize, fill: u8)
    ensures
        final(bytes)@ == resized(old(bytes)@, len as nat, fill),
{
    bytes.truncate(len);
    while bytes.len() < len
        invariant
            bytes@.len() <= len,
            old(bytes)@.len() <= bytes@.len() || bytes@.len() == len,
            forall|i: int|
                0 <= i < bytes@.len() ==> #[trigger] bytes@[i] == resized(
                    old(bytes)@,
                    len as nat,
                    fill,
                )[i],
        decreases len - bytes@.len(),
    {
        bytes.push(fill);
    }
    proof {
        assert(bytes@ =~= resized(old(bytes)@, len as nat, fill));
    }
}

/// Store the four reserved quadlets after the identifier and the value.
fn write_reserved(args: &mut Vec<u8>, reserved: &[u32; 4])
    requires
        old(args)@.len() == 24,
    ensures
        final(args)@ == put_reserved(old(args)@, reserved@),
{
    let mut i: usize = 0;
    let ghost start = args@;
    while i < 4
        invariant
            i <= 4,
            args@.len() == 24,
            start.len() == 24,
            reserved@.len() == 4,
            i == 0 ==> args@ == start,
            i == 1 ==> args@ == put_be_quad(start, 8, reserved@[0]),
            i == 2 ==> args@ == put_be_quad(put_be_quad(start, 8, reserved@[0]), 12, reserved@[1]),
            i == 3 ==> args@ == put_be_quad(
                put_be_quad(put_be_quad(start, 8, reserved@[0]), 12, reserved@[1]),
                16,
                reserved@[2],
            ),
            i == 4 ==> args@ == put_reserved(start, reserved@),
        decreases 4 - i,
    {
        let pos = 8 + i * 4;
        write_be_quad(args.as_mut_slice(), pos, reserved[i]);
        i += 1;
    }
}

/// Build the arguments of status command: resize them to 24 bytes with 0xff, then store the
/// identifier and the reserved quadlets.
pub fn build_param_command_status_data(cmd: &mut WeissAvcParamCmd)
    ensures
        final(cmd).arguments@ == status_arguments(
            old(cmd).arguments@,
            old(cmd).numeric_id,
            old(cmd).reserved@,
        ),
        final(cmd).numeric_id == old(cmd).numeric_id,
        final(cmd).value == old(cmd).value,
        final(cmd).reserved == old(cmd).reserved,
{
    resize_bytes(&mut cmd.arguments, PARAM_COMMAND_ARGUMENTS_LENGTH, 0xff);
    write_be_quad(cmd.arguments.as_mut_slice(), 0, cmd.numeric_id);
    write_reserved(&mut cmd.arguments, &cmd.reserved);
}

/// Build the arguments of control command: resize them to 24 bytes with zero, then store the
/// identifier, the value and the reserved quadlets.
pub fn build_param_command_control_data(cmd: &mut WeissAvcParamCmd)
    ensures
        final(cmd).arguments@ == control_arguments(
            old(cmd).arguments@,
            old(cmd).numeric_id,
            old(cmd).value,
            old(cmd).reserved@,
        ),
        final(cmd).numeric_id == old(cmd).numeric_id,
        final(cmd).value == old(cmd).value,
        final(cmd).reserved == old(cmd).reserved,
{
    resize_bytes(&mut cmd.arguments, PARAM_COMMAND_ARGUMENTS_LENGTH, 0);
    write_be_quad(cmd.arguments.as_mut_slice(), 0, cmd.numeric_id);
    write_be_quad(cmd.arguments.as_mut_slice(), 4, cmd.value);
    write_reserved(&mut cmd.arguments, &cmd.reserved);
}

/// Parse the arguments of response: the identifier, the value and the reserved quadlets. The
/// arguments shorter than 24 bytes are refused and the command is left as it is.
pub fn parse_param_command_response_data(cmd: &mut WeissAvcParamCmd) -> (r: Result<
    (),
    WeissAvcError,
>)
    ensures
        old(cmd).arguments@.len() < 24 <==> r == Err::<(), WeissAvcError>(
            WeissAvcError::TooShortResp(24),
        ),
        r is Ok ==> {
            &&& final(cmd).numeric_id == be_quad_at(old(cmd).arguments@, 0)
            &&& final(cmd).value == be_quad_at(old(cmd).arguments@, 4)
            &&& final(cmd).reserved@ == reserved_of(old(cmd).arguments@)
        },
        r is Err ==> {
            &&& final(cmd).numeric_id == old(cmd).numeric_id
            &&& final(cmd).value == old(cmd).value
            &&& final(cmd).reserved == old(cmd).reserved
        },
        final(cmd).arguments == old(cmd).arguments,
{
    if cmd.arguments.len() < PARAM_COMMAND_ARGUMENTS_LENGTH {
        return Err(WeissAvcError::TooShortResp(PARAM_COMMAND_ARGUMENTS_LENGTH));
    }
    let args = cmd.arguments.as_slice();
    let numeric_id = read_be_quad(args, 0);
    let value = read_be_quad(args, 4);
    let reserved = [
        read_be_quad(args, 8),
        read_be_quad(args, 12),
        read_be_quad(args, 16),
        read_be_quad(args, 20),
    ];
    cmd.numeric_id = numeric_id;
    cmd.value = value;
    cmd.reserved = reserved;
    proof {
        assert(cmd.reserved@ =~= reserved_of(old(cmd).arguments@));
    }
    Ok(())
}

/// The numeric identifier of the source of digital capture.
pub const PARAM_ID_DIGITAL_CAPTURE_SOURCE: u32 = 0;

/// The numeric identifier of the mode of digital output.
pub const PARAM_ID_DIGITAL_OUTPUT_MODE: u32 = 1;

/// The numeric identifier of the half rate of word clock output.
pub const PARAM_ID_WORD_CLOCK_OUTPUT_HALF_RATE: u32 = 2;

/// The numeric identifier of the mute of AES/EBU XLR output.
pub const PARAM_ID_AESEBU_XLR_OUTPUT_MUTE: u32 = 3;

/// The numeric identifier of the mute of S/PDIF coaxial output.
pub const PARAM_ID_SPDIF_COAXIAL_OUTPUT_MUTE: u32 = 4;

/// The numeric identifier of the polarity inversion of analog output.
pub const PARAM_ID_ANALOG_OUTPUT_POLARITY_INVERSION: u32 = 5;

/// The numeric identifier of the type of oversampling filter in analog output.
pub const PARAM_ID_ANALOG_OUTPUT_FILTER_TYPE: u32 = 6;

/// The numeric identifier of the mute of analog output.
pub const PARAM_ID_ANALOG_OUTPUT_MUTE: u32 = 7;

/// The numeric identifier of the level of analog output.
pub const PARAM_ID_ANALOG_OUTPUT_LEVEL: u32 = 8;

/// Convert between parameter and command.
pub trait WeissAvcParamConvert<T> {
    /// The numeric identifier of the parameter.
    spec fn spec_param_id() -> u32;

    /// The value which a control command carries for the parameter.
    spec fn spec_param_value(param: T) -> u32;

    /// The parameter which a value in a response stands for.
    spec fn spec_param_of(value: u32) -> T;

    /// Build data for status command: the identifier of the parameter and the value filled with
    /// ones.
    fn build_status_data(cmd: &mut WeissAvcParamCmd) -> (r: Result<(), WeissAvcError>)
        ensures
            r is Ok,
            final(cmd).numeric_id == Self::spec_param_id(),
            final(cmd).value == u32::MAX,
            final(cmd).reserved == old(cmd).reserved,
            final(cmd).arguments == old(cmd).arguments,
    ;

    /// Build data for control command: the identifier and the value of the parameter.
    fn build_control_data(param: &T, cmd: &mut WeissAvcParamCmd) -> (r: Result<(), WeissAvcError>)
        ensures
            r is Ok,
            final(cmd).numeric_id == Self::spec_param_id(),
            final(cmd).value == Self::spec_param_value(*param),
            final(cmd).reserved == old(cmd).reserved,
            final(cmd).arguments == old(cmd).arguments,
    ;

    /// Parse data for response, which carries the identifier of the parameter.
    fn parse_response_data(param: &mut T, cmd: &WeissAvcParamCmd) -> (r: Result<(), WeissAvcError>)
        requires
            cmd.numeric_id == Self::spec_param_id(),
        ensures
            r is Ok,
            *final(param) == Self::spec_param_of(cmd.value),
    ;

    /// The parameter which a response with the value of a control command stands for is the
    /// parameter of the command.
    proof fn lemma_param_value_roundtrip(param: T)
        ensures
            Self::spec_param_of(Self::spec_param_value(param)) == param,
    ;
}

/// The source of digital input captured for output packet stream.
#[derive(Debug, Copy, Clone, PartialEq, Eq, Structural)]
pub enum WeissAvcDigitalCaptureSource {
    /// AES/EBU signal in XLR input interface.
    AesebuXlr,
    /// S/PDIF signal in coaxial input interface.
    SpdifCoaxial,
    /// S/PDIF signal in optical input interface.
    SpdifOptical,
}

impl Default for WeissAvcDigitalCaptureSource {
    fn default() -> (r: Self)
        ensures
            r == WeissAvcDigitalCaptureSource::AesebuXlr,
    {
        Self::AesebuXlr
    }
}

impl WeissAvcParamConvert<WeissAvcDigitalCaptureSource> for WeissMan301Protocol {
    open spec fn spec_param_id() -> u32 {
        PARAM_ID_DIGITAL_CAPTURE_SOURCE
    }

    open spec fn spec_param_value(param: WeissAvcDigitalCaptureSource) -> u32 {
        match param {
            WeissAvcDigitalCaptureSource::SpdifOptical => 2,
            WeissAvcDigitalCaptureSource::SpdifCoaxial => 1,
            WeissAvcDigitalCaptureSource::AesebuXlr => 0,
        }
    }

    open spec fn spec_param_of(value: u32) -> WeissAvcDigitalCaptureSource {
        if value == 2 {
            WeissAvcDigitalCaptureSource::SpdifOptical
        } else if value == 1 {
            WeissAvcDigitalCaptureSource::SpdifCoaxial
        } else {
            WeissAvcDigitalCaptureSource::AesebuXlr
        }
    }

    fn build_status_data(cmd: &mut WeissAvcParamCmd) -> (r: Result<(), WeissAvcError>) {
        cmd.numeric_id = PARAM_ID_DIGITAL_CAPTURE_SOURCE;
        cmd.value = u32::MAX;
        Ok(())
    }

    fn build_control_data(
        param: &WeissAvcDigitalCaptureSource,
        cmd: &mut WeissAvcParamCmd,
    ) -> (r: Result<(), WeissAvcError>) {
        cmd.numeric_id = PARAM_ID_DIGITAL_CAPTURE_SOURCE;
        cmd.value = match param {
            WeissAvcDigitalCaptureSource::SpdifOptical => 2,
            WeissAvcDigitalCaptureSource::SpdifCoaxial => 1,
            WeissAvcDigitalCaptureSource::AesebuXlr => 0,
        };
        Ok(())
    }

    fn parse_response_data(
        param: &mut WeissAvcDigitalCaptureSource,
        cmd: &WeissAvcParamCmd,
    ) -> (r: Result<(), WeissAvcError>) {
        *param = match cmd.value {
            2 => WeissAvcDigitalCaptureSource::SpdifOptical,
            1 => WeissAvcDigitalCaptureSource::SpdifCoaxial,
            _ => WeissAvcDigitalCaptureSource::AesebuXlr,
        };
        Ok(())
    }

    proof fn lemma_param_value_roundtrip(param: WeissAvcDigitalCaptureSource) {
    }
}

/// The mode of AES/EBU XLR output and S/PDIF coaxial output. When enabled, it is in "dual wire"
/// mode at 176.4/192.0 kHz; i.e. the former is for the left audio channel, and the latter is for
/// right audio channel.
#[derive(Default, Debug, Copy, Clone, PartialEq, Eq, Structural)]
pub struct WeissAvcDigitalOutputMode(pub bool);

impl WeissAvcParamConvert<WeissAvcDigitalOutputMode> for WeissMan301Protocol {
    open spec fn spec_param_id() -> u32 {
        PARAM_ID_DIGITAL_OUTPUT_MODE
    }

    open spec fn spec_param_value(param: WeissAvcDigitalOutputMode) -> u32 {
        if param.0 { 1 } else { 0 }
    }

    open spec fn spec_param_of(value: u32) -> WeissAvcDigitalOutputMode {
        WeissAvcDigitalOutputMode(value > 0)
    }

    fn build_status_data(cmd: &mut WeissAvcParamCmd) -> (r: Result<(), WeissAvcError>) {
        cmd.numeric_id = PARAM_ID_DIGITAL_OUTPUT_MODE;
        cmd.value = u32::MAX;
        Ok(())
    }

    fn build_control_data(param: &WeissAvcDigitalOutputMode, cmd: &mut WeissAvcParamCmd) -> (r: Result<
        (),
        WeissAvcError,
    >) {
        cmd.numeric_id = PARAM_ID_DIGITAL_OUTPUT_MODE;
        cmd.value = if param.0 { 1 } else { 0 };
        Ok(())
    }

    fn parse_response_data(param: &mut WeissAvcDigitalOutputMode, cmd: &WeissAvcParamCmd) -> (r: Result<
        (),
        WeissAvcError,
    >) {
        param.0 = cmd.value > 0;
        Ok(())
    }

    proof fn lemma_param_value_roundtrip(param: WeissAvcDigitalOutputMode) {
    }
}

/// The mode of word clock at dual wire mode. When enabled, the output of BNC for word clock is at
/// half of sampling rate.
#[derive(Default, Debug, Copy, Clone, PartialEq, Eq, Structural)]
pub struct WeissAvcWordClockOutputHalfRate(pub bool);

impl WeissAvcParamConvert<WeissAvcWordClockOutputHalfRate> for WeissMan301Protocol {
    open spec fn spec_param_id() -> u32 {
        PARAM_ID_WORD_CLOCK_OUTPUT_HALF_RATE
    }

    open spec fn spec_param_value(param: WeissAvcWordClockOutputHalfRate) -> u32 {
        if param.0 { 1 } else { 0 }
    }

    open spec fn spec_param_of(value: u32) -> WeissAvcWordClockOutputHalfRate {
        WeissAvcWordClockOutputHalfRate(value > 0)
    }

    fn build_status_data(cmd: &mut WeissAvcParamCmd) -> (r: Result<(), WeissAvcError>) {
        cmd.numeric_id = PARAM_ID_WORD_CLOCK_OUTPUT_HALF_RATE;
        cmd.value = u32::MAX;
        Ok(())
    }

    fn build_control_data(param: &WeissAvcWordClockOutputHalfRate, cmd: &mut WeissAvcParamCmd) -> (r: Result<
        (),
        WeissAvcError,
    >) {
        cmd.numeric_id = PARAM_ID_WORD_CLOCK_OUTPUT_HALF_RATE;
        cmd.value = if param.0 { 1 } else { 0 };
        Ok(())
    }

    fn parse_response_data(param: &mut WeissAvcWordClockOutputHalfRate, cmd: &WeissAvcParamCmd) -> (r: Result<
        (),
        WeissAvcError,
    >) {
        param.0 = cmd.value > 0;
        Ok(())
    }

    proof fn lemma_param_value_roundtrip(param: WeissAvcWordClockOutputHalfRate) {
    }
}

/// Mute XLR output.
#[derive(Default, Debug, Copy, Clone, PartialEq, Eq, Structural)]
pub struct WeissAvcAesebuXlrOutputMute(pub bool);

impl WeissAvcParamConvert<WeissAvcAesebuXlrOutputMute> for WeissMan301Protocol {
    open spec fn spec_param_id() -> u32 {
        PARAM_ID_AESEBU_XLR_OUTPUT_MUTE
    }

    open spec fn spec_param_value(param: WeissAvcAesebuXlrOutputMute) -> u32 {
        if param.0 { 0 } else { 1 }
    }

    open spec fn spec_param_of(value: u32) -> WeissAvcAesebuXlrOutputMute {
        WeissAvcAesebuXlrOutputMute(value == 0)
    }

    fn build_status_data(cmd: &mut WeissAvcParamCmd) -> (r: Result<(), WeissAvcError>) {
        cmd.numeric_id = PARAM_ID_AESEBU_XLR_OUTPUT_MUTE;
        cmd.value = u32::MAX;
        Ok(())
    }

    fn build_control_data(param: &WeissAvcAesebuXlrOutputMute, cmd: &mut WeissAvcParamCmd) -> (r: Result<
        (),
        WeissAvcError,
    >) {
        cmd.numeric_id = PARAM_ID_AESEBU_XLR_OUTPUT_MUTE;
        cmd.value = if param.0 { 0 } else { 1 };
        Ok(())
    }

    fn parse_response_data(param: &mut WeissAvcAesebuXlrOutputMute, cmd: &WeissAvcParamCmd) -> (r: Result<
        (),
        WeissAvcError,
    >) {
        param.0 = cmd.value == 0;
        Ok(())
    }

    proof fn lemma_param_value_roundtrip(param: WeissAvcAesebuXlrOutputMute) {
    }
}

/// Mute coaxial output.
#[derive(Default, Debug, Copy, Clone, PartialEq, Eq, Structural)]
pub struct WeissAvcSpdifCoaxialOutputMute(pub bool);

impl WeissAvcParamConvert<WeissAvcSpdifCoaxialOutputMute> for WeissMan301Protocol {
    open spec fn spec_param_id() -> u32 {
        PARAM_ID_SPDIF_COAXIAL_OUTPUT_MUTE
    }

    open spec fn spec_param_value(param: WeissAvcSpdifCoaxialOutputMute) -> u32 {
        if param.0 { 0 } else { 1 }
    }

    open spec fn spec_param_of(value: u32) -> WeissAvcSpdifCoaxialOutputMute {
        WeissAvcSpdifCoaxialOutputMute(value == 0)
    }

    fn build_status_data(cmd: &mut WeissAvcParamCmd) -> (r: Result<(), WeissAvcError>) {
        cmd.numeric_id = PARAM_ID_SPDIF_COAXIAL_OUTPUT_MUTE;
        cmd.value = u32::MAX;
        Ok(())
    }

    fn build_control_data(param: &WeissAvcSpdifCoaxialOutputMute, cmd: &mut WeissAvcParamCmd) -> (r: Result<
        (),
        WeissAvcError,
    >) {
        cmd.numeric_id = PARAM_ID_SPDIF_COAXIAL_OUTPUT_MUTE;
        cmd.value = if param.0 { 0 } else { 1 };
        Ok(())
    }

    fn parse_response_data(param: &mut WeissAvcSpdifCoaxialOutputMute, cmd: &WeissAvcParamCmd) -> (r: Result<
        (),
        WeissAvcError,
    >) {
        param.0 = cmd.value == 0;
        Ok(())
    }

    proof fn lemma_param_value_roundtrip(param: WeissAvcSpdifCoaxialOutputMute) {
    }
}

/// Invert polarity of analog output.
#[derive(Default, Debug, Copy, Clone, PartialEq, Eq, Structural)]
pub struct WeissAvcAnalogOutputPolarityInversion(pub bool);

impl WeissAvcParamConvert<WeissAvcAnalogOutputPolarityInversion> for WeissMan301Protocol {
    open spec fn spec_param_id() -> u32 {
        PARAM_ID_ANALOG_OUTPUT_POLARITY_INVERSION
    }

    open spec fn spec_param_value(param: WeissAvcAnalogOutputPolarityInversion) -> u32 {
        if param.0 { 1 } else { 0 }
    }

    open spec fn spec_param_of(value: u32) -> WeissAvcAnalogOutputPolarityInversion {
        WeissAvcAnalogOutputPolarityInversion(value > 0)
    }

    fn build_status_data(cmd: &mut WeissAvcParamCmd) -> (r: Result<(), WeissAvcError>) {
        cmd.numeric_id = PARAM_ID_ANALOG_OUTPUT_POLARITY_INVERSION;
        cmd.value = u32::MAX;
        Ok(())
    }

    fn build_control_data(param: &WeissAvcAnalogOutputPolarityInversion, cmd: &mut WeissAvcParamCmd) -> (r: Result<
        (),
        WeissAvcError,
    >) {
        cmd.numeric_id = PARAM_ID_ANALOG_OUTPUT_POLARITY_INVERSION;
        cmd.value = if param.0 { 1 } else { 0 };
        Ok(())
    }

    fn parse_response_data(param: &mut WeissAvcAnalogOutputPolarityInversion, cmd: &WeissAvcParamCmd) -> (r: Result<
        (),
        WeissAvcError,
    >) {
        param.0 = cmd.value > 0;
        Ok(())
    }

    proof fn lemma_param_value_roundtrip(param: WeissAvcAnalogOutputPolarityInversion) {
    }
}

/// The type of oversampling filter in analog output.
#[derive(Debug, Copy, Clone, PartialEq, Eq, Structural)]
pub enum WeissAvcAnalogOutputFilterType {
    A,
    B,
}

impl Default for WeissAvcAnalogOutputFilterType {
    fn default() -> (r: Self)
        ensures
            r == WeissAvcAnalogOutputFilterType::A,
    {
        Self::A
    }
}

impl WeissAvcParamConvert<WeissAvcAnalogOutputFilterType> for WeissMan301Protocol {
    open spec fn spec_param_id() -> u32 {
        PARAM_ID_ANALOG_OUTPUT_FILTER_TYPE
    }

    open spec fn spec_param_value(param: WeissAvcAnalogOutputFilterType) -> u32 {
        if param == WeissAvcAnalogOutputFilterType::B {
            1
        } else {
            0
        }
    }

    open spec fn spec_param_of(value: u32) -> WeissAvcAnalogOutputFilterType {
        if value > 0 {
            WeissAvcAnalogOutputFilterType::B
        } else {
            WeissAvcAnalogOutputFilterType::A
        }
    }

    fn build_status_data(cmd: &mut WeissAvcParamCmd) -> (r: Result<(), WeissAvcError>) {
        cmd.numeric_id = PARAM_ID_ANALOG_OUTPUT_FILTER_TYPE;
        cmd.value = u32::MAX;
        Ok(())
    }

    fn build_control_data(
        param: &WeissAvcAnalogOutputFilterType,
        cmd: &mut WeissAvcParamCmd,
    ) -> (r: Result<(), WeissAvcError>) {
        cmd.numeric_id = PARAM_ID_ANALOG_OUTPUT_FILTER_TYPE;
        cmd.value = match param {
            WeissAvcAnalogOutputFilterType::B => 1,
            WeissAvcAnalogOutputFilterType::A => 0,
        };
        Ok(())
    }

    fn parse_response_data(
        param: &mut WeissAvcAnalogOutputFilterType,
        cmd: &WeissAvcParamCmd,
    ) -> (r: Result<(), WeissAvcError>) {
        *param = if cmd.value > 0 {
            WeissAvcAnalogOutputFilterType::B
        } else {
            WeissAvcAnalogOutputFilterType::A
        };
        Ok(())
    }

    proof fn lemma_param_value_roundtrip(param: WeissAvcAnalogOutputFilterType) {
    }
}

/// Mute analog output.
#[derive(Default, Debug, Copy, Clone, PartialEq, Eq, Structural)]
pub struct WeissAvcAnalogOutputMute(pub bool);

impl WeissAvcParamConvert<WeissAvcAnalogOutputMute> for WeissMan301Protocol {
    open spec fn spec_param_id() -> u32 {
        PARAM_ID_ANALOG_OUTPUT_MUTE
    }

    open spec fn spec_param_value(param: WeissAvcAnalogOutputMute) -> u32 {
        if param.0 { 0 } else { 1 }
    }

    open spec fn spec_param_of(value: u32) -> WeissAvcAnalogOutputMute {
        WeissAvcAnalogOutputMute(value == 0)
    }

    fn build_status_data(cmd: &mut WeissAvcParamCmd) -> (r: Result<(), WeissAvcError>) {
        cmd.numeric_id = PARAM_ID_ANALOG_OUTPUT_MUTE;
        cmd.value = u32::MAX;
        Ok(())
    }

    fn build_control_data(param: &WeissAvcAnalogOutputMute, cmd: &mut WeissAvcParamCmd) -> (r: Result<
        (),
        WeissAvcError,
    >) {
        cmd.numeric_id = PARAM_ID_ANALOG_OUTPUT_MUTE;
        cmd.value = if param.0 { 0 } else { 1 };
        Ok(())
    }

    fn parse_response_data(param: &mut WeissAvcAnalogOutputMute, cmd: &WeissAvcParamCmd) -> (r: Result<
        (),
        WeissAvcError,
    >) {
        param.0 = cmd.value == 0;
        Ok(())
    }

    proof fn lemma_param_value_roundtrip(param: WeissAvcAnalogOutputMute) {
    }
}

/// The level of analog output.
#[derive(Debug, Copy, Clone, PartialEq, Eq, Structural)]
pub enum WeissAvcAnalogOutputLevel {
    /// 0 dB.
    Zero,
    /// -10 dB.
    NegativeTen,
    /// -20 dB.
    NegativeTwenty,
    /// -30 dB.
    NegativeThirty,
}

impl Default for WeissAvcAnalogOutputLevel {
    fn default() -> (r: Self)
        ensures
            r == WeissAvcAnalogOutputLevel::Zero,
    {
        Self::Zero
    }
}

impl WeissAvcParamConvert<WeissAvcAnalogOutputLevel> for WeissMan301Protocol {
    open spec fn spec_param_id() -> u32 {
        PARAM_ID_ANALOG_OUTPUT_LEVEL
    }

    open spec fn spec_param_value(param: WeissAvcAnalogOutputLevel) -> u32 {
        match param {
            WeissAvcAnalogOutputLevel::NegativeThirty => 3,
            WeissAvcAnalogOutputLevel::NegativeTwenty => 2,
            WeissAvcAnalogOutputLevel::NegativeTen => 1,
            WeissAvcAnalogOutputLevel::Zero => 0,
        }
    }

    open spec fn spec_param_of(value: u32) -> WeissAvcAnalogOutputLevel {
        if value == 3 {
            WeissAvcAnalogOutputLevel::NegativeThirty
        } else if value == 2 {
            WeissAvcAnalogOutputLevel::NegativeTwenty
        } else if value == 1 {
            WeissAvcAnalogOutputLevel::NegativeTen
        } else {
            WeissAvcAnalogOutputLevel::Zero
        }
    }

    fn build_status_data(cmd: &mut WeissAvcParamCmd) -> (r: Result<(), WeissAvcError>) {
        cmd.numeric_id = PARAM_ID_ANALOG_OUTPUT_LEVEL;
        cmd.value = u32::MAX;
        Ok(())
    }

    fn build_control_data(
        param: &WeissAvcAnalogOutputLevel,
        cmd: &mut WeissAvcParamCmd,
    ) -> (r: Result<(), WeissAvcError>) {
        cmd.numeric_id = PARAM_ID_ANALOG_OUTPUT_LEVEL;
        cmd.value = match param {
            WeissAvcAnalogOutputLevel::NegativeThirty => 3,
            WeissAvcAnalogOutputLevel::NegativeTwenty => 2,
            WeissAvcAnalogOutputLevel::NegativeTen => 1,
            WeissAvcAnalogOutputLevel::Zero => 0,
        };
        Ok(())
    }

    fn parse_response_data(
        param: &mut WeissAvcAnalogOutputLevel,
        cmd: &WeissAvcParamCmd,
    ) -> (r: Result<(), WeissAvcError>) {
        *param = match cmd.value {
            3 => WeissAvcAnalogOutputLevel::NegativeThirty,
            2 => WeissAvcAnalogOutputLevel::NegativeTwenty,
            1 => WeissAvcAnalogOutputLevel::NegativeTen,
            _ => WeissAvcAnalogOutputLevel::Zero,
        };
        Ok(())
    }

    proof fn lemma_param_value_roundtrip(param: WeissAvcAnalogOutputLevel) {
    }
}

} // verus!
