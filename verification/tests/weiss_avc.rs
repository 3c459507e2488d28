use firewire_protocols::weiss::avc::{
    build_param_command_control_data, build_param_command_status_data,
    parse_param_command_response_data, WeissAvcAesebuXlrOutputMute,
    WeissAvcAnalogOutputFilterType, WeissAvcAnalogOutputLevel, WeissAvcAnalogOutputMute,
    WeissAvcAnalogOutputPolarityInversion, WeissAvcDigitalCaptureSource,
    WeissAvcDigitalOutputMode, WeissAvcError, WeissAvcParamCmd, WeissAvcParamConvert,
    WeissAvcSpdifCoaxialOutputMute, WeissAvcWordClockOutputHalfRate, WeissMan301Protocol,
};

const ARGUMENTS: [u8; 24] = [
    0x76, 0x54, 0x32, 0x10, 0xfe, 0xdc, 0xba, 0x98, 0xff, 0xff, 0xff, 0xff, 0xff, 0xff, 0xff, 0xff,
    0xff, 0xff, 0xff, 0xff, 0xff, 0xff, 0xff, 0xff,
];

#[test]
fn param_command_arguments_parse_and_build() {
    let mut cmd = WeissAvcParamCmd::default();
    cmd.arguments = ARGUMENTS.to_vec();
    parse_param_command_response_data(&mut cmd).unwrap();
    assert_eq!(cmd.numeric_id, 0x76543210);
    assert_eq!(cmd.value, 0xfedcba98);
    assert_eq!(cmd.reserved, [u32::MAX; 4]);

    build_param_command_status_data(&mut cmd);
    assert_eq!(&cmd.arguments[..], &ARGUMENTS[..]);

    build_param_command_control_data(&mut cmd);
    assert_eq!(&cmd.arguments[..], &ARGUMENTS[..]);
}

#[test]
fn param_command_arguments_fresh_command() {
    let mut cmd = WeissAvcParamCmd::default();
    cmd.numeric_id = 8;
    cmd.value = 3;
    cmd.reserved = [1, 2, 3, 4];
    build_param_command_status_data(&mut cmd);
    assert_eq!(
        cmd.arguments,
        vec![
            0, 0, 0, 8, 0xff, 0xff, 0xff, 0xff, 0, 0, 0, 1, 0, 0, 0, 2, 0, 0, 0, 3, 0, 0, 0, 4
        ]
    );

    let mut cmd = WeissAvcParamCmd::default();
    cmd.numeric_id = 8;
    cmd.value = 3;
    cmd.reserved = [1, 2, 3, 4];
    build_param_command_control_data(&mut cmd);
    assert_eq!(
        cmd.arguments,
        vec![0, 0, 0, 8, 0, 0, 0, 3, 0, 0, 0, 1, 0, 0, 0, 2, 0, 0, 0, 3, 0, 0, 0, 4]
    );

    let mut back = WeissAvcParamCmd::default();
    back.arguments = cmd.arguments.clone();
    parse_param_command_response_data(&mut back).unwrap();
    assert_eq!(back.numeric_id, 8);
    assert_eq!(back.value, 3);
    assert_eq!(back.reserved, [1, 2, 3, 4]);
}

#[test]
fn param_command_arguments_longer_are_cut() {
    let mut cmd = WeissAvcParamCmd::default();
    cmd.numeric_id = 0;
    cmd.value = 0;
    cmd.reserved = [0; 4];
    cmd.arguments = vec![0xaa; 30];
    build_param_command_control_data(&mut cmd);
    assert_eq!(cmd.arguments, vec![0; 24]);
}

#[test]
fn param_command_arguments_too_short() {
    let mut cmd = WeissAvcParamCmd::default();
    cmd.arguments = ARGUMENTS[..23].to_vec();
    assert_eq!(
        parse_param_command_response_data(&mut cmd),
        Err(WeissAvcError::TooShortResp(24))
    );
    assert_eq!(cmd.numeric_id, u32::MAX);
    assert_eq!(cmd.value, u32::MAX);
}

fn control_value<T>(param: &T) -> (u32, u32)
where
    WeissMan301Protocol: WeissAvcParamConvert<T>,
{
    let mut cmd = WeissAvcParamCmd::default();
    WeissMan301Protocol::build_control_data(param, &mut cmd).unwrap();
    (cmd.numeric_id, cmd.value)
}

fn parsed<T: Default>(numeric_id: u32, value: u32) -> T
where
    WeissMan301Protocol: WeissAvcParamConvert<T>,
{
    let mut cmd = WeissAvcParamCmd::default();
    cmd.numeric_id = numeric_id;
    cmd.value = value;
    let mut param = T::default();
    WeissMan301Protocol::parse_response_data(&mut param, &cmd).unwrap();
    param
}

#[test]
fn param_status_data() {
    let mut cmd = WeissAvcParamCmd::default();
    cmd.value = 5;
    <WeissMan301Protocol as WeissAvcParamConvert<WeissAvcAnalogOutputLevel>>::build_status_data(
        &mut cmd,
    )
    .unwrap();
    assert_eq!(cmd.numeric_id, 8);
    assert_eq!(cmd.value, u32::MAX);
}

#[test]
fn param_conversion_values() {
    assert_eq!(control_value(&WeissAvcDigitalCaptureSource::SpdifOptical), (0, 2));
    assert_eq!(control_value(&WeissAvcDigitalCaptureSource::SpdifCoaxial), (0, 1));
    assert_eq!(control_value(&WeissAvcDigitalCaptureSource::AesebuXlr), (0, 0));
    assert_eq!(control_value(&WeissAvcDigitalOutputMode(true)), (1, 1));
    assert_eq!(control_value(&WeissAvcWordClockOutputHalfRate(true)), (2, 1));
    assert_eq!(control_value(&WeissAvcAesebuXlrOutputMute(true)), (3, 0));
    assert_eq!(control_value(&WeissAvcAesebuXlrOutputMute(false)), (3, 1));
    assert_eq!(control_value(&WeissAvcSpdifCoaxialOutputMute(true)), (4, 0));
    assert_eq!(control_value(&WeissAvcAnalogOutputPolarityInversion(true)), (5, 1));
    assert_eq!(control_value(&WeissAvcAnalogOutputFilterType::B), (6, 1));
    assert_eq!(control_value(&WeissAvcAnalogOutputFilterType::A), (6, 0));
    assert_eq!(control_value(&WeissAvcAnalogOutputMute(true)), (7, 0));
    assert_eq!(control_value(&WeissAvcAnalogOutputLevel::NegativeThirty), (8, 3));
    assert_eq!(control_value(&WeissAvcAnalogOutputLevel::NegativeTen), (8, 1));
}

#[test]
fn param_conversion_parse() {
    assert_eq!(
        parsed::<WeissAvcDigitalCaptureSource>(0, 7),
        WeissAvcDigitalCaptureSource::AesebuXlr
    );
    assert_eq!(
        parsed::<WeissAvcDigitalCaptureSource>(0, 1),
        WeissAvcDigitalCaptureSource::SpdifCoaxial
    );
    assert_eq!(parsed::<WeissAvcDigitalOutputMode>(1, 5), WeissAvcDigitalOutputMode(true));
    assert_eq!(parsed::<WeissAvcAesebuXlrOutputMute>(3, 0), WeissAvcAesebuXlrOutputMute(true));
    assert_eq!(parsed::<WeissAvcAnalogOutputMute>(7, 2), WeissAvcAnalogOutputMute(false));
    assert_eq!(
        parsed::<WeissAvcAnalogOutputFilterType>(6, 9),
        WeissAvcAnalogOutputFilterType::B
    );
    assert_eq!(
        parsed::<WeissAvcAnalogOutputLevel>(8, 2),
        WeissAvcAnalogOutputLevel::NegativeTwenty
    );
    assert_eq!(
        parsed::<WeissAvcAnalogOutputLevel>(8, 4),
        WeissAvcAnalogOutputLevel::Zero
    );
}

#[test]
fn param_conversion_roundtrip() {
    for level in [
        WeissAvcAnalogOutputLevel::Zero,
        WeissAvcAnalogOutputLevel::NegativeTen,
        WeissAvcAnalogOutputLevel::NegativeTwenty,
        WeissAvcAnalogOutputLevel::NegativeThirty,
    ] {
        let (id, value) = control_value(&level);
        assert_eq!(parsed::<WeissAvcAnalogOutputLevel>(id, value), level);
    }
    for on in [false, true] {
        let (id, value) = control_value(&WeissAvcSpdifCoaxialOutputMute(on));
        assert_eq!(
            parsed::<WeissAvcSpdifCoaxialOutputMute>(id, value),
            WeissAvcSpdifCoaxialOutputMute(on)
        );
        let (id, value) = control_value(&WeissAvcWordClockOutputHalfRate(on));
        assert_eq!(
            parsed::<WeissAvcWordClockOutputHalfRate>(id, value),
            WeissAvcWordClockOutputHalfRate(on)
        );
    }
}
