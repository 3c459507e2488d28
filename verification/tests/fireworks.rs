use firewire_protocols::fireworks::flash::{
    EfwFlashErase, EfwFlashRead, EfwFlashState, EfwFlashWrite, BLOCK_QUADLET_COUNT,
    CATEGORY_FLASH, CMD_ERASE, CMD_LOCK, CMD_READ, CMD_SESSION_BASE, CMD_STATUS, CMD_WRITE,
};
use firewire_protocols::fireworks::hw_ctl::{
    deserialize_hw_ctl_flag, serialize_hw_ctl_flag, HwCtlFlag,
};
use firewire_protocols::fireworks::transport::{
    deserialize_tx_packet_format, serialize_tx_packet_format, TxPacketFormat,
};
use firewire_protocols::fireworks::{
    deserialize_clock_source, serialize_clock_source, ClkSrc, EfwError, EfwHardwareSpecification,
    EfwProtocolError, EfwProtocolExtManual, EfwWhollyCachableParamsOperation,
    EfwWhollyUpdatableParamsOperation, HwCap, PhysGroupType,
};
use std::cell::RefCell;

const BLOCK_SIZE: usize = 4 * BLOCK_QUADLET_COUNT as usize;
const TIMEOUT: u32 = 10;

struct TestProtocol;

impl EfwHardwareSpecification for TestProtocol {
    fn supported_sampling_rates() -> &'static [u32] {
        &[]
    }
    fn supported_sampling_clocks() -> &'static [ClkSrc] {
        &[]
    }
    fn capabilities() -> &'static [HwCap] {
        &[]
    }
    const RX_CHANNEL_COUNTS: [usize; 3] = [0; 3];
    const TX_CHANNEL_COUNTS: [usize; 3] = [0; 3];
    const MONITOR_SOURCE_COUNT: usize = 0;
    const MONITOR_DESTINATION_COUNT: usize = 0;
    const MIDI_INPUT_COUNT: usize = 0;
    const MIDI_OUTPUT_COUNT: usize = 0;
    fn phys_input_groups() -> &'static [(PhysGroupType, usize)] {
        &[]
    }
    fn phys_output_groups() -> &'static [(PhysGroupType, usize)] {
        &[]
    }
}

#[derive(Default)]
struct TestInstance(RefCell<StateMachine>);

fn error(kind: EfwProtocolError, msg: &str) -> EfwError {
    EfwError::Protocol(kind, msg.to_string())
}

struct StateMachine {
    // Here, the state machine is defined to have four blocks in which the first block is
    // immutable.
    memory: [u8; 4 * BLOCK_SIZE],
    // At initial state, the memory is locked against erase and write operation.
    locked: bool,
}

impl Default for StateMachine {
    fn default() -> Self {
        Self {
            memory: [0; 4 * BLOCK_SIZE],
            locked: true,
        }
    }
}

impl StateMachine {
    fn erase_block(&mut self, args: &[u32], params: &mut Vec<u32>) -> Result<(), EfwError> {
        if params.len() > 0 {
            Err(error(EfwProtocolError::BadParameter, "Useless parameter is given"))
        } else if args.len() < 1 {
            Err(error(EfwProtocolError::BadCommand, "Argument is shorter than expected"))
        } else {
            // Align to block.
            let pos = (args[0] as usize) / BLOCK_SIZE * BLOCK_SIZE;
            if pos == 0 {
                Err(error(EfwProtocolError::BadCommand, "The first block is immutable"))
            } else if pos > self.memory.len() {
                Err(error(EfwProtocolError::BadCommand, "The offset is out of range"))
            } else if self.locked {
                Err(error(EfwProtocolError::FlashBusy, "The flash memory is locked"))
            } else {
                self.memory[pos..(pos + BLOCK_SIZE)].fill(0);
                Ok(())
            }
        }
    }

    fn read_data(&self, args: &[u32], params: &mut Vec<u32>) -> Result<(), EfwError> {
        if args.len() < 2 {
            Err(error(EfwProtocolError::BadCommand, "Argument is shorter than expected"))
        } else {
            let offset = args[0] as usize;
            let count = args[1] as usize;
            if count >= BLOCK_SIZE {
                Err(error(
                    EfwProtocolError::BadCommand,
                    "The count of data should be less than size of block",
                ))
            } else if offset + 4 * count > self.memory.len() {
                Err(error(EfwProtocolError::BadCommand, "The offset plus count is out of range"))
            } else if params.len() < 2 + count {
                Err(error(EfwProtocolError::BadParameter, "Parameter is shorter than expected"))
            } else {
                params[0] = offset as u32;
                params[1] = count as u32;

                let mut quadlet = [0; 4];
                params[2..].iter_mut().enumerate().for_each(|(i, d)| {
                    let pos = offset as usize + i * 4;
                    quadlet.copy_from_slice(&self.memory[pos..(pos + 4)]);
                    *d = u32::from_be_bytes(quadlet);
                });
                Ok(())
            }
        }
    }

    fn write_data(&mut self, args: &[u32], params: &mut Vec<u32>) -> Result<(), EfwError> {
        if params.len() > 0 {
            Err(error(EfwProtocolError::BadParameter, "Useless parameter is given"))
        } else if args.len() < 3 {
            Err(error(EfwProtocolError::BadCommand, "Argument is shorter than expected"))
        } else {
            let offset = args[0] as usize;
            if offset < BLOCK_SIZE {
                Err(error(EfwProtocolError::BadCommand, "The first block is immutable"))
            } else {
                let count = args[1] as usize;
                let data = &args[2..];

                if data.len() < count {
                    Err(error(EfwProtocolError::BadCommand, "Contradiction between count and data"))
                } else if data.len() > BLOCK_QUADLET_COUNT {
                    Err(error(
                        EfwProtocolError::BadCommand,
                        "The count of data should be less than size of block",
                    ))
                } else if offset + 4 * data.len() > self.memory.len() {
                    Err(error(
                        EfwProtocolError::BadCommand,
                        "The offset plus length is out of range",
                    ))
                } else if self.locked {
                    Err(error(EfwProtocolError::FlashBusy, "The flash memory is locked"))
                } else {
                    data.iter().enumerate().for_each(|(i, d)| {
                        let pos = offset + i * 4;
                        self.memory[pos..(pos + 4)].copy_from_slice(&d.to_be_bytes());
                    });
                    Ok(())
                }
            }
        }
    }

    fn get_status(&self, args: &[u32], params: &mut Vec<u32>) -> Result<(), EfwError> {
        if args.len() > 0 {
            Err(error(EfwProtocolError::BadCommand, "Useless argument is given"))
        } else if params.len() > 0 {
            Err(error(EfwProtocolError::BadParameter, "Useless parameter is given"))
        } else if self.locked {
            Err(error(EfwProtocolError::FlashBusy, "The flash memory is locked"))
        } else {
            Ok(())
        }
    }

    fn get_session_base(&self, args: &[u32], params: &mut Vec<u32>) -> Result<(), EfwError> {
        if args.len() > 0 {
            Err(error(EfwProtocolError::BadCommand, "Useless argument is given"))
        } else if params.len() < 1 {
            Err(error(EfwProtocolError::BadParameter, "Parameter is shorter than expected"))
        } else {
            params[0] = BLOCK_SIZE as u32;
            Ok(())
        }
    }

    fn lock_memory(&mut self, args: &[u32], params: &mut Vec<u32>) -> Result<(), EfwError> {
        if params.len() > 0 {
            Err(error(EfwProtocolError::BadCommand, "Useless parameter is given"))
        } else if args.len() < 1 {
            Err(error(EfwProtocolError::BadParameter, "Argument is shorter than expected"))
        } else {
            self.locked = args[0] > 0;
            Ok(())
        }
    }
}

impl EfwProtocolExtManual for TestInstance {
    fn transaction(
        &self,
        category: u32,
        command: u32,
        args: &[u32],
        params: &mut Vec<u32>,
        _: u32,
    ) -> Result<(), EfwError> {
        assert_eq!(category, CATEGORY_FLASH);
        match command {
            CMD_ERASE => self.0.borrow_mut().erase_block(args, params),
            CMD_READ => self.0.borrow_mut().read_data(args, params),
            CMD_WRITE => self.0.borrow_mut().write_data(args, params),
            CMD_STATUS => self.0.borrow_mut().get_status(args, params),
            CMD_SESSION_BASE => self.0.borrow_mut().get_session_base(args, params),
            CMD_LOCK => self.0.borrow_mut().lock_memory(args, params),
            _ => unreachable!(),
        }
    }
}

#[test]
fn flash_lock_test() {
    let mut proto = TestInstance::default();

    // The initial status should be locked.
    let mut state = EfwFlashState::default();
    TestProtocol::cache_wholly(&mut proto, &mut state, TIMEOUT).unwrap();

    // The erase operation should be failed due to locked status.
    let erase = EfwFlashErase { offset: 256 };
    let err = TestProtocol::update_wholly(&mut proto, &erase, TIMEOUT).unwrap_err();
    assert_eq!(err.protocol_kind(), Some(EfwProtocolError::FlashBusy));

    // The write operation should be failed as well due to locked status.
    let write = EfwFlashWrite {
        offset: 256,
        data: vec![0; 16],
    };
    let err = TestProtocol::update_wholly(&mut proto, &write, TIMEOUT).unwrap_err();
    assert_eq!(err.protocol_kind(), Some(EfwProtocolError::FlashBusy));

    // The read operation is always available.
    let mut read = EfwFlashRead {
        offset: 0,
        data: vec![0; 64],
    };
    TestProtocol::cache_wholly(&mut proto, &mut read, TIMEOUT).unwrap();

    // Unlock it.
    let state = EfwFlashState::Unlocked;
    TestProtocol::update_wholly(&mut proto, &state, TIMEOUT).unwrap();

    // The erase operation should be available now.
    TestProtocol::update_wholly(&mut proto, &erase, TIMEOUT).unwrap();

    // The write operation should be available now.
    TestProtocol::update_wholly(&mut proto, &write, TIMEOUT).unwrap();

    // The read operation is always available.
    TestProtocol::cache_wholly(&mut proto, &mut read, TIMEOUT).unwrap();

    // Lock it.
    let state = EfwFlashState::Locked;
    TestProtocol::update_wholly(&mut proto, &state, TIMEOUT).unwrap();

    let mut state = EfwFlashState::default();
    TestProtocol::cache_wholly(&mut proto, &mut state, TIMEOUT).unwrap();
    assert_eq!(state, EfwFlashState::Locked);

    // The erase operation should be failed again;
    let err = TestProtocol::update_wholly(&mut proto, &erase, TIMEOUT).unwrap_err();
    assert_eq!(err.protocol_kind(), Some(EfwProtocolError::FlashBusy));

    // The write operation should be failed as well;
    let err = TestProtocol::update_wholly(&mut proto, &write, TIMEOUT).unwrap_err();
    assert_eq!(err.protocol_kind(), Some(EfwProtocolError::FlashBusy));

    // The read operation is always available.
    TestProtocol::cache_wholly(&mut proto, &mut read, TIMEOUT).unwrap();
}

#[test]
fn flash_update_test() {
    let mut proto = TestInstance::default();

    let count = proto.0.borrow().memory.len() / 4;
    (0..count).for_each(|i| {
        let pos = i * 4;
        proto.0.borrow_mut().memory[pos..(pos + 4)].copy_from_slice(&(i as u32).to_be_bytes());
    });

    let state = EfwFlashState::Unlocked;
    TestProtocol::update_wholly(&mut proto, &state, TIMEOUT).unwrap();

    let erase = EfwFlashErase { offset: 256 };
    TestProtocol::update_wholly(&mut proto, &erase, TIMEOUT).unwrap();

    // Check near the boundary between first and second blocks.
    let mut read = EfwFlashRead {
        offset: 248,
        data: vec![0; 16],
    };
    TestProtocol::cache_wholly(&mut proto, &mut read, TIMEOUT).unwrap();

    // Check near the boundary between second and third blocks.
    let mut read = EfwFlashRead {
        offset: 504,
        data: vec![0; 8],
    };
    TestProtocol::cache_wholly(&mut proto, &mut read, TIMEOUT).unwrap();
    assert_eq!(&read.data, &[0, 0, 128, 129, 130, 131, 132, 133]);

    // Update the second block.
    let data = (0..BLOCK_QUADLET_COUNT)
        .map(|i| u32::MAX - i as u32)
        .collect();
    let write = EfwFlashWrite { offset: 256, data };
    TestProtocol::update_wholly(&mut proto, &write, TIMEOUT).unwrap();

    // Check near the boundary between second and third block.
    let mut read = EfwFlashRead {
        offset: 504,
        data: vec![0; 6],
    };
    TestProtocol::cache_wholly(&mut proto, &mut read, TIMEOUT).unwrap();
    assert_eq!(&read.data, &[4294967233, 4294967232, 128, 129, 130, 131]);
}

#[test]
fn hw_ctl_flag_serdes() {
    [
        HwCtlFlag::MixerEnabled,
        HwCtlFlag::SpdifPro,
        HwCtlFlag::SpdifNoneAudio,
        HwCtlFlag::CtlRoomSelect,
        HwCtlFlag::OutputLevelBypass,
        HwCtlFlag::MeterInMode,
        HwCtlFlag::MeterOutMode,
        HwCtlFlag::SoftClip,
        HwCtlFlag::GuitarHexInput,
        HwCtlFlag::GuitarAutoCharging,
        HwCtlFlag::PhantomPowering,
        HwCtlFlag::default(),
    ]
    .iter()
    .for_each(|flag| {
        let val = serialize_hw_ctl_flag(&flag);
        let mut f = HwCtlFlag::default();
        deserialize_hw_ctl_flag(&mut f, val);
        assert_eq!(*flag, f);
    });
}

#[test]
fn lib_clock_source_serdes() {
    [
        ClkSrc::Internal,
        ClkSrc::WordClock,
        ClkSrc::Spdif,
        ClkSrc::Adat,
        ClkSrc::Adat2,
        ClkSrc::Continuous,
        ClkSrc::default(),
    ]
    .iter()
    .for_each(|src| {
        let val = serialize_clock_source(&src);
        let mut s = ClkSrc::default();
        deserialize_clock_source(&mut s, val);
        assert_eq!(*src, s);
    });
}

#[test]
fn tx_packet_format_serdes() {
    [TxPacketFormat::Unique, TxPacketFormat::Iec61883]
        .iter()
        .for_each(|fmt| {
            let val = serialize_tx_packet_format(fmt);
            let mut f = TxPacketFormat::default();
            deserialize_tx_packet_format(&mut f, val);
            assert_eq!(*fmt, f);
        });
}
