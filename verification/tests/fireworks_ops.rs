use firewire_protocols::fireworks::audiofire::{Audiofire4Protocol, Audiofire9Protocol};
use firewire_protocols::fireworks::hw_ctl::{
    set_flags_request, EfwHwCtlFlags, HwCtlFlag, HwCtlProtocol,
};
use firewire_protocols::fireworks::monitor::{EfwMonitorParameters, EfwMonitorSourceParameters};
use firewire_protocols::fireworks::onyx_f::Onyx400fProtocol;
use firewire_protocols::fireworks::phys_input::EfwPhysInputSpecification;
use firewire_protocols::fireworks::playback::EfwPlaybackParameters;
use firewire_protocols::fireworks::port_conf::{
    phys_group_pairs, EfwControlRoomSource, EfwControlRoomSpecification, EfwDigitalMode,
    EfwDigitalModeSpecification, EfwRxStreamMaps,
};
use firewire_protocols::fireworks::{
    ClkSrc, EfwError, EfwHardwareSpecification, EfwPartiallyUpdatableParamsOperation,
    EfwProtocolError, EfwProtocolExtManual, EfwWhollyCachableParamsOperation,
    EfwWhollyUpdatableParamsOperation, NominalSignalLevel, PhysGroupType,
};
use firewire_protocols::fireworks::monitor::{
    cache_monitor_gains, update_monitor_gains, update_monitor_sources, CATEGORY_MONITOR,
};
use firewire_protocols::fireworks::{channel_read_requests, channel_write_requests};
use firewire_protocols::fireworks::playback::{cache_playback_volumes, update_playback_volumes};
use std::cell::RefCell;

/// Records each transaction and answers with the parameters filled by a value, or with a failure
/// after a number of transactions.
#[derive(Default)]
struct Recorder {
    log: RefCell<Vec<(u32, u32, Vec<u32>, usize)>>,
    answer: u32,
    fail_after: Option<usize>,
}

impl EfwProtocolExtManual for Recorder {
    fn transaction(
        &self,
        category: u32,
        command: u32,
        args: &[u32],
        params: &mut Vec<u32>,
        _: u32,
    ) -> Result<(), EfwError> {
        let count = self.log.borrow().len();
        self.log
            .borrow_mut()
            .push((category, command, args.to_vec(), params.len()));
        if let Some(limit) = self.fail_after {
            if count >= limit {
                return Err(EfwError::Protocol(EfwProtocolError::Timeout, "timeout".to_string()));
            }
        }
        params.iter_mut().for_each(|p| *p = self.answer);
        Ok(())
    }
}

#[test]
fn playback_update_partially_sends_changes() {
    let mut proto = Recorder::default();
    let mut states = EfwPlaybackParameters {
        volumes: vec![0; 6],
        mutes: vec![false; 6],
    };
    let mut updates = states.clone();
    updates.volumes[2] = 0x1000;
    updates.mutes[5] = true;
    Audiofire4Protocol::update_partially(&mut proto, &mut states, updates.clone(), 10).unwrap();
    assert_eq!(states, updates);
    let log = proto.log.borrow();
    assert_eq!(
        *log,
        vec![(6, 0, vec![2, 0x1000], 2), (6, 2, vec![5, 1], 2)]
    );
}

#[test]
fn playback_update_stops_at_failure() {
    let mut proto = Recorder {
        fail_after: Some(1),
        ..Default::default()
    };
    let mut states = EfwPlaybackParameters {
        volumes: vec![0; 6],
        mutes: vec![false; 6],
    };
    let mut updates = states.clone();
    updates.volumes[1] = 1;
    updates.volumes[3] = 3;
    let err = Audiofire4Protocol::update_partially(&mut proto, &mut states, updates, 10).unwrap_err();
    assert_eq!(err.protocol_kind(), Some(EfwProtocolError::Timeout));
    assert_eq!(states.volumes, vec![0, 1, 0, 0, 0, 0]);
}

#[test]
fn monitor_cache_reads_each_source() {
    let mut proto = Recorder {
        answer: 0x00800000,
        ..Default::default()
    };
    let src = EfwMonitorSourceParameters {
        gains: vec![0; 10],
        mutes: vec![false; 10],
        solos: vec![false; 10],
        pans: vec![0; 10],
    };
    let mut states = EfwMonitorParameters(vec![src; 10]);
    Onyx400fProtocol::cache_wholly(&mut proto, &mut states, 10).unwrap();
    assert_eq!(states.0[9].gains[9], 0x00800000);
    assert_eq!(states.0[9].mutes[9], true);
    assert_eq!(states.0[9].pans[9], 0);
    let log = proto.log.borrow();
    assert_eq!(log.len(), 400);
    assert_eq!(log[0], (8, 1, vec![0, 0, 0], 3));
    assert_eq!(log[399], (8, 7, vec![9, 9, 0], 3));
}

#[test]
fn clock_set_keeps_current_source() {
    let mut proto = Recorder {
        answer: 4,
        ..Default::default()
    };
    proto.set_clock(None, Some(48000), 10).unwrap();
    let log = proto.log.borrow();
    assert_eq!(log[1], (3, 0, vec![4, 48000, 0], 3));
    assert_eq!(proto.log.borrow().len(), 2);
    let _ = ClkSrc::Adat;
}

#[test]
fn hw_ctl_flags_request() {
    let states = EfwHwCtlFlags(vec![HwCtlFlag::SoftClip, HwCtlFlag::MixerEnabled]);
    let updates = EfwHwCtlFlags(vec![HwCtlFlag::MixerEnabled, HwCtlFlag::PhantomPowering]);
    let req = set_flags_request(&states, &updates);
    assert_eq!(req.args, vec![0x80000001, 1 << 18]);

    let mut proto = Recorder {
        answer: 0x80000005,
        ..Default::default()
    };
    let flags = proto.get_flags(10).unwrap();
    assert_eq!(
        flags,
        vec![
            HwCtlFlag::MixerEnabled,
            HwCtlFlag::SpdifNoneAudio,
            HwCtlFlag::PhantomPowering
        ]
    );
}

#[test]
fn control_room_source_positions() {
    assert_eq!(
        phys_group_pairs(&[(PhysGroupType::Analog, 4), (PhysGroupType::Spdif, 3)]),
        vec![
            (PhysGroupType::Analog, 0),
            (PhysGroupType::Analog, 2),
            (PhysGroupType::Spdif, 0),
            (PhysGroupType::Spdif, 2)
        ]
    );
    assert_eq!(
        Onyx400fProtocol::control_room_source_pairs(),
        vec![
            (PhysGroupType::Analog, 0),
            (PhysGroupType::Analog, 2),
            (PhysGroupType::Analog, 4),
            (PhysGroupType::Analog, 6),
            (PhysGroupType::Spdif, 0)
        ]
    );

    let mut proto = Recorder::default();
    Onyx400fProtocol::update_wholly(&mut proto, &EfwControlRoomSource(4), 10).unwrap();
    assert_eq!(proto.log.borrow()[0], (9, 0, vec![8], 0));

    let err = Onyx400fProtocol::update_wholly(&mut proto, &EfwControlRoomSource(5), 10).unwrap_err();
    assert_eq!(err.protocol_kind(), None);

    let mut proto = Recorder {
        answer: 2,
        ..Default::default()
    };
    let mut states = EfwControlRoomSource(0);
    Onyx400fProtocol::cache_wholly(&mut proto, &mut states, 10).unwrap();
    assert_eq!(states, EfwControlRoomSource(1));
}

#[test]
fn digital_modes_of_capabilities() {
    assert_eq!(
        Audiofire9Protocol::create_digital_modes(),
        vec![
            EfwDigitalMode::SpdifCoax,
            EfwDigitalMode::SpdifOpt,
            EfwDigitalMode::AdatOpt
        ]
    );
    assert_eq!(Audiofire9Protocol::create_digital_mode(), EfwDigitalMode::SpdifCoax);
}

#[test]
fn phys_counts_of_groups() {
    assert_eq!(Audiofire9Protocol::phys_input_count(), 16);
    assert_eq!(Audiofire9Protocol::phys_analog_input_count(), 8);
    assert_eq!(
        Audiofire9Protocol::create_phys_input_parameters().nominals,
        vec![NominalSignalLevel::Professional; 8]
    );
}

#[test]
fn rx_stream_map_request() {
    let mut proto = Recorder::default();
    let mut states = EfwRxStreamMaps(vec![vec![0, 1, 2], vec![0, 1, 2], vec![0, 1, 2]]);
    let updates = EfwRxStreamMaps(vec![vec![0, 1, 2], vec![2, 1, 0], vec![0, 1, 2]]);
    Audiofire4Protocol::update_partially(&mut proto, &mut states, updates.clone(), 10).unwrap();
    assert_eq!(states, updates);
    let log = proto.log.borrow();
    assert_eq!(log.len(), 1);
    let (cat, cmd, args, _) = &log[0];
    assert_eq!((*cat, *cmd), (9, 6));
    assert_eq!(args.len(), 70);
    assert_eq!(&args[..8], &[88200, 0, 3, 3, 4, 2, 0, 0xffffffff]);
    assert_eq!(&args[36..38], &[3, 3]);
}

#[test]
fn nothing_to_send_needs_no_transaction() {
    let proto = Recorder {
        fail_after: Some(0),
        ..Default::default()
    };

    let mut vals = vec![1, 2, 3];
    assert!(update_playback_volumes(&proto, &mut vals, &[1, 2, 3], 100).is_ok());
    assert_eq!(vals, vec![1, 2, 3]);

    let mut empty: Vec<i32> = Vec::new();
    assert!(cache_playback_volumes(&proto, &mut empty, 100).is_ok());

    let mut sources = EfwMonitorSourceParameters {
        gains: vec![0; 2],
        mutes: vec![false; 2],
        solos: vec![false; 2],
        pans: vec![0; 2],
    };
    let updates = sources.clone();
    assert!(update_monitor_sources(&proto, 0, &mut sources, &updates, 100).is_ok());
    assert!(proto.log.borrow().is_empty());

    // A difference is sent, and the failure of the unit is passed.
    let mut vals = vec![1, 2, 3];
    assert!(update_playback_volumes(&proto, &mut vals, &[1, 5, 3], 100).is_err());
    assert_eq!(vals, vec![1, 2, 3]);
    assert_eq!(proto.log.borrow().len(), 1);
}

#[test]
fn monitor_requests_carry_channel_destination_and_update() {
    let proto = Recorder {
        answer: 0x1234,
        ..Default::default()
    };
    let mut vals = vec![0i32; 3];
    cache_monitor_gains(&proto, 1, &mut vals, 100).unwrap();
    assert_eq!(vals, vec![0x1234; 3]);
    {
        let log = proto.log.borrow();
        assert_eq!(log.len(), 3);
        for (ch, entry) in log.iter().enumerate() {
            assert_eq!(entry.0, CATEGORY_MONITOR);
            assert_eq!(entry.2, vec![ch as u32, 1, 0]);
            assert_eq!(entry.3, 3);
        }
    }
    proto.log.borrow_mut().clear();

    let mut vals = vec![5i32, 6, 7];
    update_monitor_gains(&proto, 1, &mut vals, &[5, -1, 9], 100).unwrap();
    assert_eq!(vals, vec![5, -1, 9]);
    let log = proto.log.borrow();
    assert_eq!(log.len(), 2);
    assert_eq!(log[0].2, vec![1, 1, -1i32 as u32]);
    assert_eq!(log[1].2, vec![2, 1, 9]);
}

#[test]
fn channel_request_lists() {
    let reqs = channel_read_requests(6, 1, &[0], 3, 2);
    assert_eq!(reqs.len(), 3);
    assert_eq!(reqs[2].args, vec![2, 0]);
    assert_eq!(reqs[2].command, 1);
    assert_eq!(reqs[2].params_len, 2);

    let reqs = channel_write_requests(8, 0, &[4], &[1, 2, 3, 4], &[1, 7, 3, 8, 9], 3);
    assert_eq!(reqs.len(), 2);
    assert_eq!(reqs[0].0, 1);
    assert_eq!(reqs[0].1.args, vec![1, 4, 7]);
    assert_eq!(reqs[1].0, 3);
    assert_eq!(reqs[1].1.args, vec![3, 4, 8]);
    assert_eq!(reqs[1].1.category, 8);
}
