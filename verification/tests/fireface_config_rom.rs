use firewire_protocols::fireface::config_rom::{
    find_directory, find_immediate, ConfigRomRoot, FfConfigRom, RomEntry, RomEntryData,
    KEY_UNIT, KEY_VENDOR, KEY_VERSION,
};

fn immediate(key: u8, value: u32) -> RomEntry {
    RomEntry {
        key,
        data: RomEntryData::Immediate(value),
    }
}

fn unit(entries: Vec<RomEntry>) -> RomEntry {
    RomEntry {
        key: KEY_UNIT,
        data: RomEntryData::Directory(entries),
    }
}

fn rme_root(version: u32) -> ConfigRomRoot {
    ConfigRomRoot {
        root: vec![
            immediate(KEY_VENDOR, 0x00000a35),
            RomEntry {
                key: 0x0c,
                data: RomEntryData::Immediate(0x0083c0),
            },
            unit(vec![
                immediate(0x12, 0x00000a35),
                immediate(KEY_VERSION, version),
            ]),
        ],
    }
}

#[test]
fn config_rom_model_id_of_rme_unit() {
    assert_eq!(rme_root(0x000001).get_model_id(), Some(0x000001));
    assert_eq!(rme_root(0x000002).get_model_id(), Some(0x000002));
}

#[test]
fn config_rom_model_id_of_other_vendor() {
    let mut root = rme_root(0x000001);
    root.root[0] = immediate(KEY_VENDOR, 0x00001486);
    assert_eq!(root.get_model_id(), None);
}

#[test]
fn config_rom_model_id_without_unit() {
    let root = ConfigRomRoot {
        root: vec![immediate(KEY_VENDOR, 0x00000a35)],
    };
    assert_eq!(root.get_model_id(), None);

    let root = ConfigRomRoot {
        root: vec![immediate(KEY_VENDOR, 0x00000a35), unit(vec![immediate(0x12, 1)])],
    };
    assert_eq!(root.get_model_id(), None);
}

#[test]
fn config_rom_first_matching_entry() {
    // A leaf with the key of vendor is no immediate value; the first immediate one counts.
    let root = ConfigRomRoot {
        root: vec![
            RomEntry {
                key: KEY_VENDOR,
                data: RomEntryData::Leaf(vec![0, 0, 0x0a, 0x35]),
            },
            immediate(KEY_VENDOR, 0x00000a35),
            immediate(KEY_VENDOR, 0x00001486),
            unit(vec![immediate(KEY_VERSION, 3), immediate(KEY_VERSION, 4)]),
            unit(vec![immediate(KEY_VERSION, 5)]),
        ],
    };
    assert_eq!(root.get_model_id(), Some(3));
    assert_eq!(find_immediate(&root.root, KEY_VENDOR), Some(0x00000a35));
    assert!(find_directory(&root.root, KEY_UNIT).is_some());
    assert_eq!(find_immediate(&root.root, KEY_VERSION), None);
}
