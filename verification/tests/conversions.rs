use firewire_protocols::fireworks::NominalSignalLevel;
use firewire_protocols::tcelectronic::desktop::DesktopHpSrc;

#[test]
fn nominal_signal_level_from() {
    assert_eq!(u32::from(NominalSignalLevel::Consumer), 2);
    assert_eq!(u32::from(NominalSignalLevel::Medium), 1);
    assert_eq!(u32::from(NominalSignalLevel::Professional), 0);
    assert_eq!(NominalSignalLevel::from(2), NominalSignalLevel::Consumer);
    assert_eq!(NominalSignalLevel::from(1), NominalSignalLevel::Medium);
    assert_eq!(NominalSignalLevel::from(0), NominalSignalLevel::Professional);
    assert_eq!(NominalSignalLevel::from(7), NominalSignalLevel::Professional);
}

#[test]
fn desktop_hp_src_from() {
    assert_eq!(u32::from(DesktopHpSrc::Stream23), 0x05);
    assert_eq!(u32::from(DesktopHpSrc::Mixer01), 0x0b);
    assert_eq!(DesktopHpSrc::from(0x05), DesktopHpSrc::Stream23);
    assert_eq!(DesktopHpSrc::from(0x0b), DesktopHpSrc::Mixer01);
    assert_eq!(DesktopHpSrc::from(0x00), DesktopHpSrc::Mixer01);
}
