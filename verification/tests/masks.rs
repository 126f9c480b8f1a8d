use winaudio::{DeviceState, DeviceStateMask, HardwareSupportMask};

use windows::Win32::Media::Audio::{
    DEVICE_STATEMASK_ALL, DEVICE_STATE_ACTIVE, DEVICE_STATE_DISABLED, DEVICE_STATE_NOTPRESENT,
    DEVICE_STATE_UNPLUGGED, ENDPOINT_HARDWARE_SUPPORT_METER, ENDPOINT_HARDWARE_SUPPORT_MUTE,
    ENDPOINT_HARDWARE_SUPPORT_VOLUME,
};

#[test]
fn device_state_flags_follow_the_platform() {
    assert_eq!(DeviceStateMask::active().bits(), DEVICE_STATE_ACTIVE);
    assert_eq!(DeviceStateMask::disabled().bits(), DEVICE_STATE_DISABLED);
    assert_eq!(DeviceStateMask::not_present().bits(), DEVICE_STATE_NOTPRESENT);
    assert_eq!(DeviceStateMask::unplugged().bits(), DEVICE_STATE_UNPLUGGED);
    assert_eq!(DeviceStateMask::all().bits(), DEVICE_STATEMASK_ALL);
}

#[test]
fn device_state_flags_are_exact() {
    assert_eq!(DeviceStateMask::empty().bits(), 0);
    assert_eq!(DeviceStateMask::active().bits(), 1);
    assert_eq!(DeviceStateMask::disabled().bits(), 2);
    assert_eq!(DeviceStateMask::not_present().bits(), 4);
    assert_eq!(DeviceStateMask::unplugged().bits(), 8);
    assert_eq!(DeviceStateMask::all().bits(), 15);
}

#[test]
fn device_state_flags_are_the_codes_of_the_states() {
    assert_eq!(DeviceStateMask::active().bits(), DeviceState::Active.to_raw());
    assert_eq!(DeviceStateMask::disabled().bits(), DeviceState::Disabled.to_raw());
    assert_eq!(DeviceStateMask::not_present().bits(), DeviceState::NotPresent.to_raw());
    assert_eq!(DeviceStateMask::unplugged().bits(), DeviceState::Unplugged.to_raw());
}

#[test]
fn hardware_support_flags_follow_the_platform() {
    assert_eq!(HardwareSupportMask::volume().bits(), ENDPOINT_HARDWARE_SUPPORT_VOLUME);
    assert_eq!(HardwareSupportMask::mute().bits(), ENDPOINT_HARDWARE_SUPPORT_MUTE);
    assert_eq!(HardwareSupportMask::meter().bits(), ENDPOINT_HARDWARE_SUPPORT_METER);
}

#[test]
fn hardware_support_flags_are_exact() {
    assert_eq!(HardwareSupportMask::empty().bits(), 0);
    assert_eq!(HardwareSupportMask::volume().bits(), 1);
    assert_eq!(HardwareSupportMask::mute().bits(), 2);
    assert_eq!(HardwareSupportMask::meter().bits(), 4);
    assert_eq!(HardwareSupportMask::all().bits(), 7);
}

#[test]
fn union_holds_the_flags_of_both() {
    let m = DeviceStateMask::active().union(DeviceStateMask::unplugged());
    assert_eq!(m.bits(), 9);
    assert!(m.contains(DeviceStateMask::active()));
    assert!(m.contains(DeviceStateMask::unplugged()));
    assert!(!m.contains(DeviceStateMask::disabled()));
    assert!(!m.contains(DeviceStateMask::not_present()));
}

#[test]
fn union_of_all_flags_is_all() {
    let m = DeviceStateMask::active()
        .union(DeviceStateMask::disabled())
        .union(DeviceStateMask::not_present())
        .union(DeviceStateMask::unplugged());
    assert_eq!(m, DeviceStateMask::all());
    assert!(m.is_all());
    let h = HardwareSupportMask::mute()
        .union(HardwareSupportMask::meter())
        .union(HardwareSupportMask::volume());
    assert_eq!(h, HardwareSupportMask::all());
    assert!(h.is_all());
}

#[test]
fn intersection_holds_the_flags_in_common() {
    let a = DeviceStateMask::active().union(DeviceStateMask::disabled());
    let b = DeviceStateMask::disabled().union(DeviceStateMask::unplugged());
    assert_eq!(a.intersection(b), DeviceStateMask::disabled());
    assert_eq!(a.intersection(b).bits(), 2);
    assert!(a.intersects(b));
    assert!(!DeviceStateMask::active().intersects(DeviceStateMask::unplugged()));
    assert!(DeviceStateMask::active()
        .intersection(DeviceStateMask::unplugged())
        .is_empty());
}

#[test]
fn difference_takes_the_flags_of_the_other_away() {
    let a = DeviceStateMask::all().difference(DeviceStateMask::not_present());
    assert_eq!(a.bits(), 11);
    let h = HardwareSupportMask::all().difference(HardwareSupportMask::mute());
    assert_eq!(h.bits(), 5);
}

#[test]
fn complement_stays_within_the_defined_flags() {
    assert_eq!(DeviceStateMask::empty().complement(), DeviceStateMask::all());
    assert_eq!(DeviceStateMask::all().complement(), DeviceStateMask::empty());
    assert_eq!(DeviceStateMask::active().complement().bits(), 14);
    assert_eq!(HardwareSupportMask::meter().complement().bits(), 3);
}

#[test]
fn contains_is_membership() {
    let all = DeviceStateMask::all();
    assert!(all.contains(DeviceStateMask::active()));
    assert!(all.contains(DeviceStateMask::empty()));
    assert!(DeviceStateMask::empty().contains(DeviceStateMask::empty()));
    assert!(!DeviceStateMask::empty().contains(DeviceStateMask::active()));
    let two = DeviceStateMask::active().union(DeviceStateMask::disabled());
    assert!(!DeviceStateMask::active().contains(two));
    assert!(two.contains(DeviceStateMask::active()));
}

#[test]
fn empty_intersects_nothing() {
    assert!(!DeviceStateMask::empty().intersects(DeviceStateMask::all()));
    assert!(!DeviceStateMask::all().intersects(DeviceStateMask::empty()));
    assert!(DeviceStateMask::empty().is_empty());
    assert!(!DeviceStateMask::empty().is_all());
    assert!(!DeviceStateMask::all().is_empty());
}

#[test]
fn from_bits_takes_defined_bits_only() {
    assert_eq!(DeviceStateMask::from_bits(0), Some(DeviceStateMask::empty()));
    assert_eq!(DeviceStateMask::from_bits(15), Some(DeviceStateMask::all()));
    assert_eq!(DeviceStateMask::from_bits(5).map(|m| m.bits()), Some(5));
    assert_eq!(DeviceStateMask::from_bits(16), None);
    assert_eq!(DeviceStateMask::from_bits(17), None);
    assert_eq!(DeviceStateMask::from_bits(u32::MAX), None);
    assert_eq!(HardwareSupportMask::from_bits(7), Some(HardwareSupportMask::all()));
    assert_eq!(HardwareSupportMask::from_bits(8), None);
}

#[test]
fn from_bits_truncate_drops_undefined_bits() {
    assert_eq!(DeviceStateMask::from_bits_truncate(0xff).bits(), 15);
    assert_eq!(DeviceStateMask::from_bits_truncate(0x15).bits(), 5);
    assert_eq!(DeviceStateMask::from_bits_truncate(16).bits(), 0);
    assert_eq!(HardwareSupportMask::from_bits_truncate(0xff).bits(), 7);
    assert_eq!(HardwareSupportMask::from_bits_truncate(10).bits(), 2);
}

#[test]
fn insert_and_remove_change_the_mask_in_place() {
    let mut m = DeviceStateMask::empty();
    m.insert(DeviceStateMask::disabled());
    m.insert(DeviceStateMask::unplugged());
    assert_eq!(m.bits(), 10);
    m.insert(DeviceStateMask::disabled());
    assert_eq!(m.bits(), 10);
    m.remove(DeviceStateMask::disabled());
    assert_eq!(m.bits(), 8);
    m.remove(DeviceStateMask::active());
    assert_eq!(m.bits(), 8);
    let mut h = HardwareSupportMask::all();
    h.remove(HardwareSupportMask::volume());
    assert_eq!(h.bits(), 6);
    h.insert(HardwareSupportMask::volume());
    assert!(h.is_all());
}
