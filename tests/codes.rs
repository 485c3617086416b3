use j2534::codes::{ALL_FLAGS, CAN_29_BIT_ID, CAN_ID_BOTH, ISO9141_K_LINE_ONLY, ISO9141_NO_CHECKSUM};
use j2534::{ConnectFlags, Protocol};

#[test]
fn protocol_codes_are_fixed() {
    assert_eq!(Protocol::J1850VPW.code(), 1);
    assert_eq!(Protocol::J1850PWM.code(), 2);
    assert_eq!(Protocol::ISO9141.code(), 3);
    assert_eq!(Protocol::ISO14230.code(), 4);
    assert_eq!(Protocol::CAN.code(), 5);
    assert_eq!(Protocol::ISO15765.code(), 6);
    assert_eq!(Protocol::SCI_A_ENGINE.code(), 7);
    assert_eq!(Protocol::SCI_A_TRANS.code(), 8);
    assert_eq!(Protocol::SCI_B_ENGINE.code(), 9);
    assert_eq!(Protocol::SCI_B_TRANS.code(), 10);
}

#[test]
fn flag_bits_are_fixed() {
    assert_eq!(ConnectFlags::empty().bits(), 0);
    assert_eq!(ConnectFlags::can_29_bit_id().bits(), 0x100);
    assert_eq!(ConnectFlags::iso9141_no_checksum().bits(), 0x200);
    assert_eq!(ConnectFlags::can_id_both().bits(), 0x800);
    assert_eq!(ConnectFlags::iso9141_k_line_only().bits(), 0x1000);
    assert_eq!(ConnectFlags::all().bits(), ALL_FLAGS);
    assert_eq!(CAN_29_BIT_ID | ISO9141_NO_CHECKSUM | CAN_ID_BOTH | ISO9141_K_LINE_ONLY, ALL_FLAGS);
}

#[test]
fn flags_combine_by_or() {
    let f = ConnectFlags::can_29_bit_id().union(ConnectFlags::can_id_both());
    assert_eq!(f.bits(), 0x900);
    assert!(f.contains(ConnectFlags::can_id_both()));
    assert!(!f.contains(ConnectFlags::iso9141_k_line_only()));
    let mut g = ConnectFlags::empty();
    g.insert(ConnectFlags::iso9141_no_checksum());
    g.insert(ConnectFlags::iso9141_k_line_only());
    assert_eq!(g.bits(), 0x1200);
    g.remove(ConnectFlags::iso9141_no_checksum());
    assert_eq!(g.bits(), 0x1000);
}

#[test]
fn from_bits_rejects_undefined_bits() {
    assert_eq!(ConnectFlags::from_bits(0x300).map(|f| f.bits()), Some(0x300));
    assert!(ConnectFlags::from_bits(0x1).is_none());
    assert_eq!(ConnectFlags::from_bits_truncate(0xffff_ffff).bits(), 0x1B00);
}
