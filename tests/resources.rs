use j2534::{ConnectFlags, DriverCall, ErrorKind, Interface, Protocol};

#[test]
fn new_with_null_module_is_not_found() {
    assert_eq!(Interface::new(0).err().unwrap().kind(), ErrorKind::NotFound);
    assert_eq!(Interface::new(0x4000).ok().unwrap().module(), 0x4000);
}

#[test]
fn open_calls_carry_the_port() {
    let i = Interface::new(1).ok().unwrap();
    assert_eq!(i.open("COM2"), DriverCall::Open { port: Some("COM2".to_string()) });
    assert_eq!(i.open_any(), DriverCall::Open { port: None });
}

#[test]
fn opened_success_keeps_the_driver_id() {
    let mut i = Interface::new(1).ok().unwrap();
    let d = i.opened(0, 42).unwrap();
    assert_eq!(d.id(), 42);
    assert!(i.holds_device(&d));
}

#[test]
fn opened_failure_carries_the_status() {
    let mut i = Interface::new(1).ok().unwrap();
    let e = i.opened(0x08, 42).unwrap_err();
    assert_eq!(e.kind(), ErrorKind::Code(0x08));
}

#[test]
fn connect_uses_protocol_code_and_flag_bits() {
    let mut i = Interface::new(1).ok().unwrap();
    let d = i.opened(0, 3).unwrap();
    let typed = d.connect(Protocol::ISO15765, ConnectFlags::can_29_bit_id(), 500000);
    assert_eq!(typed, d.connect_raw(6, 0x100, 500000));
    assert_eq!(
        typed,
        DriverCall::Connect { device: 3, protocol: 6, flags: 0x100, baudrate: 500000 }
    );
    assert_eq!(d.read_version(), DriverCall::ReadVersion { device: 3 });
}

#[test]
fn connected_failure_carries_the_status() {
    let mut i = Interface::new(1).ok().unwrap();
    let d = i.opened(0, 3).unwrap();
    assert_eq!(i.connected(&d, 0x0a, 9).unwrap_err().kind(), ErrorKind::Code(0x0a));
}

#[test]
fn reconnect_gives_independent_channels() {
    let mut i = Interface::new(1).ok().unwrap();
    let d = i.opened(0, 1).unwrap();
    let c1 = i.connected(&d, 0, 10).unwrap();
    assert_eq!(c1.id(), 10);
    assert_eq!(i.release_channel(c1), Some(DriverCall::Disconnect { channel: 10 }));
    let c2 = i.connected(&d, 0, 11).unwrap();
    assert!(i.holds_channel(&c2));
    assert!(i.holds_device(&d));
    let plan = i.release();
    assert_eq!(
        plan,
        vec![
            DriverCall::Disconnect { channel: 11 },
            DriverCall::Close { device: 1 },
            DriverCall::Unload
        ]
    );
}

#[test]
fn device_release_disconnects_its_channels_first() {
    let mut i = Interface::new(1).ok().unwrap();
    let d1 = i.opened(0, 1).unwrap();
    let d2 = i.opened(0, 2).unwrap();
    let a = i.connected(&d1, 0, 10).unwrap();
    let b = i.connected(&d2, 0, 20).unwrap();
    let c = i.connected(&d1, 0, 30).unwrap();
    let plan = i.release_device(d1);
    assert_eq!(
        plan,
        vec![
            DriverCall::Disconnect { channel: 10 },
            DriverCall::Disconnect { channel: 30 },
            DriverCall::Close { device: 1 }
        ]
    );
    assert!(!i.holds_channel(&a));
    assert!(!i.holds_channel(&c));
    assert!(i.holds_channel(&b));
    assert_eq!(i.release_channel(a), None);
    assert_eq!(i.release_channel(c), None);
    assert_eq!(i.release_channel(b), Some(DriverCall::Disconnect { channel: 20 }));
    assert!(i.holds_device(&d2));
}

#[test]
fn release_orders_disconnect_close_unload() {
    let mut i = Interface::new(1).ok().unwrap();
    let d1 = i.opened(0, 1).unwrap();
    let d2 = i.opened(0, 2).unwrap();
    let _a = i.connected(&d2, 0, 20).unwrap();
    let _b = i.connected(&d1, 0, 10).unwrap();
    assert_eq!(
        i.release(),
        vec![
            DriverCall::Disconnect { channel: 20 },
            DriverCall::Disconnect { channel: 10 },
            DriverCall::Close { device: 1 },
            DriverCall::Close { device: 2 },
            DriverCall::Unload
        ]
    );
}

#[test]
fn release_of_empty_interface_only_unloads() {
    let i = Interface::new(1).ok().unwrap();
    assert_eq!(i.release(), vec![DriverCall::Unload]);
}
