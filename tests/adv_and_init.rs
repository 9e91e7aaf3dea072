use st_wba_ble::aci::{AciCommand, Reply, Step};
use st_wba_ble::adv::{set_adv_data, stop};
use st_wba_ble::c_shims::{tick_from_millis, HAL_GetTick};
use st_wba_ble::{start_fast_name, Ble, BleStatus};

fn ok() -> Reply {
    Reply { status: 0, handles: [0; 3] }
}

#[test]
fn start_fast_name_issues_discoverable_then_enable() {
    let mut s = start_fast_name("RustWBA");
    assert_eq!(
        s.next(),
        Step::Issue(AciCommand::GapSetDiscoverable {
            adv_type: 0x00,
            interval_min: 0x0020,
            interval_max: 0x0040,
            own_addr_type: 0x00,
            filter_policy: 0x00,
            local_name: b"RustWBA".to_vec(),
            service_uuids: Vec::new(),
            conn_interval_min: 0,
            conn_interval_max: 0,
        })
    );
    s.on_reply(&ok());
    assert_eq!(s.next(), Step::Issue(AciCommand::SetAdvertisingEnable { enable: 1 }));
    s.on_reply(&ok());
    assert_eq!(s.next(), Step::Done(Ok(())));
}

#[test]
fn start_fast_name_reports_discoverable_failure() {
    let mut s = start_fast_name("x");
    s.on_reply(&Reply { status: 0x0C, handles: [0; 3] });
    assert_eq!(s.next(), Step::Done(Err(BleStatus::Other(0x0C))));
}

#[test]
fn start_fast_name_reports_enable_failure() {
    let mut s = start_fast_name("x");
    s.on_reply(&ok());
    s.on_reply(&Reply { status: 0x11, handles: [0; 3] });
    assert_eq!(s.next(), Step::Done(Err(BleStatus::Other(0x11))));
}

#[test]
fn stop_disables_advertising() {
    assert_eq!(stop(), AciCommand::SetAdvertisingEnable { enable: 0 });
}

#[test]
fn set_adv_data_keeps_at_most_31_bytes() {
    let short = [2u8, 1, 6];
    assert_eq!(set_adv_data(&short), AciCommand::SetAdvertisingData { data: short.to_vec() });
    let long: Vec<u8> = (0..40u8).collect();
    assert_eq!(set_adv_data(&long), AciCommand::SetAdvertisingData { data: long[..31].to_vec() });
    assert_eq!(set_adv_data(&[]), AciCommand::SetAdvertisingData { data: Vec::new() });
}

#[test]
fn init_peripheral_with_name() {
    let mut s = Ble::init_peripheral("RustWBA");
    assert_eq!(s.next(), Step::Issue(AciCommand::GattInit));
    s.on_reply(&ok());
    assert_eq!(
        s.next(),
        Step::Issue(AciCommand::GapInit { role: 0x01, privacy_enabled: 0, device_name_char_len: 7 })
    );
    s.on_reply(&Reply { status: 0, handles: [0x0001, 0x0003, 0x0005] });
    assert_eq!(
        s.next(),
        Step::Issue(AciCommand::GattUpdateCharValue {
            service_handle: 0x0001,
            char_handle: 0x0003,
            offset: 0,
            value: b"RustWBA".to_vec(),
        })
    );
    s.on_reply(&ok());
    assert!(matches!(s.next(), Step::Done(Ok(_))));
}

#[test]
fn init_peripheral_without_name_skips_name_write() {
    let mut s = Ble::init_peripheral("");
    s.on_reply(&ok());
    assert_eq!(
        s.next(),
        Step::Issue(AciCommand::GapInit { role: 0x01, privacy_enabled: 0, device_name_char_len: 0 })
    );
    s.on_reply(&Reply { status: 0, handles: [1, 2, 3] });
    assert!(matches!(s.next(), Step::Done(Ok(_))));
}

#[test]
fn init_peripheral_reports_each_failure() {
    let mut s = Ble::init_peripheral("n");
    s.on_reply(&Reply { status: 0x41, handles: [0; 3] });
    assert_eq!(s.next(), Step::Done(Err(BleStatus::Other(0x41))));

    let mut s = Ble::init_peripheral("n");
    s.on_reply(&ok());
    s.on_reply(&Reply { status: 0x12, handles: [0; 3] });
    assert_eq!(s.next(), Step::Done(Err(BleStatus::Other(0x12))));

    let mut s = Ble::init_peripheral("n");
    s.on_reply(&ok());
    s.on_reply(&Reply { status: 0, handles: [1, 2, 3] });
    s.on_reply(&Reply { status: 0x0D, handles: [0; 3] });
    assert_eq!(s.next(), Step::Done(Err(BleStatus::Other(0x0D))));
}

#[test]
fn tick_wraps_at_32_bits() {
    assert_eq!(tick_from_millis(0), 0);
    assert_eq!(tick_from_millis(1234), 1234);
    assert_eq!(tick_from_millis(u32::MAX as u64), u32::MAX);
    assert_eq!(tick_from_millis(u32::MAX as u64 + 1), 0);
    assert_eq!(tick_from_millis(0x1_0000_0005), 5);
}

#[test]
fn hal_tick_is_monotonic_from_start() {
    let a = HAL_GetTick();
    let b = HAL_GetTick();
    assert!(b >= a);
    assert!(b < 60_000);
}
