use st_wba_ble::aci::{
    make_char_uuid128, make_char_uuid16, make_service_uuid128, make_service_uuid16, AciCommand,
    Reply, Step,
};
use st_wba_ble::gatt::{
    add_char_uuid128_with_mask, add_char_with_mask, add_primary_service_uuid128,
    add_primary_service_uuid16, char_from_reply, service_from_reply, unit_from_reply,
    update_char_value_chunked_notify, update_char_value_chunked_notify_ext, ChunkedNotify,
    ATTR_PERMISSION_NONE, CHAR_PROP_NOTIFY, CHAR_PROP_READ, GATT_NOTIFY_ATTRIBUTE_WRITE,
};
use st_wba_ble::status::check;
use st_wba_ble::{add_char, add_primary_service, update_char_value, BleStatus, Char, Service};

fn ok_reply(handle: u16) -> Reply {
    Reply { status: 0, handles: [handle, 0, 0] }
}

fn uuid16_expected(lo: u8, hi: u8) -> [u8; 16] {
    let mut b = [0u8; 16];
    b[0] = lo;
    b[1] = hi;
    b
}

#[test]
fn status_from_code() {
    assert_eq!(BleStatus::from(0), BleStatus::Success);
    assert_eq!(BleStatus::from(0x12), BleStatus::Other(0x12));
    assert_eq!(BleStatus::from(-1), BleStatus::Other(-1));
    assert_eq!(check(0), Ok(()));
    assert_eq!(check(0x0c), Err(BleStatus::Other(0x0c)));
}

#[test]
fn uuid16_packing_is_little_endian() {
    assert_eq!(make_service_uuid16(0x180A).bytes, uuid16_expected(0x0A, 0x18));
    assert_eq!(make_char_uuid16(0x2A29).bytes, uuid16_expected(0x29, 0x2A));
    assert_eq!(make_service_uuid16(0).bytes, [0u8; 16]);
    assert_eq!(make_char_uuid16(0xFFFF).bytes, uuid16_expected(0xFF, 0xFF));
}

#[test]
fn uuid128_packing_keeps_bytes() {
    let u: [u8; 16] = [1, 2, 3, 4, 5, 6, 7, 8, 9, 10, 11, 12, 13, 14, 15, 16];
    assert_eq!(make_service_uuid128(&u).bytes, u);
    assert_eq!(make_char_uuid128(&u).bytes, u);
}

#[test]
fn add_primary_service_command() {
    let expected = AciCommand::GattAddService {
        uuid_type: 0x01,
        uuid: make_service_uuid16(0x180A),
        service_type: 0x01,
        max_attr_records: 4,
    };
    assert_eq!(add_primary_service(0x180A, 4), expected);
    assert_eq!(add_primary_service_uuid16(0x180A, 4), expected);
}

#[test]
fn add_primary_service_uuid128_command() {
    let u = [0xAAu8; 16];
    assert_eq!(
        add_primary_service_uuid128(u, 7),
        AciCommand::GattAddService {
            uuid_type: 0x02,
            uuid: make_service_uuid128(&u),
            service_type: 0x01,
            max_attr_records: 7,
        }
    );
}

#[test]
fn service_reply_outcomes() {
    assert_eq!(service_from_reply(&ok_reply(0x000C)), Ok(Service { handle: 0x000C }));
    let failed = Reply { status: 0x47, handles: [0x000C, 0, 0] };
    assert_eq!(service_from_reply(&failed), Err(BleStatus::Other(0x47)));
}

#[test]
fn add_char_command() {
    let svc = Service { handle: 0x0010 };
    assert_eq!(
        add_char(&svc, 0x2A29, CHAR_PROP_READ, ATTR_PERMISSION_NONE, 20),
        AciCommand::GattAddChar {
            service_handle: 0x0010,
            uuid_type: 0x01,
            uuid: make_char_uuid16(0x2A29),
            value_len: 20,
            props: 0x02,
            perm: 0x00,
            evt_mask: 0,
            enc_key_size: 0,
            is_variable: 0,
        }
    );
}

#[test]
fn add_char_with_mask_command() {
    let svc = Service { handle: 0x0010 };
    assert_eq!(
        add_char_with_mask(&svc, 0x2A37, CHAR_PROP_NOTIFY, ATTR_PERMISSION_NONE, 8, GATT_NOTIFY_ATTRIBUTE_WRITE),
        AciCommand::GattAddChar {
            service_handle: 0x0010,
            uuid_type: 0x01,
            uuid: make_char_uuid16(0x2A37),
            value_len: 8,
            props: 0x10,
            perm: 0x00,
            evt_mask: 0x01,
            enc_key_size: 0,
            is_variable: 0,
        }
    );
}

#[test]
fn add_char_uuid128_command() {
    let svc = Service { handle: 0x0020 };
    let u: [u8; 16] = [16, 15, 14, 13, 12, 11, 10, 9, 8, 7, 6, 5, 4, 3, 2, 1];
    assert_eq!(
        add_char_uuid128_with_mask(&svc, u, 0x12, 0x00, 244, 0x01),
        AciCommand::GattAddChar {
            service_handle: 0x0020,
            uuid_type: 0x02,
            uuid: make_char_uuid128(&u),
            value_len: 244,
            props: 0x12,
            perm: 0x00,
            evt_mask: 0x01,
            enc_key_size: 0,
            is_variable: 0,
        }
    );
}

#[test]
fn char_reply_outcomes() {
    assert_eq!(char_from_reply(&ok_reply(0x0011)), Ok(Char { handle: 0x0011 }));
    assert_eq!(char_from_reply(&Reply { status: 0x1F, handles: [0; 3] }), Err(BleStatus::Other(0x1F)));
    assert_eq!(unit_from_reply(&ok_reply(0)), Ok(()));
    assert_eq!(unit_from_reply(&Reply { status: 3, handles: [0; 3] }), Err(BleStatus::Other(3)));
}

#[test]
fn value_handle_follows_declaration() {
    assert_eq!(Char { handle: 0x0011 }.value_handle(), 0x0012);
}

#[test]
fn update_char_value_command() {
    let svc = Service { handle: 0x0010 };
    let ch = Char { handle: 0x0011 };
    assert_eq!(
        update_char_value(&svc, &ch, b"ACME-Rust"),
        AciCommand::GattUpdateCharValue {
            service_handle: 0x0010,
            char_handle: 0x0012,
            offset: 0,
            value: b"ACME-Rust".to_vec(),
        }
    );
}

#[test]
fn update_char_value_length_is_one_byte() {
    let svc = Service { handle: 1 };
    let ch = Char { handle: 2 };
    let val: Vec<u8> = (0..300u32).map(|i| (i % 251) as u8).collect();
    match update_char_value(&svc, &ch, &val) {
        AciCommand::GattUpdateCharValue { value, .. } => assert_eq!(value, val[..44].to_vec()),
        other => panic!("unexpected command {:?}", other),
    }
    let max: Vec<u8> = vec![7u8; 255];
    match update_char_value(&svc, &ch, &max) {
        AciCommand::GattUpdateCharValue { value, .. } => assert_eq!(value, max),
        other => panic!("unexpected command {:?}", other),
    }
}

fn run_ok(session: &mut ChunkedNotify) -> Vec<AciCommand> {
    let mut issued = Vec::new();
    loop {
        match session.next() {
            Step::Issue(cmd) => {
                issued.push(cmd);
                session.on_reply(&ok_reply(0));
            }
            Step::Done(outcome) => {
                assert_eq!(outcome, Ok(()));
                return issued;
            }
        }
    }
}

#[test]
fn chunked_notify_splits_into_255_byte_chunks() {
    let svc = Service { handle: 0x0010 };
    let ch = Char { handle: 0x0011 };
    let val: Vec<u8> = (0..600u32).map(|i| (i % 256) as u8).collect();
    let mut session = update_char_value_chunked_notify(&svc, &ch, &val);
    let issued = run_ok(&mut session);
    assert_eq!(
        issued,
        vec![
            AciCommand::GattUpdateCharValue { service_handle: 0x10, char_handle: 0x12, offset: 0, value: val[0..255].to_vec() },
            AciCommand::GattUpdateCharValue { service_handle: 0x10, char_handle: 0x12, offset: 255, value: val[255..510].to_vec() },
            AciCommand::GattUpdateCharValue { service_handle: 0x10, char_handle: 0x12, offset: (510 % 256) as u8, value: val[510..600].to_vec() },
        ]
    );
}

#[test]
fn chunked_notify_ext_carries_total_and_offset() {
    let svc = Service { handle: 0x0010 };
    let ch = Char { handle: 0x0011 };
    let val: Vec<u8> = vec![0x5A; 300];
    let mut session = update_char_value_chunked_notify_ext(&svc, &ch, &val);
    let issued = run_ok(&mut session);
    assert_eq!(
        issued,
        vec![
            AciCommand::GattUpdateCharValueExt { service_handle: 0x10, char_handle: 0x12, update_type: 1, total_len: 300, offset: 0, value: vec![0x5A; 255] },
            AciCommand::GattUpdateCharValueExt { service_handle: 0x10, char_handle: 0x12, update_type: 1, total_len: 300, offset: 255, value: vec![0x5A; 45] },
        ]
    );
}

#[test]
fn chunked_notify_empty_value_issues_nothing() {
    let svc = Service { handle: 1 };
    let ch = Char { handle: 2 };
    let session = update_char_value_chunked_notify(&svc, &ch, &[]);
    assert_eq!(session.next(), Step::Done(Ok(())));
}

#[test]
fn chunked_notify_exact_chunk_size() {
    let svc = Service { handle: 1 };
    let ch = Char { handle: 2 };
    let val = vec![1u8; 255];
    let mut session = update_char_value_chunked_notify(&svc, &ch, &val);
    let issued = run_ok(&mut session);
    assert_eq!(issued.len(), 1);
}

#[test]
fn chunked_notify_stops_at_first_failure() {
    let svc = Service { handle: 1 };
    let ch = Char { handle: 2 };
    let val = vec![9u8; 600];
    let mut session = update_char_value_chunked_notify(&svc, &ch, &val);
    assert!(matches!(session.next(), Step::Issue(_)));
    session.on_reply(&ok_reply(0));
    assert!(matches!(session.next(), Step::Issue(AciCommand::GattUpdateCharValue { offset: 255, .. })));
    session.on_reply(&Reply { status: 0x64, handles: [0; 3] });
    assert_eq!(session.next(), Step::Done(Err(BleStatus::Other(0x64))));
}
