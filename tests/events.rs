use hpg_server::events::{
    decode_event, events_to_dispatch, forwarded_bytes, GADGETFS_CONNECT, GADGETFS_NOP,
    GADGETFS_SETUP, GADGETFS_SUSPEND,
};

fn record(type_: u32, payload: [u8; 8]) -> Vec<u8> {
    let mut bytes = payload.to_vec();
    bytes.extend_from_slice(&type_.to_le_bytes());
    bytes
}

#[test]
fn decode_setup_event() {
    let bytes = record(GADGETFS_SETUP, [0x80, 6, 0x02, 0x03, 0x09, 0x04, 0xff, 0x00]);
    let event = decode_event(&bytes, 0);
    assert_eq!(event.type_, GADGETFS_SETUP);
    assert_eq!(event.setup.request_type, 0x80);
    assert_eq!(event.setup.request, 6);
    assert_eq!(event.setup.value, 0x0302);
    assert_eq!(event.setup.index, 0x0409);
    assert_eq!(event.setup.length, 0x00ff);
    assert_eq!(event.speed, 0x0302_0680);
}

#[test]
fn negative_read_ends_event_loop() {
    let buf = vec![0u8; 60];
    assert_eq!(events_to_dispatch(&buf, -1), None);
}

#[test]
fn whole_records_are_dispatched_in_order() {
    let mut buf = record(GADGETFS_CONNECT, [3, 0, 0, 0, 0, 0, 0, 0]);
    buf.extend(record(GADGETFS_SETUP, [0x80, 6, 2, 3, 0, 0, 0, 0]));
    buf.extend(record(GADGETFS_SUSPEND, [0; 8]));
    buf.extend_from_slice(&[0u8; 5]);
    let events = events_to_dispatch(&buf, 41).unwrap();
    assert_eq!(events.len(), 3);
    assert_eq!(events[0].type_, GADGETFS_CONNECT);
    assert_eq!(events[0].speed, 3);
    assert_eq!(events[1].type_, GADGETFS_SETUP);
    assert_eq!(events[1].setup.value, 0x0302);
    assert_eq!(events[2].type_, GADGETFS_SUSPEND);
}

#[test]
fn unknown_event_ends_batch() {
    let mut buf = record(GADGETFS_CONNECT, [0; 8]);
    buf.extend(record(GADGETFS_NOP, [0; 8]));
    buf.extend(record(GADGETFS_SETUP, [0; 8]));
    let events = events_to_dispatch(&buf, 36).unwrap();
    assert_eq!(events.len(), 1);
    assert_eq!(events[0].type_, GADGETFS_CONNECT);
}

#[test]
fn short_read_dispatches_nothing() {
    let buf = record(GADGETFS_SETUP, [0; 8]);
    assert_eq!(events_to_dispatch(&buf, 11), Some(Vec::new()));
}

#[test]
fn worker_forwards_bytes_read() {
    let buf = vec![1, 2, 3, 4, 5, 6, 7, 8];
    assert_eq!(forwarded_bytes(&buf, 3), Some(vec![1, 2, 3]));
    assert_eq!(forwarded_bytes(&buf, 8), Some(buf.clone()));
    assert_eq!(forwarded_bytes(&buf, 0), Some(Vec::new()));
}

#[test]
fn worker_skips_failed_read() {
    let buf = vec![0u8; 8];
    assert_eq!(forwarded_bytes(&buf, -5), None);
}
