//! Gadget events as the control endpoint delivers them, and the decisions of
//! the two read loops: the event loop on the control endpoint and the worker
//! loop on each bulk endpoint.
use vstd::prelude::*;
use crate::control::UsbCtrlRequest;

verus! {

pub const GADGETFS_NOP: u32 = 0;

pub const GADGETFS_CONNECT: u32 = 1;

pub const GADGETFS_DISCONNECT: u32 = 2;

pub const GADGETFS_SETUP: u32 = 3;

pub const GADGETFS_SUSPEND: u32 = 4;

/// Bytes of one event record: an 8-byte payload, then the 32-bit type.
pub const EVENT_SIZE: usize = 12;

/// Events asked for in one read of the control endpoint.
pub const EVENTS_PER_READ: usize = 5;

/// Bytes that one worker read asks for.
pub const ENDPOINT_READ_SIZE: usize = 8;

/// One event record. Its payload is read both ways: as the setup packet of a
/// SETUP event, and in its first four bytes as the speed of a CONNECT event.
#[allow(non_camel_case_types)]
#[derive(Clone, Copy, Debug, PartialEq, Eq, Structural)]
pub struct usb_gadgetfs_event {
    pub setup: UsbCtrlRequest,
    pub speed: u32,
    pub type_: u32,
}

pub open spec fn le16_value(b: Seq<u8>, at: int) -> u16 {
    (b[at] + 256 * b[at + 1]) as u16
}

pub open spec fn le32_value(b: Seq<u8>, at: int) -> u32 {
    (b[at] + 256 * (b[at + 1] + 256 * (b[at + 2] + 256 * b[at + 3]))) as u32
}

/// The event whose 12-byte record starts at `at`.
pub open spec fn event_at(b: Seq<u8>, at: int) -> usb_gadgetfs_event {
    usb_gadgetfs_event {
        setup: UsbCtrlRequest {
            request_type: b[at],
            request: b[at + 1],
            value: le16_value(b, at + 2),
            index: le16_value(b, at + 4),
            length: le16_value(b, at + 6),
        },
        speed: le32_value(b, at),
        type_: le32_value(b, at + 8),
    }
}

/// The event loop logs these and goes on; any other type ends the batch.
pub open spec fn is_handled_type(t: u32) -> bool {
    t == GADGETFS_CONNECT || t == GADGETFS_DISCONNECT || t == GADGETFS_SETUP || t
        == GADGETFS_SUSPEND
}

/// `r` is the longest run of handled events at the start of the `n` whole
/// records of `b`.
pub open spec fn is_dispatch_prefix(b: Seq<u8>, n: int, r: Seq<usb_gadgetfs_event>) -> bool {
    &&& r.len() <= n
    &&& forall|i: int| 0 <= i < r.len() ==> r[i] == event_at(b, EVENT_SIZE * i)
    &&& forall|i: int| 0 <= i < r.len() ==> is_handled_type(#[trigger] r[i].type_)
    &&& r.len() < n ==> !is_handled_type(event_at(b, EVENT_SIZE * r.len()).type_)
}

fn le16_from(b: &Vec<u8>, at: usize) -> (r: u16)
    requires
        at + 2 <= b@.len(),
    ensures
        r == le16_value(b@, at as int),
{
    // The length of a vector fits in usize, so offsets below it do too.
    let _len = b.len();
    b[at] as u16 + 256 * b[at + 1] as u16
}

fn le32_from(b: &Vec<u8>, at: usize) -> (r: u32)
    requires
        at + 4 <= b@.len(),
    ensures
        r == le32_value(b@, at as int),
{
    // The length of a vector fits in usize, so offsets below it do too.
    let _len = b.len();
    let v: u64 = b[at] as u64 + 256 * (b[at + 1] as u64 + 256 * (b[at + 2] as u64 + 256 * b[at
        + 3] as u64));
    v as u32
}

/// Decodes the event record that starts at `at`.
pub fn decode_event(b: &Vec<u8>, at: usize) -> (r: usb_gadgetfs_event)
    requires
        at + EVENT_SIZE <= b@.len(),
    ensures
        r == event_at(b@, at as int),
{
    // The length of a vector fits in usize, so offsets below it do too.
    let _len = b.len();
    usb_gadgetfs_event {
        setup: UsbCtrlRequest {
            request_type: b[at],
            request: b[at + 1],
            value: le16_from(b, at + 2),
            index: le16_from(b, at + 4),
            length: le16_from(b, at + 6),
        },
        speed: le32_from(b, at),
        type_: le32_from(b, at + 8),
    }
}

/// What the event loop does with one read of `bytes_cnt` bytes into `buf`: a
/// negative count ends the loop (`None`); otherwise the whole records read are
/// decoded, and those before the first of an unhandled type are dispatched in
/// order.
pub fn events_to_dispatch(buf: &Vec<u8>, bytes_cnt: isize) -> (r: Option<
    Vec<usb_gadgetfs_event>,
>)
    requires
        bytes_cnt <= buf@.len(),
    ensures
        r is None <==> bytes_cnt < 0,
        r is Some ==> is_dispatch_prefix(buf@, bytes_cnt as int / EVENT_SIZE as int, r->Some_0@),
{
    if bytes_cnt < 0 {
        return None;
    }
    let events_cnt: usize = bytes_cnt as usize / EVENT_SIZE;
    let mut events: Vec<usb_gadgetfs_event> = Vec::new();
    let mut i: usize = 0;
    while i < events_cnt
        invariant
            i <= events_cnt,
            events_cnt == bytes_cnt as int / EVENT_SIZE as int,
            EVENT_SIZE * events_cnt <= buf@.len(),
            events@.len() == i,
            forall|k: int| 0 <= k < i ==> events@[k] == event_at(buf@, EVENT_SIZE * k),
            forall|k: int| 0 <= k < i ==> is_handled_type(#[trigger] events@[k].type_),
        ensures
            i <= events_cnt,
            events@.len() == i,
            forall|k: int| 0 <= k < i ==> events@[k] == event_at(buf@, EVENT_SIZE * k),
            forall|k: int| 0 <= k < i ==> is_handled_type(#[trigger] events@[k].type_),
            i < events_cnt ==> !is_handled_type(event_at(buf@, EVENT_SIZE * i).type_),
        decreases events_cnt - i,
    {
        let event = decode_event(buf, EVENT_SIZE * i);
        if !(event.type_ == GADGETFS_CONNECT || event.type_ == GADGETFS_DISCONNECT || event.type_
            == GADGETFS_SETUP || event.type_ == GADGETFS_SUSPEND) {
            break;
        }
        events.push(event);
        i = i + 1;
    }
    Some(events)
}

/// What a worker forwards after one read of `bytes_cnt` bytes into `buf`:
/// `None` for a failed read (negative count), which the worker reports and
/// then goes on polling; otherwise exactly the bytes read.
pub fn forwarded_bytes(buf: &Vec<u8>, bytes_cnt: isize) -> (r: Option<Vec<u8>>)
    requires
        bytes_cnt <= buf@.len(),
    ensures
        r is None <==> bytes_cnt < 0,
        r is Some ==> r->Some_0@ == buf@.subrange(0, bytes_cnt as int),
{
    if bytes_cnt < 0 {
        return None;
    }
    let n: usize = bytes_cnt as usize;
    let mut out: Vec<u8> = Vec::with_capacity(n);
    let mut i: usize = 0;
    while i < n
        invariant
            i <= n,
            n <= buf@.len(),
            n == bytes_cnt,
            out@ == buf@.subrange(0, i as int),
        decreases n - i,
    {
        out.push(buf[i]);
        i = i + 1;
        assert(out@ =~= buf@.subrange(0, i as int));
    }
    Some(out)
}

} // verus!
