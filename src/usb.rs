//! Numbers fixed by the USB specification and by the gadget filesystem.
use vstd::prelude::*;

verus! {

pub const USB_DIR_OUT: u8 = 0x00;

pub const USB_DIR_IN: u8 = 0x80;

pub const USB_DT_DEVICE: u8 = 1;

pub const USB_DT_CONFIG: u8 = 2;

pub const USB_DT_STRING: u8 = 3;

pub const USB_DT_INTERFACE: u8 = 4;

pub const USB_DT_ENDPOINT: u8 = 5;

pub const USB_DT_DEVICE_SIZE: u8 = 18;

pub const USB_DT_CONFIG_SIZE: u8 = 9;

pub const USB_DT_INTERFACE_SIZE: u8 = 9;

/// Length of an endpoint descriptor as sent on the wire.
pub const USB_DT_ENDPOINT_SIZE: u8 = 7;

/// Length of an endpoint descriptor record with its two audio extension bytes.
pub const USB_DT_ENDPOINT_AUDIO_SIZE: u8 = 9;

pub const USB_CLASS_COMM: u8 = 2;

pub const USB_ENDPOINT_XFER_BULK: u8 = 2;

pub const USB_CONFIG_ATT_ONE: u8 = 0x80;

pub const USB_CONFIG_ATT_SELFPOWER: u8 = 0x40;

pub const USB_REQ_GET_DESCRIPTOR: u8 = 6;

pub const USB_REQ_SET_CONFIGURATION: u8 = 9;

pub const USB_REQ_GET_INTERFACE: u8 = 10;

pub const USB_REQ_SET_INTERFACE: u8 = 11;

pub const STRINGID_LANGID: u8 = 0;

pub const STRINGID_MANUFACTURER: u8 = 1;

pub const STRINGID_PRODUCT: u8 = 2;

pub const STRINGID_SERIAL: u8 = 3;

pub const STRINGID_CONFIG_HS: u8 = 4;

pub const STRINGID_CONFIG_LS: u8 = 5;

pub const STRINGID_INTERFACE: u8 = 6;

/// The one configuration this gadget offers.
pub const CONFIGURATION_VALUE: u16 = 2;

} // verus!
