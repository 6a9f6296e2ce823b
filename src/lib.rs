//! User-space side of a USB gadget: descriptor packages for the kernel's gadget
//! filesystem, the string table, and the decisions of the control plane.
pub mod usb;
pub mod descriptors;
pub mod strings;
pub mod control;
pub mod events;
