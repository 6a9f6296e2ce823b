//! The control dispatcher: what the gadget does with one setup packet, and
//! which endpoint workers a successful configuration starts.
use vstd::prelude::*;
use crate::strings::{string_lookup_spec, usb_gadget_get_string};
use crate::usb::{
    CONFIGURATION_VALUE, USB_DIR_IN, USB_DIR_OUT, USB_DT_STRING, USB_REQ_GET_DESCRIPTOR,
    USB_REQ_GET_INTERFACE, USB_REQ_SET_CONFIGURATION, USB_REQ_SET_INTERFACE,
};

verus! {

/// A control request (setup packet) as the host sent it.
#[derive(Clone, Copy, Debug, PartialEq, Eq, Structural)]
pub struct UsbCtrlRequest {
    /// Direction, type and recipient.
    pub request_type: u8,
    pub request: u8,
    pub value: u16,
    pub index: u16,
    pub length: u16,
}

/// What the control endpoint has to do in answer to one setup packet.
#[derive(Debug, PartialEq, Eq)]
pub enum ControlAction {
    /// Write these bytes on the control endpoint.
    Reply(Vec<u8>),
    /// Enable one bulk endpoint per sink and start its worker, then complete
    /// the status stage with a zero-length read.
    Configure,
    /// Leave the configuration alone and complete the status stage with a
    /// zero-length read.
    IgnoreConfiguration,
    /// Stall the request with a zero-length read.
    StallRead,
    /// Stall the request with a zero-length write.
    StallWrite,
    /// The host asked to deconfigure the device, which this gadget does not
    /// support.
    DeconfigureUnsupported,
    /// The host sent SET_INTERFACE, which this gadget does not support.
    SetInterfaceUnsupported,
}

/// A stall goes in the direction opposite to the request's data stage: a
/// read where the direction bit says device-to-host.
pub open spec fn stall_spec(setup: UsbCtrlRequest) -> ControlAction {
    if setup.request_type >= USB_DIR_IN {
        ControlAction::StallRead
    } else {
        ControlAction::StallWrite
    }
}

/// The string descriptor that a GET_DESCRIPTOR request is answered with,
/// where there is one.
pub open spec fn string_reply_spec(setup: UsbCtrlRequest) -> Option<Seq<u8>> {
    if setup.request == USB_REQ_GET_DESCRIPTOR && setup.request_type == USB_DIR_IN && setup.value
        / 256 == USB_DT_STRING as u16 {
        string_lookup_spec((setup.value % 256) as u8)
    } else {
        None
    }
}

/// The action for every request that is answered neither with a string
/// descriptor nor with the interface's alternate setting.
pub open spec fn plain_action_spec(setup: UsbCtrlRequest) -> ControlAction {
    if setup.request == USB_REQ_SET_CONFIGURATION && setup.request_type == USB_DIR_OUT {
        if setup.value == CONFIGURATION_VALUE {
            ControlAction::Configure
        } else if setup.value == 0 {
            ControlAction::DeconfigureUnsupported
        } else {
            ControlAction::IgnoreConfiguration
        }
    } else if setup.request == USB_REQ_SET_INTERFACE {
        ControlAction::SetInterfaceUnsupported
    } else {
        stall_spec(setup)
    }
}

/// Decides how to answer one setup packet. A device-to-host GET_DESCRIPTOR of
/// a known string is answered with its descriptor; GET_INTERFACE with the
/// single byte 0; a host-to-device SET_CONFIGURATION according to its value;
/// SET_INTERFACE is unsupported; everything else is stalled.
pub fn handle_setup_request(setup: &UsbCtrlRequest) -> (r: ControlAction)
    ensures
        string_reply_spec(*setup) is Some ==> r is Reply && r->Reply_0@ == string_reply_spec(
            *setup,
        )->Some_0,
        setup.request == USB_REQ_GET_INTERFACE ==> r is Reply && r->Reply_0@ == seq![0u8],
        string_reply_spec(*setup) is None && setup.request != USB_REQ_GET_INTERFACE ==> r
            == plain_action_spec(*setup),
{
    if setup.request == USB_REQ_GET_DESCRIPTOR {
        if setup.request_type == USB_DIR_IN && setup.value / 256 == USB_DT_STRING as u16 {
            if let Some(string) = usb_gadget_get_string((setup.value % 256) as u8) {
                return ControlAction::Reply(string);
            }
        }
    } else if setup.request == USB_REQ_SET_CONFIGURATION {
        if setup.request_type == USB_DIR_OUT {
            if setup.value == CONFIGURATION_VALUE {
                return ControlAction::Configure;
            } else if setup.value == 0 {
                return ControlAction::DeconfigureUnsupported;
            } else {
                return ControlAction::IgnoreConfiguration;
            }
        }
    } else if setup.request == USB_REQ_GET_INTERFACE {
        return ControlAction::Reply(vec![0u8]);
    } else if setup.request == USB_REQ_SET_INTERFACE {
        return ControlAction::SetInterfaceUnsupported;
    }
    if setup.request_type >= USB_DIR_IN {
        ControlAction::StallRead
    } else {
        ControlAction::StallWrite
    }
}

/// A bulk endpoint whose worker forwards what arrives on it to a sink.
#[derive(Debug, PartialEq, Eq)]
pub struct EndpointBinding {
    /// 1-based endpoint number.
    pub ep_num: u8,
    pub sink: String,
}

impl EndpointBinding {
    pub open spec fn view(self) -> (int, Seq<char>) {
        (self.ep_num as int, self.sink@)
    }
}

/// The workers that the first `n` sinks get: sink `i` (from 0) is bound to
/// endpoint `i + 1` where enabling that endpoint succeeded, and is skipped
/// where it failed.
pub open spec fn worker_plan(sinks: Seq<Seq<char>>, enabled: Seq<bool>, n: nat) -> Seq<
    (int, Seq<char>),
>
    decreases n,
{
    if n == 0 {
        Seq::empty()
    } else {
        let before = worker_plan(sinks, enabled, (n - 1) as nat);
        if enabled[n - 1] {
            before.push((n as int, sinks[n - 1]))
        } else {
            before
        }
    }
}

/// The endpoint workers that a successful configuration starts, in sink
/// order, given for each sink whether enabling its endpoint succeeded.
pub fn plan_endpoint_workers(files: &Vec<String>, enabled: &Vec<bool>) -> (r: Vec<
    EndpointBinding,
>)
    requires
        files@.len() == enabled@.len(),
        files@.len() <= 255,
    ensures
        ({
            let plan = worker_plan(files@.map_values(|f: String| f@), enabled@, files@.len());
            &&& r@.len() == plan.len()
            &&& forall|k: int| 0 <= k < r@.len() ==> #[trigger] r@[k]@ == plan[k]
        }),
{
    let ghost sinks = files@.map_values(|f: String| f@);
    let mut workers: Vec<EndpointBinding> = Vec::new();
    let mut i: usize = 0;
    while i < files.len()
        invariant
            i <= files@.len(),
            files@.len() == enabled@.len(),
            files@.len() <= 255,
            sinks == files@.map_values(|f: String| f@),
            workers@.map_values(|b: EndpointBinding| b@) == worker_plan(sinks, enabled@, i as nat),
        decreases files@.len() - i,
    {
        let ghost before = workers@;
        if enabled[i] {
            workers.push(EndpointBinding { ep_num: (i + 1) as u8, sink: files[i].clone() });
            assert(workers@.map_values(|b: EndpointBinding| b@) =~= before.map_values(
                |b: EndpointBinding| b@,
            ).push(((i + 1) as int, sinks[i as int])));
        }
        i = i + 1;
    }
    proof {
        let plan = worker_plan(sinks, enabled@, files@.len());
        assert forall|k: int| 0 <= k < workers@.len() implies #[trigger] workers@[k]@ == plan[k] by {
            assert(workers@.map_values(|b: EndpointBinding| b@)[k] == workers@[k]@);
        }
    }
    workers
}

} // verus!
