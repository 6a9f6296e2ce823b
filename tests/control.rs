use hpg_server::control::{
    handle_setup_request, plan_endpoint_workers, ControlAction, EndpointBinding, UsbCtrlRequest,
};
use hpg_server::strings::make_usb_string;

fn request(request_type: u8, request: u8, value: u16) -> UsbCtrlRequest {
    UsbCtrlRequest { request_type, request, value, index: 0, length: 0 }
}

#[test]
fn get_descriptor_product_string() {
    let action = handle_setup_request(&request(0x80, 6, 0x0302));
    assert_eq!(action, ControlAction::Reply(make_usb_string("Bionik Hexapod PWM Gadget")));
}

#[test]
fn get_descriptor_language_id() {
    let action = handle_setup_request(&request(0x80, 6, 0x0300));
    assert_eq!(action, ControlAction::Reply(vec![4, 3, 0x09, 0x04]));
}

#[test]
fn get_descriptor_unknown_string_stalls() {
    let action = handle_setup_request(&request(0x80, 6, 0x0309));
    assert_eq!(action, ControlAction::StallRead);
}

#[test]
fn get_descriptor_other_type_stalls() {
    let action = handle_setup_request(&request(0x80, 6, 0x0100));
    assert_eq!(action, ControlAction::StallRead);
}

#[test]
fn get_descriptor_wrong_direction_stalls() {
    let action = handle_setup_request(&request(0x00, 6, 0x0302));
    assert_eq!(action, ControlAction::StallWrite);
}

#[test]
fn set_configuration_values() {
    assert_eq!(handle_setup_request(&request(0x00, 9, 2)), ControlAction::Configure);
    assert_eq!(handle_setup_request(&request(0x00, 9, 0)), ControlAction::DeconfigureUnsupported);
    assert_eq!(handle_setup_request(&request(0x00, 9, 1)), ControlAction::IgnoreConfiguration);
}

#[test]
fn set_configuration_wrong_direction_stalls() {
    assert_eq!(handle_setup_request(&request(0x80, 9, 2)), ControlAction::StallRead);
}

#[test]
fn get_interface_replies_zero() {
    assert_eq!(handle_setup_request(&request(0x81, 10, 0)), ControlAction::Reply(vec![0]));
}

#[test]
fn set_interface_is_unsupported() {
    assert_eq!(handle_setup_request(&request(0x01, 11, 0)), ControlAction::SetInterfaceUnsupported);
}

#[test]
fn unknown_request_in_stalls_with_read() {
    assert_eq!(handle_setup_request(&request(0x80, 0x42, 0)), ControlAction::StallRead);
    assert_eq!(handle_setup_request(&request(0xC0, 0x01, 0)), ControlAction::StallRead);
}

#[test]
fn unknown_request_out_stalls_with_write() {
    assert_eq!(handle_setup_request(&request(0x40, 0x42, 0)), ControlAction::StallWrite);
}

fn binding(ep_num: u8, sink: &str) -> EndpointBinding {
    EndpointBinding { ep_num, sink: sink.to_string() }
}

#[test]
fn configuration_spawns_one_worker_per_sink() {
    let files = vec!["/tmp/a".to_string(), "/tmp/b".to_string()];
    let workers = plan_endpoint_workers(&files, &vec![true, true]);
    assert_eq!(workers, vec![binding(1, "/tmp/a"), binding(2, "/tmp/b")]);
}

#[test]
fn configuration_skips_failed_endpoint() {
    let files = vec!["/tmp/a".to_string(), "/tmp/b".to_string()];
    let workers = plan_endpoint_workers(&files, &vec![false, true]);
    assert_eq!(workers, vec![binding(2, "/tmp/b")]);
}

#[test]
fn configuration_without_sinks() {
    let workers = plan_endpoint_workers(&Vec::new(), &Vec::new());
    assert!(workers.is_empty());
}
