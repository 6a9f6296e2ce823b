//! Descriptor records, their little-endian serialisation, and the two
//! packages written to the gadget filesystem: the initial one on the control
//! endpoint and the enable package on each bulk endpoint.
use vstd::prelude::*;
use crate::usb::{
    CONFIGURATION_VALUE, STRINGID_CONFIG_HS, STRINGID_CONFIG_LS, STRINGID_INTERFACE,
    STRINGID_MANUFACTURER, STRINGID_PRODUCT, STRINGID_SERIAL, USB_CLASS_COMM,
    USB_CONFIG_ATT_ONE, USB_CONFIG_ATT_SELFPOWER, USB_DIR_OUT, USB_DT_CONFIG,
    USB_DT_CONFIG_SIZE, USB_DT_DEVICE, USB_DT_DEVICE_SIZE, USB_DT_ENDPOINT,
    USB_DT_ENDPOINT_AUDIO_SIZE, USB_DT_ENDPOINT_SIZE, USB_DT_INTERFACE, USB_DT_INTERFACE_SIZE,
    USB_ENDPOINT_XFER_BULK,
};

verus! {

/// Low and high byte of a 16-bit field.
pub open spec fn le16(v: u16) -> Seq<u8> {
    seq![(v % 256) as u8, (v / 256) as u8]
}

fn push_le16(out: &mut Vec<u8>, v: u16)
    ensures
        final(out)@ == old(out)@ + le16(v),
{
    out.push((v % 256) as u8);
    out.push((v / 256) as u8);
}

fn push_all(out: &mut Vec<u8>, bytes: &[u8])
    ensures
        final(out)@ == old(out)@ + bytes@,
{
    let mut i: usize = 0;
    while i < bytes.len()
        invariant
            i <= bytes@.len(),
            out@ == old(out)@ + bytes@.subrange(0, i as int),
        decreases bytes@.len() - i,
    {
        out.push(bytes[i]);
        i = i + 1;
        assert(bytes@.subrange(0, i as int) == bytes@.subrange(0, i - 1 as int).push(
            bytes@[i - 1],
        ));
    }
    assert(bytes@.subrange(0, i as int) == bytes@);
}

pub struct UsbDeviceDescriptor {
    pub length: u8,
    pub descriptor_type: u8,
    pub bcd_usb: u16,
    pub device_class: u8,
    pub device_sub_class: u8,
    pub device_protocol: u8,
    pub max_packet_size0: u8,
    pub id_vendor: u16,
    pub id_product: u16,
    pub bcd_device: u16,
    pub i_manufacturer: u8,
    pub i_product: u8,
    pub i_serial_number: u8,
    pub num_configurations: u8,
}

impl UsbDeviceDescriptor {
    pub open spec fn bytes(self) -> Seq<u8> {
        seq![self.length, self.descriptor_type] + le16(self.bcd_usb) + seq![
            self.device_class,
            self.device_sub_class,
            self.device_protocol,
            self.max_packet_size0,
        ] + le16(self.id_vendor) + le16(self.id_product) + le16(self.bcd_device) + seq![
            self.i_manufacturer,
            self.i_product,
            self.i_serial_number,
            self.num_configurations,
        ]
    }

    pub fn write_to(&self, out: &mut Vec<u8>)
        ensures
            final(out)@ == old(out)@ + self.bytes(),
    {
        out.push(self.length);
        out.push(self.descriptor_type);
        push_le16(out, self.bcd_usb);
        out.push(self.device_class);
        out.push(self.device_sub_class);
        out.push(self.device_protocol);
        out.push(self.max_packet_size0);
        push_le16(out, self.id_vendor);
        push_le16(out, self.id_product);
        push_le16(out, self.bcd_device);
        out.push(self.i_manufacturer);
        out.push(self.i_product);
        out.push(self.i_serial_number);
        out.push(self.num_configurations);
        assert(final(out)@ =~= old(out)@ + self.bytes());
    }
}

pub struct UsbConfigDescriptor {
    pub length: u8,
    pub descriptor_type: u8,
    pub total_length: u16,
    pub num_interfaces: u8,
    pub configuration_value: u8,
    pub i_configuration: u8,
    pub attributes: u8,
    pub max_power: u8,
}

impl UsbConfigDescriptor {
    pub open spec fn bytes(self) -> Seq<u8> {
        seq![self.length, self.descriptor_type] + le16(self.total_length) + seq![
            self.num_interfaces,
            self.configuration_value,
            self.i_configuration,
            self.attributes,
            self.max_power,
        ]
    }

    pub fn write_to(&self, out: &mut Vec<u8>)
        ensures
            final(out)@ == old(out)@ + self.bytes(),
    {
        out.push(self.length);
        out.push(self.descriptor_type);
        push_le16(out, self.total_length);
        out.push(self.num_interfaces);
        out.push(self.configuration_value);
        out.push(self.i_configuration);
        out.push(self.attributes);
        out.push(self.max_power);
        assert(final(out)@ =~= old(out)@ + self.bytes());
    }
}

pub struct UsbInterfaceDescriptor {
    pub length: u8,
    pub descriptor_type: u8,
    pub interface_number: u8,
    pub alternate_setting: u8,
    pub num_endpoints: u8,
    pub interface_class: u8,
    pub interface_sub_class: u8,
    pub interface_protocol: u8,
    pub i_interface: u8,
}

impl UsbInterfaceDescriptor {
    pub open spec fn bytes(self) -> Seq<u8> {
        seq![
            self.length,
            self.descriptor_type,
            self.interface_number,
            self.alternate_setting,
            self.num_endpoints,
            self.interface_class,
            self.interface_sub_class,
            self.interface_protocol,
            self.i_interface,
        ]
    }

    pub fn write_to(&self, out: &mut Vec<u8>)
        ensures
            final(out)@ == old(out)@ + self.bytes(),
    {
        out.push(self.length);
        out.push(self.descriptor_type);
        out.push(self.interface_number);
        out.push(self.alternate_setting);
        out.push(self.num_endpoints);
        out.push(self.interface_class);
        out.push(self.interface_sub_class);
        out.push(self.interface_protocol);
        out.push(self.i_interface);
        assert(final(out)@ =~= old(out)@ + self.bytes());
    }
}

/// An endpoint descriptor record. The two audio extension fields belong to
/// the record but never go on the wire.
pub struct UsbEndpointDescriptor {
    pub length: u8,
    pub descriptor_type: u8,
    pub endpoint_address: u8,
    pub attributes: u8,
    pub max_packet_size: u16,
    pub interval: u8,
    pub refresh: u8,
    pub synch_address: u8,
}

impl UsbEndpointDescriptor {
    /// The serialised form, without the audio extension bytes.
    pub open spec fn bytes(self) -> Seq<u8> {
        seq![self.length, self.descriptor_type, self.endpoint_address, self.attributes]
            + le16(self.max_packet_size) + seq![self.interval]
    }

    pub fn write_to(&self, out: &mut Vec<u8>)
        ensures
            final(out)@ == old(out)@ + self.bytes(),
    {
        out.push(self.length);
        out.push(self.descriptor_type);
        out.push(self.endpoint_address);
        out.push(self.attributes);
        push_le16(out, self.max_packet_size);
        out.push(self.interval);
        assert(final(out)@ =~= old(out)@ + self.bytes());
    }
}

pub open spec fn device_descriptor_spec() -> UsbDeviceDescriptor {
    UsbDeviceDescriptor {
        length: USB_DT_DEVICE_SIZE,
        descriptor_type: USB_DT_DEVICE,
        bcd_usb: 0x0200,
        device_class: USB_CLASS_COMM,
        device_sub_class: 0,
        device_protocol: 0,
        max_packet_size0: 255,
        id_vendor: 0x1209,
        id_product: 0x0001,
        bcd_device: 0x0100,
        i_manufacturer: STRINGID_MANUFACTURER,
        i_product: STRINGID_PRODUCT,
        i_serial_number: STRINGID_SERIAL,
        num_configurations: 1,
    }
}

/// The device descriptor: a communications-class USB 2.0 device with the
/// pid.codes test identifiers and a single configuration. The control packet
/// size is left to the driver.
pub fn device_descriptor() -> (r: UsbDeviceDescriptor)
    ensures
        r == device_descriptor_spec(),
{
    UsbDeviceDescriptor {
        length: USB_DT_DEVICE_SIZE,
        descriptor_type: USB_DT_DEVICE,
        bcd_usb: 0x0200,
        device_class: USB_CLASS_COMM,
        device_sub_class: 0,
        device_protocol: 0,
        max_packet_size0: 255,
        id_vendor: 0x1209,
        id_product: 0x0001,
        bcd_device: 0x0100,
        i_manufacturer: STRINGID_MANUFACTURER,
        i_product: STRINGID_PRODUCT,
        i_serial_number: STRINGID_SERIAL,
        num_configurations: 1,
    }
}

/// Bytes of the configuration descriptor and what follows it in one speed's
/// block, for `eps_cnt` endpoints.
pub open spec fn total_length_spec(eps_cnt: u8) -> int {
    USB_DT_CONFIG_SIZE + USB_DT_INTERFACE_SIZE + USB_DT_ENDPOINT_SIZE * eps_cnt
}

pub open spec fn config_descriptor_spec(eps_cnt: u8, i_configuration: u8) -> UsbConfigDescriptor {
    UsbConfigDescriptor {
        length: USB_DT_CONFIG_SIZE,
        descriptor_type: USB_DT_CONFIG,
        total_length: total_length_spec(eps_cnt) as u16,
        num_interfaces: 1,
        configuration_value: CONFIGURATION_VALUE as u8,
        i_configuration,
        attributes: USB_CONFIG_ATT_ONE | USB_CONFIG_ATT_SELFPOWER,
        max_power: 1,
    }
}

/// The configuration descriptor of one speed, whose total length covers the
/// interface and `eps_cnt` endpoint descriptors.
pub fn config_descriptor(eps_cnt: u8, i_configuration: u8) -> (r: UsbConfigDescriptor)
    ensures
        r == config_descriptor_spec(eps_cnt, i_configuration),
{
    assert(USB_DT_ENDPOINT_SIZE as u16 * eps_cnt as u16 <= 7 * 255) by (nonlinear_arith)
        requires
            USB_DT_ENDPOINT_SIZE == 7,
            eps_cnt <= 255,
    ;
    let total_length: u16 = USB_DT_CONFIG_SIZE as u16 + USB_DT_INTERFACE_SIZE as u16
        + USB_DT_ENDPOINT_SIZE as u16 * eps_cnt as u16;
    UsbConfigDescriptor {
        length: USB_DT_CONFIG_SIZE,
        descriptor_type: USB_DT_CONFIG,
        total_length,
        num_interfaces: 1,
        configuration_value: CONFIGURATION_VALUE as u8,
        i_configuration,
        attributes: USB_CONFIG_ATT_ONE | USB_CONFIG_ATT_SELFPOWER,
        max_power: 1,
    }
}

pub open spec fn interface_descriptor_spec(eps_cnt: u8) -> UsbInterfaceDescriptor {
    UsbInterfaceDescriptor {
        length: USB_DT_INTERFACE_SIZE,
        descriptor_type: USB_DT_INTERFACE,
        interface_number: 0,
        alternate_setting: 0,
        num_endpoints: eps_cnt,
        interface_class: USB_CLASS_COMM,
        interface_sub_class: 0,
        interface_protocol: 0,
        i_interface: STRINGID_INTERFACE,
    }
}

/// The one interface, with `eps_cnt` endpoints.
pub fn interface_descriptor(eps_cnt: u8) -> (r: UsbInterfaceDescriptor)
    ensures
        r == interface_descriptor_spec(eps_cnt),
{
    UsbInterfaceDescriptor {
        length: USB_DT_INTERFACE_SIZE,
        descriptor_type: USB_DT_INTERFACE,
        interface_number: 0,
        alternate_setting: 0,
        num_endpoints: eps_cnt,
        interface_class: USB_CLASS_COMM,
        interface_sub_class: 0,
        interface_protocol: 0,
        i_interface: STRINGID_INTERFACE,
    }
}

pub open spec fn endpoint_descriptor_spec(ep_num: u8) -> UsbEndpointDescriptor {
    UsbEndpointDescriptor {
        length: USB_DT_ENDPOINT_SIZE,
        descriptor_type: USB_DT_ENDPOINT,
        endpoint_address: USB_DIR_OUT | ep_num,
        attributes: USB_ENDPOINT_XFER_BULK,
        max_packet_size: 512,
        interval: 0,
        refresh: 0,
        synch_address: 0,
    }
}

/// The bulk OUT endpoint descriptor of endpoint `ep_num`.
pub fn endpoint_descriptor(ep_num: u8) -> (r: UsbEndpointDescriptor)
    ensures
        r == endpoint_descriptor_spec(ep_num),
{
    UsbEndpointDescriptor {
        length: USB_DT_ENDPOINT_SIZE,
        descriptor_type: USB_DT_ENDPOINT,
        endpoint_address: USB_DIR_OUT | ep_num,
        attributes: USB_ENDPOINT_XFER_BULK,
        max_packet_size: 512,
        interval: 0,
        refresh: 0,
        synch_address: 0,
    }
}

/// Serialised endpoint descriptors of endpoints 1 to `n`, in that order.
pub open spec fn endpoint_list_bytes(n: nat) -> Seq<u8>
    decreases n,
{
    if n == 0 {
        Seq::empty()
    } else {
        endpoint_list_bytes((n - 1) as nat) + endpoint_descriptor_spec(n as u8).bytes()
    }
}

/// One speed's block: configuration, interface, then the endpoints.
pub open spec fn speed_block_bytes(eps_cnt: u8, i_configuration: u8) -> Seq<u8> {
    config_descriptor_spec(eps_cnt, i_configuration).bytes() + interface_descriptor_spec(
        eps_cnt,
    ).bytes() + endpoint_list_bytes(eps_cnt as nat)
}

/// The package written first on the control endpoint: a zero tag, the
/// full/low-speed block, the high-speed block, then the device descriptor.
pub open spec fn initial_package_spec(eps_cnt: u8) -> Seq<u8> {
    seq![0u8, 0u8, 0u8, 0u8] + speed_block_bytes(eps_cnt, STRINGID_CONFIG_LS)
        + speed_block_bytes(eps_cnt, STRINGID_CONFIG_HS) + device_descriptor_spec().bytes()
}

/// The package that enables a bulk endpoint: tag 1, then its descriptor for
/// full/low speed and again for high speed.
pub open spec fn endpoint_package_spec(ep_num: u8) -> Seq<u8> {
    seq![1u8, 0u8, 0u8, 0u8] + endpoint_descriptor_spec(ep_num).bytes()
        + endpoint_descriptor_spec(ep_num).bytes()
}

/// Builds the package that enables the bulk OUT endpoint `ep_num`.
pub fn format_ep_init_package(ep_num: u8) -> (r: Vec<u8>)
    ensures
        r@ == endpoint_package_spec(ep_num),
{
    let mut package: Vec<u8> = Vec::with_capacity(4 + 2 * USB_DT_ENDPOINT_AUDIO_SIZE as usize);
    push_all(&mut package, &[1u8, 0u8, 0u8, 0u8]);
    let ep_descriptor = endpoint_descriptor(ep_num);
    ep_descriptor.write_to(&mut package);
    ep_descriptor.write_to(&mut package);
    proof {
        assert(seq![1u8, 0u8, 0u8, 0u8] =~= [1u8, 0u8, 0u8, 0u8]@);
    }
    package
}

fn write_endpoint_list(out: &mut Vec<u8>, eps_cnt: u8)
    ensures
        final(out)@ == old(out)@ + endpoint_list_bytes(eps_cnt as nat),
{
    let mut i: u8 = 0;
    while i < eps_cnt
        invariant
            i <= eps_cnt,
            out@ == old(out)@ + endpoint_list_bytes(i as nat),
        decreases eps_cnt - i,
    {
        i = i + 1;
        endpoint_descriptor(i).write_to(out);
        assert(out@ =~= old(out)@ + endpoint_list_bytes(i as nat));
    }
}

fn write_speed_block(out: &mut Vec<u8>, eps_cnt: u8, i_configuration: u8)
    ensures
        final(out)@ == old(out)@ + speed_block_bytes(eps_cnt, i_configuration),
{
    config_descriptor(eps_cnt, i_configuration).write_to(out);
    interface_descriptor(eps_cnt).write_to(out);
    write_endpoint_list(out, eps_cnt);
    assert(out@ =~= old(out)@ + speed_block_bytes(eps_cnt, i_configuration));
}

/// Builds the initial package for a gadget with `eps_cnt` bulk endpoints.
pub fn format_init_package(eps_cnt: u8) -> (r: Vec<u8>)
    ensures
        r@ == initial_package_spec(eps_cnt),
{
    let total_length = config_descriptor(eps_cnt, STRINGID_CONFIG_LS).total_length;
    let mut package: Vec<u8> = Vec::with_capacity(
        4 + 2 * total_length as usize + USB_DT_DEVICE_SIZE as usize,
    );
    push_all(&mut package, &[0u8, 0u8, 0u8, 0u8]);
    write_speed_block(&mut package, eps_cnt, STRINGID_CONFIG_LS);
    write_speed_block(&mut package, eps_cnt, STRINGID_CONFIG_HS);
    device_descriptor().write_to(&mut package);
    proof {
        assert(seq![0u8, 0u8, 0u8, 0u8] =~= [0u8, 0u8, 0u8, 0u8]@);
    }
    package
}

proof fn lemma_endpoint_list_len(n: nat)
    ensures
        endpoint_list_bytes(n).len() == USB_DT_ENDPOINT_SIZE * n,
    decreases n,
{
    if n > 0 {
        lemma_endpoint_list_len((n - 1) as nat);
    }
}

/// For every endpoint count, both configuration descriptors of the initial
/// package carry, as their little-endian total length, the configuration size
/// plus the interface size plus one endpoint descriptor size per endpoint; and
/// the package is a 4-byte tag, twice that total, and the device descriptor.
pub proof fn lemma_initial_package_layout(eps_cnt: u8)
    ensures
        ({
            let p = initial_package_spec(eps_cnt);
            let t = total_length_spec(eps_cnt);
            &&& t == USB_DT_CONFIG_SIZE + USB_DT_INTERFACE_SIZE + USB_DT_ENDPOINT_SIZE * eps_cnt
            &&& p.len() == 4 + 2 * t + USB_DT_DEVICE_SIZE
            &&& p[6] + 256 * p[7] == t
            &&& p[4 + t + 2] + 256 * p[4 + t + 3] == t
        }),
{
    let p = initial_package_spec(eps_cnt);
    let t = total_length_spec(eps_cnt);
    let ls = speed_block_bytes(eps_cnt, STRINGID_CONFIG_LS);
    let hs = speed_block_bytes(eps_cnt, STRINGID_CONFIG_HS);
    lemma_endpoint_list_len(eps_cnt as nat);
    assert(ls.len() == t);
    assert(hs.len() == t);
    let tl = t as u16;
    assert(p[6] == ls[2]);
    assert(p[7] == ls[3]);
    assert(p[4 + t + 2] == hs[2]);
    assert(p[4 + t + 3] == hs[3]);
    assert(ls[2] == (tl % 256) as u8 && ls[3] == (tl / 256) as u8);
    assert(hs[2] == (tl % 256) as u8 && hs[3] == (tl / 256) as u8);
}

/// For every endpoint number, the enable package is a 4-byte tag and the
/// endpoint descriptor twice without its two extension bytes, and both copies
/// carry the OUT direction bit OR'd with the endpoint number as address.
pub proof fn lemma_endpoint_package_layout(ep_num: u8)
    ensures
        ({
            let p = endpoint_package_spec(ep_num);
            &&& p.len() == 4 + 2 * (USB_DT_ENDPOINT_AUDIO_SIZE - 2)
            &&& p[6] == USB_DIR_OUT | ep_num
            &&& p[4 + USB_DT_ENDPOINT_SIZE as int + 2] == USB_DIR_OUT | ep_num
        }),
{
}

/// The builders are deterministic: equal inputs give byte-identical packages.
pub proof fn lemma_packages_deterministic(a: u8, b: u8)
    requires
        a == b,
    ensures
        initial_package_spec(a) == initial_package_spec(b),
        endpoint_package_spec(a) == endpoint_package_spec(b),
{
}

} // verus!
