//! Descriptor builder: canonical byte encodings of the device descriptor and
//! of the configuration descriptor with its one embedded interface
//! descriptor, built from the static device identity constants.

use vstd::prelude::*;
use crate::buffer::{
    response_buffer_bytes, response_buffer_extend, response_buffer_new, response_buffer_to_vec,
};
use crate::request::{high_byte, low_byte};

verus! {

/// Compile-time device identity, supplied by the surrounding application.
#[derive(Clone, Copy, Debug, PartialEq, Eq, Structural)]
pub struct DeviceIdentity {
    /// idVendor.
    pub vendor_id: u16,
    /// idProduct.
    pub product_id: u16,
    /// bcdDevice, the device release number in binary-coded decimal.
    pub device_release: u16,
    /// bMaxPacketSize0 for endpoint 0.
    pub max_packet_size: u8,
    /// bConfigurationValue of the single configuration; zero is reserved to
    /// mean "unconfigured", so it must be nonzero.
    pub configuration_value: u8,
    /// bMaxPower, the power budget in units of 2 mA.
    pub max_power: u8,
}

impl DeviceIdentity {
    /// The protocol's constraints on the identity constants: a control
    /// endpoint's packet size is one of 8, 16, 32 or 64 bytes, and the
    /// configuration value is nonzero.
    pub open spec fn wf(&self) -> bool {
        &&& self.configuration_value != 0
        &&& (self.max_packet_size == 8 || self.max_packet_size == 16 || self.max_packet_size
            == 32 || self.max_packet_size == 64)
    }
}

/// The fixed 18-byte device descriptor encoding: length, type 1 (device),
/// bcdUSB 2.00, class/subclass/protocol 0 (interface-level classing), the
/// EP0 packet size, vendor and product ids and the release number in
/// little-endian order, no string descriptors, and exactly one
/// configuration.
pub open spec fn spec_device_descriptor(id: DeviceIdentity) -> Seq<u8> {
    seq![
        18u8,
        1u8,
        0x00u8,
        0x02u8,
        0u8,
        0u8,
        0u8,
        id.max_packet_size,
        low_byte(id.vendor_id),
        high_byte(id.vendor_id),
        low_byte(id.product_id),
        high_byte(id.product_id),
        low_byte(id.device_release),
        high_byte(id.device_release),
        0u8,
        0u8,
        0u8,
        1u8,
    ]
}

/// The 9-byte configuration descriptor encoding: length, type 2
/// (configuration), wTotalLength 18 (itself plus one interface descriptor)
/// in little-endian order, exactly one interface, the nonzero configuration
/// value, no string descriptor, bus-powered attributes (only the reserved
/// bit set; neither self-powered nor remote wakeup), and the power budget.
pub open spec fn spec_configuration_descriptor(id: DeviceIdentity) -> Seq<u8> {
    seq![9u8, 2u8, 18u8, 0u8, 1u8, id.configuration_value, 0u8, 0x80u8, id.max_power]
}

/// The 9-byte interface descriptor encoding: length, type 4 (interface),
/// interface number 0, alternate setting 0, no endpoints besides control,
/// class/subclass/protocol 0, no string descriptor.
pub open spec fn spec_interface_descriptor() -> Seq<u8> {
    seq![9u8, 4u8, 0u8, 0u8, 0u8, 0u8, 0u8, 0u8, 0u8]
}

/// The full GET_DESCRIPTOR(Configuration) response: the configuration
/// descriptor followed by its one interface descriptor, 18 bytes in all.
pub open spec fn spec_configuration_response(id: DeviceIdentity) -> Seq<u8> {
    spec_configuration_descriptor(id) + spec_interface_descriptor()
}

/// The device descriptor's natural length is 18 bytes, and it declares
/// exactly one configuration.
pub proof fn lemma_device_descriptor_shape(id: DeviceIdentity)
    ensures
        spec_device_descriptor(id).len() == 18,
        spec_device_descriptor(id)[17] == 1u8,
{
}

/// The configuration response is 18 bytes (a 9-byte configuration
/// descriptor followed by a 9-byte interface descriptor), declares exactly
/// one interface, and carries the nonzero configuration value.
pub proof fn lemma_configuration_response_shape(id: DeviceIdentity)
    requires
        id.wf(),
    ensures
        spec_configuration_response(id).len() == 18,
        spec_configuration_response(id)[4] == 1u8,
        spec_configuration_response(id)[5] == id.configuration_value,
        spec_configuration_response(id)[5] != 0u8,
{
}

/// Build the device descriptor's canonical 18-byte encoding.
pub fn device_descriptor_bytes(id: &DeviceIdentity) -> (r: Vec<u8>)
    ensures
        r@ == spec_device_descriptor(*id),
{
    let mut v: Vec<u8> = Vec::new();
    v.push(18);
    v.push(1);
    v.push(0x00);
    v.push(0x02);
    v.push(0);
    v.push(0);
    v.push(0);
    v.push(id.max_packet_size);
    v.push((id.vendor_id % 256) as u8);
    v.push((id.vendor_id / 256) as u8);
    v.push((id.product_id % 256) as u8);
    v.push((id.product_id / 256) as u8);
    v.push((id.device_release % 256) as u8);
    v.push((id.device_release / 256) as u8);
    v.push(0);
    v.push(0);
    v.push(0);
    v.push(1);
    assert(v@ =~= spec_device_descriptor(*id));
    v
}

/// Build the configuration descriptor's canonical 9-byte encoding.
pub fn configuration_descriptor_bytes(id: &DeviceIdentity) -> (r: Vec<u8>)
    ensures
        r@ == spec_configuration_descriptor(*id),
{
    let mut v: Vec<u8> = Vec::new();
    v.push(9);
    v.push(2);
    v.push(18);
    v.push(0);
    v.push(1);
    v.push(id.configuration_value);
    v.push(0);
    v.push(0x80);
    v.push(id.max_power);
    assert(v@ =~= spec_configuration_descriptor(*id));
    v
}

/// Build the interface descriptor's canonical 9-byte encoding.
pub fn interface_descriptor_bytes() -> (r: Vec<u8>)
    ensures
        r@ == spec_interface_descriptor(),
{
    let mut v: Vec<u8> = Vec::new();
    v.push(9);
    v.push(4);
    v.push(0);
    v.push(0);
    v.push(0);
    v.push(0);
    v.push(0);
    v.push(0);
    v.push(0);
    assert(v@ =~= spec_interface_descriptor());
    v
}

/// Build the full configuration response: configuration descriptor plus
/// interface descriptor, assembled in a fixed-capacity stack buffer (the
/// encoded bytes always fit its 64-byte bound, so assembly cannot fail).
pub fn configuration_response_bytes(id: &DeviceIdentity) -> (r: Vec<u8>)
    ensures
        r@ == spec_configuration_response(*id),
{
    let config = configuration_descriptor_bytes(id);
    let iface = interface_descriptor_bytes();
    let mut buf = response_buffer_new();
    let first = response_buffer_extend(&mut buf, config.as_slice());
    assert(first is Ok);
    let second = response_buffer_extend(&mut buf, iface.as_slice());
    assert(second is Ok);
    let r = response_buffer_to_vec(&buf);
    assert(r@ =~= spec_configuration_response(*id));
    r
}

} // verus!
