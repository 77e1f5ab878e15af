use usb_ep0::descriptor::{
    configuration_descriptor_bytes, configuration_response_bytes, device_descriptor_bytes,
    interface_descriptor_bytes, DeviceIdentity,
};
use usb_ep0::dispatch::truncate_response;
use usb_ep0::request::{ControlRequest, DescriptorKind};
use usb_ep0::state::{handle, Action, DeviceState};

fn identity() -> DeviceIdentity {
    DeviceIdentity {
        vendor_id: 0x1209,
        product_id: 0x0717,
        device_release: 0x0100,
        max_packet_size: 64,
        configuration_value: 42,
        max_power: 250,
    }
}

const DEVICE_DESCRIPTOR: [u8; 18] = [
    18, 1, 0x00, 0x02, 0, 0, 0, 64, 0x09, 0x12, 0x17, 0x07, 0x00, 0x01, 0, 0, 0, 1,
];

const CONFIGURATION_RESPONSE: [u8; 18] = [
    9, 2, 18, 0, 1, 42, 0, 0x80, 250, 9, 4, 0, 0, 0, 0, 0, 0, 0,
];

#[test]
fn device_descriptor_exact_bytes() {
    let bytes = device_descriptor_bytes(&identity());
    assert_eq!(bytes.as_slice(), &DEVICE_DESCRIPTOR);
}

#[test]
fn configuration_descriptor_exact_bytes() {
    let bytes = configuration_descriptor_bytes(&identity());
    assert_eq!(bytes.as_slice(), &CONFIGURATION_RESPONSE[..9]);
}

#[test]
fn interface_descriptor_exact_bytes() {
    let bytes = interface_descriptor_bytes();
    assert_eq!(bytes.as_slice(), &CONFIGURATION_RESPONSE[9..]);
}

#[test]
fn configuration_response_exact_bytes() {
    let bytes = configuration_response_bytes(&identity());
    assert_eq!(bytes.as_slice(), &CONFIGURATION_RESPONSE);
}

#[test]
fn configuration_response_declares_one_interface_and_nonzero_value() {
    let bytes = configuration_response_bytes(&identity());
    assert_eq!(bytes.len(), 18);
    assert_eq!(bytes[4], 1); // bNumInterfaces
    assert_ne!(bytes[5], 0); // bConfigurationValue
}

#[test]
fn device_descriptor_truncates_to_requested_length() {
    let id = identity();
    for len in [0u16, 1, 17, 18, 64] {
        let mut state = DeviceState::Default;
        let request = ControlRequest::GetDescriptor {
            kind: DescriptorKind::Device,
            requested_length: len,
        };
        match handle(&request, &mut state, &id) {
            Action::Respond { bytes, truncate_to } => {
                assert_eq!(truncate_to, len);
                let sent = truncate_response(&bytes, truncate_to);
                let expected = (len as usize).min(18);
                assert_eq!(sent.len(), expected);
                assert_eq!(sent.as_slice(), &DEVICE_DESCRIPTOR[..expected]);
            }
            other => panic!("expected a response, got {:?}", other),
        }
        assert_eq!(state, DeviceState::Default);
    }
}

#[test]
fn configuration_response_truncates_to_requested_length() {
    let id = identity();
    for len in [0u16, 1, 8, 9, 17, 18, 64, 255] {
        let mut state = DeviceState::Addressed { address: 9 };
        let request = ControlRequest::GetDescriptor {
            kind: DescriptorKind::Configuration { index: 0 },
            requested_length: len,
        };
        match handle(&request, &mut state, &id) {
            Action::Respond { bytes, truncate_to } => {
                assert_eq!(truncate_to, len);
                let sent = truncate_response(&bytes, truncate_to);
                let expected = (len as usize).min(18);
                assert_eq!(sent.len(), expected);
                assert_eq!(sent.as_slice(), &CONFIGURATION_RESPONSE[..expected]);
            }
            other => panic!("expected a response, got {:?}", other),
        }
        assert_eq!(state, DeviceState::Addressed { address: 9 });
    }
}
