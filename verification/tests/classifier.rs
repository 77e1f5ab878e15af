use usb_ep0::Error;
use usb_ep0::request::{classify, ControlRequest, DescriptorKind};

#[test]
fn get_descriptor_device_classifies() {
    let r = classify(0x80, 6, 0x0100, 0, 18);
    assert_eq!(
        r,
        Ok(ControlRequest::GetDescriptor { kind: DescriptorKind::Device, requested_length: 18 })
    );
}

#[test]
fn get_descriptor_configuration_classifies() {
    let r = classify(0x80, 6, 0x0200, 0, 255);
    assert_eq!(
        r,
        Ok(ControlRequest::GetDescriptor {
            kind: DescriptorKind::Configuration { index: 0 },
            requested_length: 255
        })
    );
}

#[test]
fn get_descriptor_configuration_keeps_index() {
    let r = classify(0x80, 6, 0x0203, 0, 9);
    assert_eq!(
        r,
        Ok(ControlRequest::GetDescriptor {
            kind: DescriptorKind::Configuration { index: 3 },
            requested_length: 9
        })
    );
}

#[test]
fn get_descriptor_string_is_other_kind() {
    let r = classify(0x80, 6, 0x0301, 0x0409, 255);
    assert_eq!(
        r,
        Ok(ControlRequest::GetDescriptor {
            kind: DescriptorKind::Other { descriptor_type: 3, index: 1 },
            requested_length: 255
        })
    );
}

#[test]
fn get_descriptor_wrong_direction_is_malformed() {
    assert_eq!(classify(0x00, 6, 0x0100, 0, 18), Err(Error::MalformedHeader));
}

#[test]
fn get_descriptor_device_reserved_index_is_malformed() {
    assert_eq!(classify(0x80, 6, 0x0101, 0, 18), Err(Error::MalformedHeader));
}

#[test]
fn get_descriptor_device_nonzero_windex_is_malformed() {
    assert_eq!(classify(0x80, 6, 0x0100, 1, 18), Err(Error::MalformedHeader));
}

#[test]
fn get_descriptor_configuration_nonzero_windex_is_malformed() {
    assert_eq!(classify(0x80, 6, 0x0200, 7, 9), Err(Error::MalformedHeader));
}

#[test]
fn set_address_classifies() {
    let r = classify(0x00, 5, 5, 0, 0);
    assert_eq!(r, Ok(ControlRequest::SetAddress { address: Some(5) }));
}

#[test]
fn set_address_zero_means_default() {
    let r = classify(0x00, 5, 0, 0, 0);
    assert_eq!(r, Ok(ControlRequest::SetAddress { address: None }));
}

#[test]
fn set_address_over_seven_bits_is_malformed() {
    assert_eq!(classify(0x00, 5, 128, 0, 0), Err(Error::MalformedHeader));
}

#[test]
fn set_address_nonzero_windex_is_malformed() {
    assert_eq!(classify(0x00, 5, 5, 1, 0), Err(Error::MalformedHeader));
}

#[test]
fn set_address_nonzero_wlength_is_malformed() {
    assert_eq!(classify(0x00, 5, 5, 0, 2), Err(Error::MalformedHeader));
}

#[test]
fn set_address_wrong_direction_is_malformed() {
    assert_eq!(classify(0x80, 5, 5, 0, 0), Err(Error::MalformedHeader));
}

#[test]
fn unknown_request_code_is_other() {
    // SET_CONFIGURATION is recognized protocol-wide but unsupported here.
    assert_eq!(classify(0x00, 9, 1, 0, 0), Ok(ControlRequest::Other));
}

#[test]
fn garbage_header_is_other_bucket() {
    assert_eq!(classify(0xff, 0xff, 0xffff, 0xffff, 0xffff), Ok(ControlRequest::Other));
}
