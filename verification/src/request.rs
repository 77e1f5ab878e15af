//! Request classifier: turns the five raw SETUP-packet header fields into a
//! typed standard request, or rejects the header as malformed.

use vstd::prelude::*;
use crate::Error;

verus! {

/// Which descriptor a `GetDescriptor` request asks for.
#[derive(Clone, Copy, Debug, PartialEq, Eq, Structural)]
pub enum DescriptorKind {
    /// The single device descriptor.
    Device,
    /// A configuration descriptor, selected by its zero-based index.
    Configuration { index: u8 },
    /// A descriptor of some other type; recognized but not served here.
    Other { descriptor_type: u8, index: u8 },
}

/// A classified standard control request.
#[derive(Clone, Copy, Debug, PartialEq, Eq, Structural)]
pub enum ControlRequest {
    /// GET_DESCRIPTOR: the host asks for at most `requested_length` bytes of
    /// the chosen descriptor.
    GetDescriptor { kind: DescriptorKind, requested_length: u16 },
    /// SET_ADDRESS: `None` means address zero, i.e. return to the default
    /// address; `Some(a)` carries a 7-bit nonzero address.
    SetAddress { address: Option<u8> },
    /// Any other well-formed request; unsupported by this core.
    Other,
}

impl ControlRequest {
    /// A classified request always carries a 7-bit nonzero address when it
    /// carries one at all.
    pub open spec fn wf(&self) -> bool {
        match self {
            ControlRequest::SetAddress { address: Some(a) } => 1 <= *a <= 127,
            _ => true,
        }
    }
}

/// Low byte of a 16-bit field.
pub open spec fn low_byte(w: u16) -> u8 {
    (w % 256) as u8
}

/// High byte of a 16-bit field.
pub open spec fn high_byte(w: u16) -> u8 {
    (w / 256) as u8
}

/// The classification relation, field for field.
///
/// GET_DESCRIPTOR (request code 6) must carry the device-to-host standard
/// request-type byte 0x80; the descriptor type sits in the high byte of
/// wValue and the descriptor index in its low byte. A device descriptor has
/// exactly one instance, so a nonzero index (a reserved index) or a nonzero
/// wIndex is rejected. A configuration descriptor may be asked for at any
/// index; wIndex must be zero. Any other descriptor type keeps its raw type
/// and index and is left for the state machine to refuse.
///
/// SET_ADDRESS (request code 5) must carry the host-to-device standard
/// request-type byte 0x00, an address of at most 127 in wValue, and zero
/// wIndex and wLength; address zero means "return to the default address"
/// and is carried as `None`.
///
/// Every other request code is bucketed as `Other`.
pub open spec fn spec_classify(
    request_type: u8,
    request_code: u8,
    value: u16,
    index: u16,
    length: u16,
) -> Result<ControlRequest, Error> {
    if request_code == 6 {
        if request_type != 0x80 {
            Err(Error::MalformedHeader)
        } else {
            let descriptor_type = high_byte(value);
            let descriptor_index = low_byte(value);
            if descriptor_type == 1 {
                if descriptor_index == 0 && index == 0 {
                    Ok(ControlRequest::GetDescriptor {
                        kind: DescriptorKind::Device,
                        requested_length: length,
                    })
                } else {
                    Err(Error::MalformedHeader)
                }
            } else if descriptor_type == 2 {
                if index == 0 {
                    Ok(ControlRequest::GetDescriptor {
                        kind: DescriptorKind::Configuration { index: descriptor_index },
                        requested_length: length,
                    })
                } else {
                    Err(Error::MalformedHeader)
                }
            } else {
                Ok(ControlRequest::GetDescriptor {
                    kind: DescriptorKind::Other { descriptor_type, index: descriptor_index },
                    requested_length: length,
                })
            }
        }
    } else if request_code == 5 {
        if request_type != 0x00 {
            Err(Error::MalformedHeader)
        } else if value > 127 || index != 0 || length != 0 {
            Err(Error::MalformedHeader)
        } else if value == 0 {
            Ok(ControlRequest::SetAddress { address: None })
        } else {
            Ok(ControlRequest::SetAddress { address: Some(value as u8) })
        }
    } else {
        Ok(ControlRequest::Other)
    }
}

/// Classify the five raw SETUP header fields. Side-effect free.
pub fn classify(
    request_type: u8,
    request_code: u8,
    value: u16,
    index: u16,
    length: u16,
) -> (r: Result<ControlRequest, Error>)
    ensures
        r == spec_classify(request_type, request_code, value, index, length),
        r matches Ok(req) ==> req.wf(),
{
    if request_code == 6 {
        if request_type != 0x80 {
            Err(Error::MalformedHeader)
        } else {
            let descriptor_type: u8 = (value / 256) as u8;
            let descriptor_index: u8 = (value % 256) as u8;
            if descriptor_type == 1 {
                if descriptor_index == 0 && index == 0 {
                    Ok(ControlRequest::GetDescriptor {
                        kind: DescriptorKind::Device,
                        requested_length: length,
                    })
                } else {
                    Err(Error::MalformedHeader)
                }
            } else if descriptor_type == 2 {
                if index == 0 {
                    Ok(ControlRequest::GetDescriptor {
                        kind: DescriptorKind::Configuration { index: descriptor_index },
                        requested_length: length,
                    })
                } else {
                    Err(Error::MalformedHeader)
                }
            } else {
                Ok(ControlRequest::GetDescriptor {
                    kind: DescriptorKind::Other {
                        descriptor_type,
                        index: descriptor_index,
                    },
                    requested_length: length,
                })
            }
        }
    } else if request_code == 5 {
        if request_type != 0x00 {
            Err(Error::MalformedHeader)
        } else if value > 127 || index != 0 || length != 0 {
            Err(Error::MalformedHeader)
        } else if value == 0 {
            Ok(ControlRequest::SetAddress { address: None })
        } else {
            Ok(ControlRequest::SetAddress { address: Some(value as u8) })
        }
    } else {
        Ok(ControlRequest::Other)
    }
}

} // verus!
