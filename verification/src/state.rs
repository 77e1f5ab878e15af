//! Enumeration state machine: the sole owner and mutator of the device
//! state. Given a classified request it decides, per the enumeration
//! decision table, whether to respond with descriptor bytes, to accept a
//! no-data request silently, or to stall the endpoint.

use vstd::prelude::*;
use crate::Error;
use crate::descriptor::{
    DeviceIdentity, configuration_response_bytes, device_descriptor_bytes,
    spec_configuration_response, spec_device_descriptor,
};
use crate::request::{ControlRequest, DescriptorKind};

verus! {

/// The protocol's authoritative device state. Created in `Default` at
/// controller reset; re-initialized to `Default` on a USB reset signal.
#[derive(Clone, Copy, Debug, PartialEq, Eq, Structural)]
pub enum DeviceState {
    /// No address assigned yet.
    Default,
    /// The host assigned a 7-bit nonzero address.
    Addressed { address: u8 },
    /// A configuration with the given nonzero value was selected.
    Configured { value: u8 },
}

impl DeviceState {
    /// A USB device address is a 7-bit nonzero value, and a selected
    /// configuration value is nonzero (zero means "unconfigured").
    pub open spec fn wf(&self) -> bool {
        match self {
            DeviceState::Default => true,
            DeviceState::Addressed { address } => 1 <= *address <= 127,
            DeviceState::Configured { value } => *value != 0,
        }
    }
}

/// What the state machine decides for one request.
#[derive(Debug, PartialEq, Eq)]
pub enum Action {
    /// Transmit the descriptor bytes on EP0 IN, truncated to at most the
    /// host's requested length.
    Respond { bytes: Vec<u8>, truncate_to: u16 },
    /// The request was applied silently; the status stage is handled by
    /// hardware.
    AcceptNoData,
    /// Signal a protocol error by stalling the endpoint.
    Stall { reason: Error },
}

/// The mathematical shape of an `Action`, with the payload as a byte
/// sequence.
pub enum SpecAction {
    Respond { bytes: Seq<u8>, truncate_to: u16 },
    AcceptNoData,
    Stall { reason: Error },
}

impl View for Action {
    type V = SpecAction;

    open spec fn view(&self) -> SpecAction {
        match self {
            Action::Respond { bytes, truncate_to } => SpecAction::Respond {
                bytes: bytes@,
                truncate_to: *truncate_to,
            },
            Action::AcceptNoData => SpecAction::AcceptNoData,
            Action::Stall { reason } => SpecAction::Stall { reason: *reason },
        }
    }
}

/// The decision table's action column.
///
/// Any state: GET_DESCRIPTOR(Device) responds with the device descriptor
/// and GET_DESCRIPTOR(Configuration, index 0) with the configuration
/// response, each truncated downstream to the requested length; any other
/// descriptor index or kind stalls as unsupported. SET_ADDRESS is accepted
/// with no data stage from `Default` and `Addressed`, and stalls as an
/// invalid transition while `Configured` (behavior the protocol leaves
/// undefined; stalling is the conservative choice). Anything else stalls as
/// unsupported.
pub open spec fn spec_handle_action(
    request: ControlRequest,
    state: DeviceState,
    id: DeviceIdentity,
) -> SpecAction {
    match request {
        ControlRequest::GetDescriptor { kind, requested_length } => match kind {
            DescriptorKind::Device => SpecAction::Respond {
                bytes: spec_device_descriptor(id),
                truncate_to: requested_length,
            },
            DescriptorKind::Configuration { index } => if index == 0 {
                SpecAction::Respond {
                    bytes: spec_configuration_response(id),
                    truncate_to: requested_length,
                }
            } else {
                SpecAction::Stall { reason: Error::UnsupportedRequest }
            },
            DescriptorKind::Other { .. } => SpecAction::Stall {
                reason: Error::UnsupportedRequest,
            },
        },
        ControlRequest::SetAddress { address: _ } => match state {
            DeviceState::Configured { .. } => SpecAction::Stall {
                reason: Error::InvalidStateTransition,
            },
            _ => SpecAction::AcceptNoData,
        },
        ControlRequest::Other => SpecAction::Stall { reason: Error::UnsupportedRequest },
    }
}

/// The decision table's state column. Only SET_ADDRESS moves the state:
/// a new address (re)enters `Addressed`, address zero returns `Addressed`
/// to `Default` and leaves `Default` where it is, and `Configured` is never
/// exited by this request. Every other request leaves the state unchanged.
pub open spec fn spec_handle_state(request: ControlRequest, state: DeviceState) -> DeviceState {
    match request {
        ControlRequest::SetAddress { address } => match state {
            DeviceState::Default | DeviceState::Addressed { .. } => match address {
                Some(a) => DeviceState::Addressed { address: a },
                None => DeviceState::Default,
            },
            DeviceState::Configured { .. } => state,
        },
        _ => state,
    }
}

/// Decide one classified request: return the action of the decision table
/// and advance the device state by its state column.
pub fn handle(request: &ControlRequest, state: &mut DeviceState, id: &DeviceIdentity) -> (action:
    Action)
    requires
        old(state).wf(),
        request.wf(),
        id.wf(),
    ensures
        action@ == spec_handle_action(*request, *old(state), *id),
        *final(state) == spec_handle_state(*request, *old(state)),
        final(state).wf(),
{
    match request {
        ControlRequest::GetDescriptor { kind, requested_length } => match kind {
            DescriptorKind::Device => Action::Respond {
                bytes: device_descriptor_bytes(id),
                truncate_to: *requested_length,
            },
            DescriptorKind::Configuration { index } => if *index == 0 {
                Action::Respond {
                    bytes: configuration_response_bytes(id),
                    truncate_to: *requested_length,
                }
            } else {
                Action::Stall { reason: Error::UnsupportedRequest }
            },
            DescriptorKind::Other { .. } => Action::Stall { reason: Error::UnsupportedRequest },
        },
        ControlRequest::SetAddress { address } => match state {
            DeviceState::Configured { .. } => Action::Stall {
                reason: Error::InvalidStateTransition,
            },
            _ => {
                match address {
                    Some(a) => {
                        *state = DeviceState::Addressed { address: *a };
                    },
                    None => {
                        *state = DeviceState::Default;
                    },
                }
                Action::AcceptNoData
            },
        },
        ControlRequest::Other => Action::Stall { reason: Error::UnsupportedRequest },
    }
}

/// Assigning an address and then clearing it round-trips: SET_ADDRESS with
/// a nonzero address moves `Default` to `Addressed`, and SET_ADDRESS with
/// address zero moves that `Addressed` state back to `Default`.
pub proof fn lemma_set_address_round_trip(a: u8)
    ensures
        spec_handle_state(
            ControlRequest::SetAddress { address: Some(a) },
            DeviceState::Default,
        ) == (DeviceState::Addressed { address: a }),
        spec_handle_state(
            ControlRequest::SetAddress { address: None },
            DeviceState::Addressed { address: a },
        ) == DeviceState::Default,
{
}

/// While `Configured`, every SET_ADDRESS request stalls as an invalid
/// transition and leaves the state unchanged: `Configured` is never exited
/// by this request.
pub proof fn lemma_configured_set_address_stalls(
    value: u8,
    address: Option<u8>,
    id: DeviceIdentity,
)
    ensures
        spec_handle_action(
            ControlRequest::SetAddress { address },
            DeviceState::Configured { value },
            id,
        ) == (SpecAction::Stall { reason: Error::InvalidStateTransition }),
        spec_handle_state(
            ControlRequest::SetAddress { address },
            DeviceState::Configured { value },
        ) == (DeviceState::Configured { value }),
{
}

} // verus!
