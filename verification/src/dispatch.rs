//! Event dispatcher: routes each pending hardware event to the state
//! machine or the driver, in the FIFO order the hardware reports them. Any
//! error raised while handling an event is caught here and converted into a
//! stall outcome; no failure propagates out of the interrupt context.

use vstd::prelude::*;
use crate::Error;
use crate::descriptor::{DeviceIdentity, spec_configuration_response, spec_device_descriptor};
use crate::driver::{
    DriverModel, EP0_BUFFER_CAPACITY, Ep0In, spec_cancel, spec_complete, spec_start,
};
use crate::request::{classify, spec_classify, ControlRequest, DescriptorKind};
use crate::state::{DeviceState, Action, SpecAction, handle, spec_handle_action, spec_handle_state};

verus! {

/// The five raw header fields of the SETUP packet that initiated a control
/// transfer, as the peripheral exposes them.
#[derive(Clone, Copy, Debug, PartialEq, Eq, Structural)]
pub struct SetupHeader {
    /// bmRequestType.
    pub request_type: u8,
    /// bRequest.
    pub request_code: u8,
    /// wValue.
    pub value: u16,
    /// wIndex.
    pub index: u16,
    /// wLength, the most bytes the host will accept in the data stage.
    pub length: u16,
}

/// One pending event reported by the peripheral; consumed exactly once.
#[derive(Clone, Copy, Debug, PartialEq, Eq, Structural)]
pub enum HardwareEvent {
    /// A USB reset condition was detected on the bus.
    Reset,
    /// A SETUP packet arrived on the control endpoint.
    SetupReceived { header: SetupHeader },
    /// The data stage of the current control transfer finished.
    DataStageDone,
}

/// What handling one event asks of the surrounding hardware layer.
#[derive(Debug, PartialEq, Eq)]
pub enum DispatchOutcome {
    /// These bytes, already truncated to the host's requested length, were
    /// handed to the driver for transmission on EP0 IN.
    Transmit { bytes: Vec<u8> },
    /// The request was applied with no data stage; hardware handles the
    /// status stage.
    NoData,
    /// The endpoint must be put into a stalled condition.
    Stall { reason: Error },
    /// An in-flight transfer was closed out.
    TransferEnded,
    /// The device state was re-initialized and any transfer discarded.
    DeviceReset,
}

/// The mathematical shape of a `DispatchOutcome`.
pub enum SpecOutcome {
    Transmit { bytes: Seq<u8> },
    NoData,
    Stall { reason: Error },
    TransferEnded,
    DeviceReset,
}

impl View for DispatchOutcome {
    type V = SpecOutcome;

    open spec fn view(&self) -> SpecOutcome {
        match self {
            DispatchOutcome::Transmit { bytes } => SpecOutcome::Transmit { bytes: bytes@ },
            DispatchOutcome::NoData => SpecOutcome::NoData,
            DispatchOutcome::Stall { reason } => SpecOutcome::Stall { reason: *reason },
            DispatchOutcome::TransferEnded => SpecOutcome::TransferEnded,
            DispatchOutcome::DeviceReset => SpecOutcome::DeviceReset,
        }
    }
}

/// A response truncated to the host's requested length: the control
/// endpoint must never return more bytes than the host declared it will
/// accept, and returning fewer than the descriptor's natural length is
/// legal when the host is only probing.
pub open spec fn spec_truncated(bytes: Seq<u8>, truncate_to: u16) -> Seq<u8> {
    if bytes.len() <= truncate_to as int {
        bytes
    } else {
        bytes.take(truncate_to as int)
    }
}

/// Truncate a response to at most the host's requested length. The result
/// is the longest prefix of `bytes` of at most `truncate_to` bytes.
pub fn truncate_response(bytes: &Vec<u8>, truncate_to: u16) -> (r: Vec<u8>)
    ensures
        r@ == spec_truncated(bytes@, truncate_to),
{
    let n: usize = if (truncate_to as usize) < bytes.len() {
        truncate_to as usize
    } else {
        bytes.len()
    };
    let mut r: Vec<u8> = Vec::new();
    let mut i: usize = 0;
    while i < n
        invariant
            i <= n,
            n <= bytes@.len(),
            r@ == bytes@.take(i as int),
        decreases n - i,
    {
        r.push(bytes[i]);
        i = i + 1;
    }
    assert(r@ =~= spec_truncated(bytes@, truncate_to));
    r
}

/// How one event moves the whole core: the outcome handed back to the
/// hardware layer, the next device state, and the next driver model.
///
/// A reset re-initializes the state and discards any in-flight transfer.
/// A finished data stage completes the driver's transfer. A SETUP packet is
/// classified and decided: a malformed header stalls, a response is
/// truncated to the requested length and started on the driver (a start
/// refused because a transfer is still in flight stalls, leaving the driver
/// unchanged), and the other decisions pass through.
pub open spec fn spec_dispatch(
    event: HardwareEvent,
    state: DeviceState,
    m: DriverModel,
    id: DeviceIdentity,
) -> (SpecOutcome, DeviceState, DriverModel) {
    match event {
        HardwareEvent::Reset => (SpecOutcome::DeviceReset, DeviceState::Default, spec_cancel(m)),
        HardwareEvent::DataStageDone => (SpecOutcome::TransferEnded, state, spec_complete(m)),
        HardwareEvent::SetupReceived { header } => match spec_classify(
            header.request_type,
            header.request_code,
            header.value,
            header.index,
            header.length,
        ) {
            Err(e) => (SpecOutcome::Stall { reason: e }, state, m),
            Ok(request) => {
                let next = spec_handle_state(request, state);
                match spec_handle_action(request, state, id) {
                    SpecAction::Respond { bytes, truncate_to } => {
                        let sent = spec_truncated(bytes, truncate_to);
                        let (res, m2) = spec_start(m, sent);
                        match res {
                            Ok(_) => (SpecOutcome::Transmit { bytes: sent }, next, m2),
                            Err(e) => (SpecOutcome::Stall { reason: e }, next, m),
                        }
                    },
                    SpecAction::AcceptNoData => (SpecOutcome::NoData, next, m),
                    SpecAction::Stall { reason } => (SpecOutcome::Stall { reason }, next, m),
                }
            },
        },
    }
}

/// Route one hardware event. Every error is converted into a `Stall`
/// outcome; none propagates.
pub fn dispatch(
    event: &HardwareEvent,
    state: &mut DeviceState,
    driver: &mut Ep0In,
    id: &DeviceIdentity,
) -> (outcome: DispatchOutcome)
    requires
        old(state).wf(),
        id.wf(),
    ensures
        ({
            let (o, s2, m2) = spec_dispatch(*event, *old(state), old(driver)@, *id);
            &&& outcome@ == o
            &&& *final(state) == s2
            &&& final(driver)@ == m2
        }),
        final(state).wf(),
{
    match event {
        HardwareEvent::Reset => {
            *state = DeviceState::Default;
            driver.cancel();
            DispatchOutcome::DeviceReset
        },
        HardwareEvent::DataStageDone => {
            driver.complete();
            DispatchOutcome::TransferEnded
        },
        HardwareEvent::SetupReceived { header } => {
            match classify(
                header.request_type,
                header.request_code,
                header.value,
                header.index,
                header.length,
            ) {
                Err(e) => DispatchOutcome::Stall { reason: e },
                Ok(request) => {
                    let action = handle(&request, state, id);
                    match action {
                        Action::Respond { bytes, truncate_to } => {
                            let sent = truncate_response(&bytes, truncate_to);
                            assert(spec_device_descriptor(*id).len() == 18);
                            assert(spec_configuration_response(*id).len() == 18);
                            assert(sent@.len() <= EP0_BUFFER_CAPACITY);
                            match driver.start(sent.as_slice()) {
                                Ok(_) => DispatchOutcome::Transmit { bytes: sent },
                                Err(e) => DispatchOutcome::Stall { reason: e },
                            }
                        },
                        Action::AcceptNoData => DispatchOutcome::NoData,
                        Action::Stall { reason } => DispatchOutcome::Stall { reason },
                    }
                },
            }
        },
    }
}

/// How a whole FIFO queue of pending events moves the core: the events are
/// handled first to last, each from the state and driver model the previous
/// one left behind.
pub open spec fn spec_dispatch_seq(
    events: Seq<HardwareEvent>,
    state: DeviceState,
    m: DriverModel,
    id: DeviceIdentity,
) -> (Seq<SpecOutcome>, DeviceState, DriverModel)
    decreases events.len(),
{
    if events.len() == 0 {
        (Seq::<SpecOutcome>::empty(), state, m)
    } else {
        let (o, s1, m1) = spec_dispatch(events[0], state, m, id);
        let (rest, s2, m2) = spec_dispatch_seq(events.skip(1), s1, m1, id);
        (seq![o] + rest, s2, m2)
    }
}

/// The views of a sequence of outcomes.
pub open spec fn spec_outcomes(outcomes: Seq<DispatchOutcome>) -> Seq<SpecOutcome> {
    outcomes.map_values(|o: DispatchOutcome| o@)
}

/// Drain a queue of pending events in FIFO order, leaving none unseen, and
/// report each event's outcome in the same order.
pub fn dispatch_all(
    events: &Vec<HardwareEvent>,
    state: &mut DeviceState,
    driver: &mut Ep0In,
    id: &DeviceIdentity,
) -> (outcomes: Vec<DispatchOutcome>)
    requires
        old(state).wf(),
        id.wf(),
    ensures
        ({
            let (os, s2, m2) = spec_dispatch_seq(events@, *old(state), old(driver)@, *id);
            &&& spec_outcomes(outcomes@) == os
            &&& *final(state) == s2
            &&& final(driver)@ == m2
        }),
        final(state).wf(),
{
    let ghost target = spec_dispatch_seq(events@, *old(state), old(driver)@, *id);
    let mut outcomes: Vec<DispatchOutcome> = Vec::new();
    let mut i: usize = 0;
    proof {
        assert(events@.skip(0) =~= events@);
        assert(spec_outcomes(outcomes@) =~= Seq::<SpecOutcome>::empty());
        assert(spec_outcomes(outcomes@) + target.0 =~= target.0);
    }
    while i < events.len()
        invariant
            i <= events@.len(),
            state.wf(),
            id.wf(),
            ({
                let (os, s2, m2) = spec_dispatch_seq(events@.skip(i as int), *state, driver@, *id);
                &&& target.0 =~= spec_outcomes(outcomes@) + os
                &&& target.1 == s2
                &&& target.2 == m2
            }),
        decreases events@.len() - i,
    {
        let ghost pre_state = *state;
        let ghost pre_model = (*driver)@;
        let ghost suffix = events@.skip(i as int);
        let outcome = dispatch(&events[i], state, driver, id);
        proof {
            assert(suffix[0] == events@[i as int]);
            assert(suffix.skip(1) =~= events@.skip(i as int + 1));
            let (o0, s1, m1) = spec_dispatch(suffix[0], pre_state, pre_model, *id);
            let (rest, s2, m2) = spec_dispatch_seq(suffix.skip(1), s1, m1, *id);
            assert(spec_outcomes(outcomes@.push(outcome)) =~= spec_outcomes(outcomes@).push(o0));
            assert(spec_outcomes(outcomes@) + (seq![o0] + rest) =~= spec_outcomes(
                outcomes@.push(outcome),
            ) + rest);
        }
        outcomes.push(outcome);
        i = i + 1;
    }
    assert(events@.skip(i as int) =~= Seq::<HardwareEvent>::empty());
    assert(spec_outcomes(outcomes@) =~= target.0);
    outcomes
}

/// In every state, GET_DESCRIPTOR(Device) responds with exactly the device
/// descriptor's canonical bytes, leaves the state unchanged, and for every
/// requested length the transmitted bytes are the first `min(18, len)`
/// bytes of that encoding: never more than the host asked for.
pub proof fn lemma_device_descriptor_response(id: DeviceIdentity, state: DeviceState, len: u16)
    ensures
        spec_handle_action(
            ControlRequest::GetDescriptor {
                kind: DescriptorKind::Device,
                requested_length: len,
            },
            state,
            id,
        ) == (SpecAction::Respond { bytes: spec_device_descriptor(id), truncate_to: len }),
        spec_handle_state(
            ControlRequest::GetDescriptor {
                kind: DescriptorKind::Device,
                requested_length: len,
            },
            state,
        ) == state,
        spec_truncated(spec_device_descriptor(id), len).len() == if len < 18 {
            len as int
        } else {
            18
        },
        forall|j: int|
            0 <= j < spec_truncated(spec_device_descriptor(id), len).len()
                ==> spec_truncated(spec_device_descriptor(id), len)[j] == spec_device_descriptor(
                id,
            )[j],
{
}

/// In every state, GET_DESCRIPTOR(Configuration, index 0) responds with
/// exactly the 18-byte configuration response, leaves the state unchanged,
/// and for every requested length the transmitted bytes are its first
/// `min(18, len)` bytes.
pub proof fn lemma_configuration_response(id: DeviceIdentity, state: DeviceState, len: u16)
    ensures
        spec_handle_action(
            ControlRequest::GetDescriptor {
                kind: DescriptorKind::Configuration { index: 0 },
                requested_length: len,
            },
            state,
            id,
        ) == (SpecAction::Respond { bytes: spec_configuration_response(id), truncate_to: len }),
        spec_handle_state(
            ControlRequest::GetDescriptor {
                kind: DescriptorKind::Configuration { index: 0 },
                requested_length: len,
            },
            state,
        ) == state,
        spec_truncated(spec_configuration_response(id), len).len() == if len < 18 {
            len as int
        } else {
            18
        },
        forall|j: int|
            0 <= j < spec_truncated(spec_configuration_response(id), len).len()
                ==> spec_truncated(spec_configuration_response(id), len)[j]
                == spec_configuration_response(id)[j],
{
}

/// A reset is idempotent: issued while the device is already in `Default`
/// with no transfer in flight, it leaves the device state at `Default` and
/// the driver exactly as it was, and raises no error.
pub proof fn lemma_reset_idempotent(m: DriverModel, id: DeviceIdentity)
    requires
        !m.in_flight,
    ensures
        spec_dispatch(HardwareEvent::Reset, DeviceState::Default, m, id) == (
            SpecOutcome::DeviceReset,
            DeviceState::Default,
            m,
        ),
{
    assert(spec_cancel(m) =~= m);
}

} // verus!
