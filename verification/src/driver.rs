//! Control transfer driver: owns the EP0 IN channel model. It starts a
//! bounded-length transmission, completes it on the data-done event, can be
//! cancelled by a reset, and keeps a log of the operations it performed so
//! that their order is observable.

use vstd::prelude::*;
use crate::Error;

verus! {

/// Capacity of the EP0 IN hardware buffer, in bytes.
pub const EP0_BUFFER_CAPACITY: usize = 64;

/// One recorded driver operation.
#[derive(Clone, Copy, Debug, PartialEq, Eq, Structural)]
pub enum DriverOp {
    /// A transmission of `len` bytes was started.
    Start { len: usize },
    /// An in-flight transmission was completed.
    Complete,
}

/// The mathematical model of the driver: whether a transfer is in flight,
/// the bytes of the last started transfer (the driver's own copy), and the
/// log of performed operations.
#[verifier::ext_equal]
pub struct DriverModel {
    pub in_flight: bool,
    pub buffer: Seq<u8>,
    pub log: Seq<DriverOp>,
}

/// What `start` returns and how it moves the model: a second start while a
/// transfer is in flight fails and changes nothing; otherwise the bytes are
/// copied in, the transfer is marked in flight, and the start is logged.
pub open spec fn spec_start(m: DriverModel, bytes: Seq<u8>) -> (Result<(), Error>, DriverModel) {
    if m.in_flight {
        (Err(Error::TransferAlreadyInFlight), m)
    } else {
        (
            Ok(()),
            DriverModel {
                in_flight: true,
                buffer: bytes,
                log: m.log.push(DriverOp::Start { len: bytes.len() as usize }),
            },
        )
    }
}

/// How `complete` moves the model: it clears the in-flight marker and logs
/// the completion, and is a no-op when nothing is in flight.
pub open spec fn spec_complete(m: DriverModel) -> DriverModel {
    if m.in_flight {
        DriverModel { in_flight: false, log: m.log.push(DriverOp::Complete), ..m }
    } else {
        m
    }
}

/// How `cancel` moves the model: any in-flight transfer is discarded
/// without being logged as completed.
pub open spec fn spec_cancel(m: DriverModel) -> DriverModel {
    DriverModel { in_flight: false, ..m }
}

/// The EP0 IN control transfer driver.
pub struct Ep0In {
    in_flight: bool,
    buffer: Vec<u8>,
    log: Vec<DriverOp>,
}

impl View for Ep0In {
    type V = DriverModel;

    closed spec fn view(&self) -> DriverModel {
        DriverModel { in_flight: self.in_flight, buffer: self.buffer@, log: self.log@ }
    }
}

impl Ep0In {
    /// A fresh driver: nothing in flight, nothing buffered, nothing logged.
    pub fn new() -> (r: Ep0In)
        ensures
            !r@.in_flight,
            r@.buffer == Seq::<u8>::empty(),
            r@.log == Seq::<DriverOp>::empty(),
    {
        Ep0In { in_flight: false, buffer: Vec::new(), log: Vec::new() }
    }

    /// Whether a transfer is currently in flight.
    pub fn in_flight(&self) -> (r: bool)
        ensures
            r == self@.in_flight,
    {
        self.in_flight
    }

    /// The driver's copy of the last started transfer's bytes.
    pub fn buffered(&self) -> (r: &Vec<u8>)
        ensures
            r@ == self@.buffer,
    {
        &self.buffer
    }

    /// The log of performed operations, oldest first.
    pub fn ops(&self) -> (r: &Vec<DriverOp>)
        ensures
            r@ == self@.log,
    {
        &self.log
    }

    /// Begin transmitting `bytes` on EP0 IN. The bytes are copied before the
    /// call returns, so the caller's buffer is not referenced afterwards.
    /// Fails with `TransferAlreadyInFlight`, changing nothing, if a previous
    /// transfer has not completed.
    pub fn start(&mut self, bytes: &[u8]) -> (r: Result<(), Error>)
        requires
            bytes@.len() <= EP0_BUFFER_CAPACITY,
        ensures
            (r, final(self)@) == spec_start(old(self)@, bytes@),
    {
        if self.in_flight {
            Err(Error::TransferAlreadyInFlight)
        } else {
            let mut copy: Vec<u8> = Vec::new();
            let mut i: usize = 0;
            while i < bytes.len()
                invariant
                    i <= bytes@.len(),
                    copy@ == bytes@.take(i as int),
                decreases bytes@.len() - i,
            {
                copy.push(bytes[i]);
                i = i + 1;
            }
            assert(copy@ =~= bytes@);
            self.buffer = copy;
            self.in_flight = true;
            self.log.push(DriverOp::Start { len: bytes.len() });
            assert(final(self)@ =~= spec_start(old(self)@, bytes@).1);
            Ok(())
        }
    }

    /// Close out the data stage: clear the in-flight marker and log the
    /// completion. An idempotent no-op when nothing is in flight.
    pub fn complete(&mut self)
        ensures
            final(self)@ == spec_complete(old(self)@),
    {
        if self.in_flight {
            self.in_flight = false;
            self.log.push(DriverOp::Complete);
            assert(final(self)@ =~= spec_complete(old(self)@));
        }
    }

    /// Discard any in-flight transfer, as a USB reset demands. Nothing is
    /// logged: the transfer was cancelled, not completed.
    pub fn cancel(&mut self)
        ensures
            final(self)@ == spec_cancel(old(self)@),
    {
        self.in_flight = false;
        assert(final(self)@ =~= spec_cancel(old(self)@));
    }
}

/// Driver misuse is refused: after a successful `start`, a second `start`
/// without an intervening `complete` fails with `TransferAlreadyInFlight`
/// and leaves the first transfer's bytes and in-flight marker intact.
pub proof fn lemma_double_start_fails(m: DriverModel, first: Seq<u8>, second: Seq<u8>)
    requires
        !m.in_flight,
    ensures
        ({
            let (r1, m1) = spec_start(m, first);
            let (r2, m2) = spec_start(m1, second);
            &&& r1 == Ok::<(), Error>(())
            &&& r2 == Err::<(), Error>(Error::TransferAlreadyInFlight)
            &&& m2 == m1
            &&& m1.in_flight
            &&& m1.buffer == first
        }),
{
}

} // verus!
