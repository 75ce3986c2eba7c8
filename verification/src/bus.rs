//! The packet-level contract consumed from the USB device stack.
//!
//! The serial port does not drive USB hardware itself: enumeration, endpoint
//! allocation and the control pipe belong to a device stack, and the bus
//! driver below it is hardware-specific.  What the verified code needs from
//! that world is small: submit one bulk IN packet, take one bulk OUT packet,
//! and know the bulk IN endpoint's address.  [`UsbPacketBus`] captures exactly
//! that, together with a ghost history of the packets that crossed it, so the
//! stream adapter's contracts can speak about what actually went on the wire.

use vstd::prelude::*;

verus! {

/// Transport-layer errors, as the device stack reports them.
///
/// `WouldBlock` is transient: the operation could not make progress on this
/// tick and should be retried after the next USB event.  Every other variant
/// is a real error.
#[derive(Clone, Copy, Debug, PartialEq, Eq, Structural)]
pub enum UsbError {
    /// The operation cannot proceed right now; retry after the next poll or
    /// endpoint-complete event.
    WouldBlock,
    /// A descriptor or control payload could not be parsed.
    ParseError,
    /// An endpoint address is invalid or out of range.
    InvalidEndpoint,
    /// A packet did not fit in the endpoint's transfer buffer.
    EndpointOverflow,
    /// The endpoint memory pool is exhausted.
    EndpointMemoryOverflow,
    /// A buffer handed to the stack was too small.
    BufferOverflow,
    /// The operation is not valid in the device's current state.
    InvalidState,
    /// The device does not support the requested operation.
    Unsupported,
}

/// One pair of bulk endpoints, as the USB device stack exposes them.
///
/// A device-specific driver layer implements this trait over the stack's
/// endpoint handles; the two ghost histories record the packets that were
/// accepted in each direction, and every implementation is trusted to
/// maintain them as the contracts below state.
pub trait UsbPacketBus {
    /// The packets accepted for transmission to the host so far, in order.
    /// An implementation ties this to its own state; the default leaves the
    /// history abstract.
    open spec fn sent(&self) -> Seq<Seq<u8>> {
        arbitrary()
    }

    /// The packets taken over from the host so far, in order.
    /// An implementation ties this to its own state; the default leaves the
    /// history abstract.
    open spec fn received(&self) -> Seq<Seq<u8>> {
        arbitrary()
    }

    /// Submits one bulk IN packet.  `Ok` means the hardware accepted exactly
    /// the bytes of `data` as one packet; on any error nothing was sent.
    fn write_packet(&mut self, data: &[u8]) -> (r: Result<(), UsbError>)
        ensures
            r matches Ok(_) ==> final(self).sent() == old(self).sent().push(data@),
            r matches Err(_) ==> final(self).sent() == old(self).sent(),
            final(self).received() == old(self).received(),
    ;

    /// Takes one received bulk OUT packet of at most `max` bytes.  `Ok(v)`
    /// hands over one whole packet; `Err(WouldBlock)` means no packet is
    /// waiting.
    fn read_packet(&mut self, max: usize) -> (r: Result<Vec<u8>, UsbError>)
        ensures
            final(self).sent() == old(self).sent(),
            match r {
                Ok(v) => v@.len() <= max && final(self).received() == old(self).received().push(
                    v@,
                ),
                Err(_) => final(self).received() == old(self).received(),
            },
    ;
}

} // verus!
