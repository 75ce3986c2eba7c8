//! The serial-port stream adapter: buffered, packet-disciplined byte I/O
//! over a CDC-ACM class.
//!
//! The port owns the class, a receive buffer and a transmit buffer, and a
//! write-state machine that remembers what the last submitted bulk IN packet
//! looked like.  Draining the transmit buffer follows three policies at
//! once: at most one packet is submitted per [`SerialPort::flush`] call; a
//! zero-length packet follows a full packet once the buffer runs empty, so
//! the host completes its transfer; and after
//! [`SHORT_PACKET_INTERVAL`] − 1 consecutive full packets the next packet is
//! capped one byte short, so host stacks that deliver data only on short
//! packets never starve.

use vstd::prelude::*;

use crate::buffer::Buffer;
use crate::buffer::DefaultBufferStore;
use crate::bus::UsbError;
use crate::bus::UsbPacketBus;
use crate::cdc_acm::CdcAcmClass;
use crate::cdc_acm::ControlOutcome;
use crate::cdc_acm::ControlRequest;
use crate::cdc_acm::LineCoding;
use crate::cdc_acm::Recipient;
use crate::cdc_acm::RequestKind;

verus! {

/// After this many consecutive full packets, the next packet is forced
/// short so that the host sees the data in a timely manner.
pub const SHORT_PACKET_INTERVAL: usize = 10;

/// What was last submitted to the bulk IN endpoint.
#[derive(Clone, Copy, Debug, PartialEq, Eq, Structural)]
pub enum WriteState {
    /// No packet in flight; the transmit buffer has been drained.
    Idle,
    /// The last packet was strictly shorter than the packet size (possibly
    /// zero length), so the host's transfer is complete.
    Short,
    /// The last packet was exactly the packet size; the count is the number
    /// of consecutive full packets since the last short one.
    Full(usize),
}

/// The number of consecutive full packets a write state records.
pub open spec fn full_count_of(st: WriteState) -> int {
    match st {
        WriteState::Full(k) => k as int,
        _ => 0,
    }
}

/// One step of the transmit-drain state machine, from a transmit buffer
/// `tx0`, write state `st0` and wire history `sent0` to their successors,
/// with `r` the step's result.
///
/// A step with pending bytes offers the endpoint one packet: the buffer's
/// front, capped at the packet size — one byte less once
/// [`SHORT_PACKET_INTERVAL`] full packets are outstanding.  A step with an
/// empty buffer after a full packet offers a zero-length packet.  The
/// endpoint may refuse either (nothing changes and its error is returned);
/// an accepted packet leaves the state `Full` exactly when the packet was
/// full, and the step reports `WouldBlock` because the stream is not yet
/// drained.  Only a step with nothing to send reports `Ok`.
pub open spec fn spec_flush_step(
    mps: int,
    tx0: Seq<u8>,
    st0: WriteState,
    sent0: Seq<Seq<u8>>,
    tx1: Seq<u8>,
    st1: WriteState,
    sent1: Seq<Seq<u8>>,
    r: Result<(), UsbError>,
) -> bool {
    let fc = full_count_of(st0);
    if tx0.len() > 0 {
        let cap = if fc >= SHORT_PACKET_INTERVAL {
            mps - 1
        } else {
            mps
        };
        let k = if tx0.len() <= cap {
            tx0.len() as int
        } else {
            cap
        };
        ||| {
            &&& r == Result::<(), UsbError>::Err(UsbError::WouldBlock)
            &&& sent1 == sent0.push(tx0.take(k))
            &&& tx1 == tx0.skip(k)
            &&& st1 == (if k == mps {
                WriteState::Full((fc + 1) as usize)
            } else {
                WriteState::Short
            })
        }
        ||| {
            &&& r is Err
            &&& sent1 == sent0
            &&& tx1 == tx0
            &&& st1 == st0
        }
    } else if fc > 0 {
        ||| {
            &&& r == Result::<(), UsbError>::Err(UsbError::WouldBlock)
            &&& sent1 == sent0.push(Seq::<u8>::empty())
            &&& tx1 == tx0
            &&& st1 == WriteState::Short
        }
        ||| {
            &&& r is Err
            &&& sent1 == sent0
            &&& tx1 == tx0
            &&& st1 == st0
        }
    } else {
        &&& r is Ok
        &&& sent1 == sent0
        &&& tx1 == tx0
        &&& st1 == WriteState::Idle
    }
}

/// One step of the receive path: either nothing was taken over, or one
/// whole packet of at most `mps` bytes moved from the host history into the
/// receive buffer.
pub open spec fn spec_poll_step(
    mps: int,
    rx0: Seq<u8>,
    recv0: Seq<Seq<u8>>,
    rx1: Seq<u8>,
    recv1: Seq<Seq<u8>>,
) -> bool {
    ||| {
        &&& rx1 == rx0
        &&& recv1 == recv0
    }
    ||| exists|p: Seq<u8>|
        {
            &&& p.len() <= mps
            &&& recv1 == #[trigger] recv0.push(p)
            &&& rx1 == rx0 + p
        }
}

/// Law: bytes given to `write` are transmitted to the host in the order
/// written, octet-exact.  Whatever one drain step does — sends a data
/// packet, sends a zero-length packet, is refused by the endpoint, or finds
/// nothing to do — the bytes on the wire so far followed by the bytes still
/// buffered are the same stream afterwards as before: packetization loses,
/// duplicates and reorders nothing.
pub proof fn lemma_flush_step_preserves_stream(
    mps: int,
    tx0: Seq<u8>,
    st0: WriteState,
    sent0: Seq<Seq<u8>>,
    tx1: Seq<u8>,
    st1: WriteState,
    sent1: Seq<Seq<u8>>,
    r: Result<(), UsbError>,
)
    requires
        mps >= 2,
        spec_flush_step(mps, tx0, st0, sent0, tx1, st1, sent1, r),
    ensures
        sent1.flatten() + tx1 == sent0.flatten() + tx0,
{
    let fc = full_count_of(st0);
    let cap = if fc >= SHORT_PACKET_INTERVAL {
        mps - 1
    } else {
        mps
    };
    let k = if tx0.len() <= cap {
        tx0.len() as int
    } else {
        cap
    };
    if tx0.len() > 0 {
        sent0.lemma_flatten_push(tx0.take(k));
        assert(tx0.take(k) + tx0.skip(k) =~= tx0);
    } else {
        sent0.lemma_flatten_push(Seq::<u8>::empty());
    }
    assert(sent1.flatten() + tx1 =~= sent0.flatten() + tx0);
}

/// Law: bytes received from the host are delivered to `read` in the order
/// received, octet-exact.  If everything the hardware handed over so far is
/// the bytes some reader already consumed followed by the receive buffer,
/// then one poll step keeps it so: a new packet enters the buffer whole,
/// behind the bytes already waiting — and `read` only ever consumes the
/// buffer's front.
pub proof fn lemma_poll_step_preserves_stream(
    mps: int,
    rx0: Seq<u8>,
    recv0: Seq<Seq<u8>>,
    rx1: Seq<u8>,
    recv1: Seq<Seq<u8>>,
    delivered: Seq<u8>,
)
    requires
        spec_poll_step(mps, rx0, recv0, rx1, recv1),
        recv0.flatten() == delivered + rx0,
    ensures
        recv1.flatten() == delivered + rx1,
{
    if recv1 != recv0 {
        let p = choose|p: Seq<u8>|
            p.len() <= mps && recv1 == #[trigger] recv0.push(p) && rx1 == rx0 + p;
        recv0.lemma_flatten_push(p);
        assert(recv1.flatten() =~= delivered + rx1);
    }
}

/// Law: the room observers agree with the capacities and the pending bytes.
/// The contiguous tail never exceeds the total room, which never exceeds the
/// capacity; the difference between the two rooms is exactly the reclaimable
/// head; and room plus pending bytes account for the whole store, on both
/// sides.
pub proof fn lemma_room_bounds<B: UsbPacketBus>(p: &SerialPort<B>)
    requires
        p.wf(),
    ensures
        0 <= p.tx_room_contig() <= p.tx_room() <= p.tx_capacity(),
        p.tx_room() - p.tx_room_contig() == p.tx_wasted_head(),
        p.tx().len() == p.tx_capacity() - p.tx_room(),
        0 <= p.rx_room() <= p.rx_capacity(),
        p.rx().len() == p.rx_capacity() - p.rx_room(),
{
    crate::buffer::lemma_cursor_discipline(&p.write_buf);
    crate::buffer::lemma_conservation(&p.write_buf);
    crate::buffer::lemma_cursor_discipline(&p.read_buf);
    crate::buffer::lemma_conservation(&p.read_buf);
}

/// A control request is this port's to answer exactly when it is a class
/// request addressed to its communications interface.
pub proof fn lemma_targets_comm_interface<B: UsbPacketBus>(
    p: &SerialPort<B>,
    req: ControlRequest,
)
    ensures
        p.targets_comm_interface(req) <==> (req.kind == RequestKind::Class && req.recipient
            == Recipient::Interface && req.index == p.spec_comm_if() as u16),
{
}

/// USB (CDC-ACM) serial port with built-in buffering for stream-like use.
pub struct SerialPort<B: UsbPacketBus> {
    inner: CdcAcmClass<B>,
    read_buf: Buffer,
    write_buf: Buffer,
    write_state: WriteState,
    comm_if_name: Option<&'static str>,
    data_if_name: Option<&'static str>,
}

impl<B: UsbPacketBus> SerialPort<B> {
    /// The class is well formed, both buffers keep their cursor discipline,
    /// and a `Full` state counts between 1 and [`SHORT_PACKET_INTERVAL`]
    /// packets.
    pub closed spec fn wf(&self) -> bool {
        &&& self.inner.wf()
        &&& self.read_buf.wf()
        &&& self.write_buf.wf()
        &&& match self.write_state {
            WriteState::Full(k) => 1 <= k <= SHORT_PACKET_INTERVAL,
            _ => true,
        }
    }

    /// The bytes waiting in the transmit buffer, oldest first.
    pub closed spec fn tx(&self) -> Seq<u8> {
        self.write_buf.contents()
    }

    /// The bytes waiting in the receive buffer, oldest first.
    pub closed spec fn rx(&self) -> Seq<u8> {
        self.read_buf.contents()
    }

    /// The write-state machine's current state.
    pub closed spec fn spec_write_state(&self) -> WriteState {
        self.write_state
    }

    /// The packets accepted for transmission to the host, in order.
    pub closed spec fn sent(&self) -> Seq<Seq<u8>> {
        self.inner.sent()
    }

    /// The packets taken over from the host, in order.
    pub closed spec fn received(&self) -> Seq<Seq<u8>> {
        self.inner.received()
    }

    /// The stored line coding.
    pub closed spec fn spec_line_coding(&self) -> LineCoding {
        self.inner.spec_line_coding()
    }

    /// The DTR (data terminal ready) line.
    pub closed spec fn spec_dtr(&self) -> bool {
        self.inner.spec_dtr()
    }

    /// The RTS (request to send) line.
    pub closed spec fn spec_rts(&self) -> bool {
        self.inner.spec_rts()
    }

    /// The bulk endpoints' packet size.
    pub closed spec fn spec_max_packet_size(&self) -> u16 {
        self.inner.spec_max_packet_size()
    }

    /// The address of the bulk IN endpoint.
    pub closed spec fn spec_write_ep_addr(&self) -> u8 {
        self.inner.spec_in_ep_addr()
    }

    /// The communications interface number.
    pub closed spec fn spec_comm_if(&self) -> u8 {
        self.inner.spec_comm_if()
    }

    /// The data interface number.
    pub closed spec fn spec_data_if(&self) -> u8 {
        self.inner.spec_data_if()
    }

    /// The address of the interrupt IN notification endpoint.
    pub closed spec fn spec_notif_ep_addr(&self) -> u8 {
        self.inner.spec_notif_ep_addr()
    }

    /// The address of the bulk OUT endpoint.
    pub closed spec fn spec_out_ep_addr(&self) -> u8 {
        self.inner.spec_out_ep_addr()
    }

    /// A control request addressed to this port's communications interface
    /// as a class request.
    pub closed spec fn targets_comm_interface(&self, req: ControlRequest) -> bool {
        self.inner.targets_comm_interface(req)
    }

    /// Total room in the transmit buffer, compaction included.
    pub closed spec fn tx_room(&self) -> int {
        self.write_buf.spec_available_write()
    }

    /// Contiguous room at the transmit buffer's tail.
    pub closed spec fn tx_room_contig(&self) -> int {
        self.write_buf.spec_available_write_contig()
    }

    /// Already-read transmit bytes that a compaction would reclaim.
    pub closed spec fn tx_wasted_head(&self) -> int {
        self.write_buf.spec_rpos()
    }

    /// The receive buffer's total free room.
    pub closed spec fn rx_room(&self) -> int {
        self.read_buf.spec_available_write()
    }

    /// The capacity of the transmit buffer.
    pub closed spec fn tx_capacity(&self) -> int {
        self.write_buf.capacity()
    }

    /// The capacity of the receive buffer.
    pub closed spec fn rx_capacity(&self) -> int {
        self.read_buf.capacity()
    }

    /// The communications interface's name, if one was given.
    pub closed spec fn spec_comm_if_name(&self) -> Option<&'static str> {
        self.comm_if_name
    }

    /// The data interface's name, if one was given.
    pub closed spec fn spec_data_if_name(&self) -> Option<&'static str> {
        self.data_if_name
    }

    /// How many bytes of a `len`-byte source the transmit buffer accepts:
    /// everything that fits the contiguous tail, or — when the source
    /// overflows the tail and a compaction can reclaim head room — the total
    /// room.
    pub open spec fn spec_tx_append_count(&self, len: int) -> int {
        let room = if len > self.tx_room_contig() && self.tx_wasted_head() > 0 {
            self.tx_room()
        } else {
            self.tx_room_contig()
        };
        if len <= room {
            len
        } else {
            room
        }
    }

    /// What no operation of the port changes: packet size, endpoint
    /// address, buffer capacities and interface names.
    pub open spec fn same_port_identity(pre: &Self, post: &Self) -> bool {
        &&& post.spec_max_packet_size() == pre.spec_max_packet_size()
        &&& post.spec_write_ep_addr() == pre.spec_write_ep_addr()
        &&& post.tx_capacity() == pre.tx_capacity()
        &&& post.rx_capacity() == pre.rx_capacity()
        &&& post.spec_comm_if_name() == pre.spec_comm_if_name()
        &&& post.spec_data_if_name() == pre.spec_data_if_name()
    }

    /// What only a control transfer or a reset changes: line coding and the
    /// modem-control lines.
    pub open spec fn same_ctrl_state(pre: &Self, post: &Self) -> bool {
        &&& post.spec_line_coding() == pre.spec_line_coding()
        &&& post.spec_dtr() == pre.spec_dtr()
        &&& post.spec_rts() == pre.spec_rts()
    }

    /// Creates a serial port over `class`, with the given buffer backing
    /// stores.
    pub fn new_with_store_and_interface_names(
        class: CdcAcmClass<B>,
        read_store: Vec<u8>,
        write_store: Vec<u8>,
        comm_if_name: Option<&'static str>,
        data_if_name: Option<&'static str>,
    ) -> (r: SerialPort<B>)
        requires
            class.wf(),
        ensures
            r.wf(),
            r.tx() == Seq::<u8>::empty(),
            r.rx() == Seq::<u8>::empty(),
            r.spec_write_state() == WriteState::Idle,
            r.sent() == class.sent(),
            r.received() == class.received(),
            r.spec_line_coding() == class.spec_line_coding(),
            r.spec_dtr() == class.spec_dtr(),
            r.spec_rts() == class.spec_rts(),
            r.spec_max_packet_size() == class.spec_max_packet_size(),
            r.spec_write_ep_addr() == class.spec_in_ep_addr(),
            r.tx_capacity() == write_store@.len(),
            r.rx_capacity() == read_store@.len(),
            r.spec_comm_if_name() == comm_if_name,
            r.spec_data_if_name() == data_if_name,
    {
        SerialPort {
            inner: class,
            read_buf: Buffer::new(read_store),
            write_buf: Buffer::new(write_store),
            write_state: WriteState::Idle,
            comm_if_name,
            data_if_name,
        }
    }

    /// Creates a serial port over `class`, with the given buffer backing
    /// stores and no interface names.
    pub fn new_with_store(class: CdcAcmClass<B>, read_store: Vec<u8>, write_store: Vec<u8>) -> (r:
        SerialPort<B>)
        requires
            class.wf(),
        ensures
            r.wf(),
            r.tx() == Seq::<u8>::empty(),
            r.rx() == Seq::<u8>::empty(),
            r.spec_write_state() == WriteState::Idle,
            r.sent() == class.sent(),
            r.received() == class.received(),
            r.spec_line_coding() == class.spec_line_coding(),
            r.spec_dtr() == class.spec_dtr(),
            r.spec_rts() == class.spec_rts(),
            r.spec_max_packet_size() == class.spec_max_packet_size(),
            r.spec_write_ep_addr() == class.spec_in_ep_addr(),
            r.tx_capacity() == write_store@.len(),
            r.rx_capacity() == read_store@.len(),
            r.spec_comm_if_name() == Option::<&'static str>::None,
            r.spec_data_if_name() == Option::<&'static str>::None,
    {
        Self::new_with_store_and_interface_names(class, read_store, write_store, None, None)
    }

    /// Creates a serial port over `class` with default 128-byte buffers and
    /// the given interface names.
    pub fn new_with_interface_names(
        class: CdcAcmClass<B>,
        comm_if_name: Option<&'static str>,
        data_if_name: Option<&'static str>,
    ) -> (r: SerialPort<B>)
        requires
            class.wf(),
        ensures
            r.wf(),
            r.tx() == Seq::<u8>::empty(),
            r.rx() == Seq::<u8>::empty(),
            r.spec_write_state() == WriteState::Idle,
            r.sent() == class.sent(),
            r.received() == class.received(),
            r.spec_line_coding() == class.spec_line_coding(),
            r.spec_dtr() == class.spec_dtr(),
            r.spec_rts() == class.spec_rts(),
            r.spec_max_packet_size() == class.spec_max_packet_size(),
            r.spec_write_ep_addr() == class.spec_in_ep_addr(),
            r.tx_capacity() == DefaultBufferStore::spec_size(),
            r.rx_capacity() == DefaultBufferStore::spec_size(),
            r.spec_comm_if_name() == comm_if_name,
            r.spec_data_if_name() == data_if_name,
    {
        Self::new_with_store_and_interface_names(
            class,
            DefaultBufferStore::store(),
            DefaultBufferStore::store(),
            comm_if_name,
            data_if_name,
        )
    }

    /// Creates a serial port over `class` with default 128-byte buffers.
    pub fn new(class: CdcAcmClass<B>) -> (r: SerialPort<B>)
        requires
            class.wf(),
        ensures
            r.wf(),
            r.tx() == Seq::<u8>::empty(),
            r.rx() == Seq::<u8>::empty(),
            r.spec_write_state() == WriteState::Idle,
            r.sent() == class.sent(),
            r.received() == class.received(),
            r.spec_line_coding() == class.spec_line_coding(),
            r.spec_dtr() == class.spec_dtr(),
            r.spec_rts() == class.spec_rts(),
            r.spec_max_packet_size() == class.spec_max_packet_size(),
            r.spec_write_ep_addr() == class.spec_in_ep_addr(),
            r.tx_capacity() == DefaultBufferStore::spec_size(),
            r.rx_capacity() == DefaultBufferStore::spec_size(),
            r.spec_comm_if_name() == Option::<&'static str>::None,
            r.spec_data_if_name() == Option::<&'static str>::None,
    {
        Self::new_with_interface_names(class, None, None)
    }

    /// The stored line coding.
    pub fn line_coding(&self) -> (r: &LineCoding)
        ensures
            *r == self.spec_line_coding(),
    {
        self.inner.line_coding()
    }

    /// The DTR (data terminal ready) line, as the host last set it.
    pub fn dtr(&self) -> (r: bool)
        ensures
            r == self.spec_dtr(),
    {
        self.inner.dtr()
    }

    /// The RTS (request to send) line, as the host last set it.
    pub fn rts(&self) -> (r: bool)
        ensures
            r == self.spec_rts(),
    {
        self.inner.rts()
    }

    /// The bulk endpoints' packet size.
    pub fn max_packet_size(&self) -> (r: u16)
        ensures
            r == self.spec_max_packet_size(),
    {
        self.inner.max_packet_size()
    }

    /// The packet bus, for the driver layer around the port — it is where
    /// the device stack's endpoint handles live.
    pub fn bus(&self) -> &B {
        self.inner.bus()
    }

    /// The communications interface's name, if one was given.
    pub fn comm_if_name(&self) -> (r: Option<&'static str>)
        ensures
            r == self.spec_comm_if_name(),
    {
        self.comm_if_name
    }

    /// The data interface's name, if one was given.
    pub fn data_if_name(&self) -> (r: Option<&'static str>)
        ensures
            r == self.spec_data_if_name(),
    {
        self.data_if_name
    }

    /// The write-state machine's current state.
    pub fn write_state(&self) -> (r: WriteState)
        ensures
            r == self.spec_write_state(),
    {
        self.write_state
    }

    /// Sends as much as possible of the transmit buffer: at most one packet
    /// per call.  Returns `Ok` once everything written has left for the
    /// hardware — including the closing zero-length packet when the last
    /// data packet was full — and `Err(WouldBlock)` while packets are still
    /// pending; any other endpoint error is passed through with nothing
    /// consumed.
    pub fn flush(&mut self) -> (r: Result<(), UsbError>)
        requires
            old(self).wf(),
        ensures
            final(self).wf(),
            spec_flush_step(
                old(self).spec_max_packet_size() as int,
                old(self).tx(),
                old(self).spec_write_state(),
                old(self).sent(),
                final(self).tx(),
                final(self).spec_write_state(),
                final(self).sent(),
                r,
            ),
            final(self).rx() == old(self).rx(),
            final(self).received() == old(self).received(),
            SerialPort::same_port_identity(old(self), final(self)),
            SerialPort::same_ctrl_state(old(self), final(self)),
    {
        let full_count: usize = match self.write_state {
            WriteState::Full(c) => c,
            _ => 0,
        };

        let avail = self.write_buf.available_read();
        if avail > 0 {
            // data is pending: offer the endpoint one packet of it
            let mps = self.inner.max_packet_size() as usize;
            let max_write_size: usize = if full_count >= SHORT_PACKET_INTERVAL {
                mps - 1
            } else {
                mps
            };
            let packet = self.write_buf.copy_front(max_write_size);
            match self.inner.write_packet(packet.as_slice()) {
                Ok(_) => {
                    let n = packet.len();
                    self.write_buf.consume(n);
                    self.write_state = if n == mps {
                        WriteState::Full(full_count + 1)
                    } else {
                        WriteState::Short
                    };
                    // one packet went out, but the stream is not drained yet
                    Err(UsbError::WouldBlock)
                },
                Err(e) => Err(e),
            }
        } else if full_count > 0 {
            // the last packet was full and nothing is left: close the
            // host's transfer with a zero-length packet
            let empty: Vec<u8> = Vec::new();
            match self.inner.write_packet(empty.as_slice()) {
                Ok(_) => {
                    self.write_state = WriteState::Short;
                    Err(UsbError::WouldBlock)
                },
                Err(e) => Err(e),
            }
        } else {
            // quiescent
            self.write_state = WriteState::Idle;
            Ok(())
        }
    }

    /// Appends as much of `data` as fits to the transmit buffer, then runs
    /// one [`SerialPort::flush`] step.  Returns how many bytes were
    /// buffered, `Err(WouldBlock)` when none fit (or `data` is empty), and
    /// any other endpoint error — buffered bytes are kept in every case.
    pub fn write(&mut self, data: &[u8]) -> (r: Result<usize, UsbError>)
        requires
            old(self).wf(),
        ensures
            final(self).wf(),
            final(self).rx() == old(self).rx(),
            final(self).received() == old(self).received(),
            SerialPort::same_port_identity(old(self), final(self)),
            SerialPort::same_ctrl_state(old(self), final(self)),
            ({
                let n0 = old(self).spec_tx_append_count(data@.len() as int);
                let queued = old(self).tx() + data@.take(n0);
                exists|fr: Result<(), UsbError>|
                    {
                        &&& #[trigger] spec_flush_step(
                            old(self).spec_max_packet_size() as int,
                            queued,
                            old(self).spec_write_state(),
                            old(self).sent(),
                            final(self).tx(),
                            final(self).spec_write_state(),
                            final(self).sent(),
                            fr,
                        )
                        &&& if fr is Ok || fr == Result::<(), UsbError>::Err(
                            UsbError::WouldBlock,
                        ) {
                            if n0 == 0 {
                                r == Result::<usize, UsbError>::Err(UsbError::WouldBlock)
                            } else {
                                r matches Ok(cr) && cr == n0
                            }
                        } else {
                            r is Err && r->Err_0 == fr->Err_0
                        }
                    }
            }),
    {
        let ghost n0 = old(self).spec_tx_append_count(data@.len() as int);
        let ghost queued = old(self).tx() + data@.take(n0);

        let count = self.write_buf.write(data);
        proof {
            assert(count as int == n0);
            assert(self.tx() == queued);
        }

        let flush_r = self.flush();
        proof {
            assert(spec_flush_step(
                old(self).spec_max_packet_size() as int,
                queued,
                old(self).spec_write_state(),
                old(self).sent(),
                self.tx(),
                self.spec_write_state(),
                self.sent(),
                flush_r,
            ));
        }
        match flush_r {
            Ok(_) => (),
            Err(e) => {
                if e != UsbError::WouldBlock {
                    return Err(e);
                }
            },
        }

        if count == 0 {
            Err(UsbError::WouldBlock)
        } else {
            Ok(count)
        }
    }

    /// Polls the bulk OUT endpoint once: if a whole packet fits the receive
    /// buffer and one is waiting, it is taken over.  `WouldBlock` from the
    /// endpoint is absorbed; other endpoint errors are passed through with
    /// nothing taken.
    fn poll(&mut self) -> (r: Result<(), UsbError>)
        requires
            old(self).wf(),
        ensures
            final(self).wf(),
            final(self).tx() == old(self).tx(),
            final(self).spec_write_state() == old(self).spec_write_state(),
            final(self).sent() == old(self).sent(),
            SerialPort::same_port_identity(old(self), final(self)),
            SerialPort::same_ctrl_state(old(self), final(self)),
            match r {
                Ok(_) => spec_poll_step(
                    old(self).spec_max_packet_size() as int,
                    old(self).rx(),
                    old(self).received(),
                    final(self).rx(),
                    final(self).received(),
                ),
                Err(e) => {
                    &&& e != UsbError::WouldBlock
                    &&& final(self).rx() == old(self).rx()
                    &&& final(self).received() == old(self).received()
                },
            },
            // without room for a whole packet the hardware is left alone,
            // so nothing can fail
            old(self).spec_max_packet_size() > old(self).rx_room() ==> {
                &&& r is Ok
                &&& final(self).rx() == old(self).rx()
                &&& final(self).received() == old(self).received()
            },
    {
        let mps = self.inner.max_packet_size() as usize;
        if mps > self.read_buf.available_write() {
            // no room for a whole packet: leave it with the hardware
            return Ok(());
        }

        match self.inner.read_packet(mps) {
            Ok(pkt) => {
                proof {
                    crate::buffer::lemma_conservation(&self.read_buf);
                }
                let n = self.read_buf.write(pkt.as_slice());
                proof {
                    assert(self.rx() == old(self).rx() + pkt@.take(n as int));
                    assert(pkt@.take(n as int) =~= pkt@);
                }
                Ok(())
            },
            Err(e) => {
                if e == UsbError::WouldBlock {
                    Ok(())
                } else {
                    Err(e)
                }
            },
        }
    }

    /// Reads up to `data.len()` received bytes into the front of `data`.
    /// The endpoint is polled first, so fresh packets are seen; if nothing
    /// is buffered after that, reports `WouldBlock`.
    pub fn read(&mut self, data: &mut [u8]) -> (r: Result<usize, UsbError>)
        requires
            old(self).wf(),
        ensures
            final(self).wf(),
            final(self).tx() == old(self).tx(),
            final(self).spec_write_state() == old(self).spec_write_state(),
            final(self).sent() == old(self).sent(),
            SerialPort::same_port_identity(old(self), final(self)),
            SerialPort::same_ctrl_state(old(self), final(self)),
            final(data)@.len() == old(data)@.len(),
            match r {
                Ok(n) => exists|rx_mid: Seq<u8>|
                    {
                        &&& #[trigger] spec_poll_step(
                            old(self).spec_max_packet_size() as int,
                            old(self).rx(),
                            old(self).received(),
                            rx_mid,
                            final(self).received(),
                        )
                        &&& rx_mid.len() > 0
                        &&& n == (if old(data)@.len() <= rx_mid.len() {
                            old(data)@.len() as int
                        } else {
                            rx_mid.len() as int
                        })
                        &&& final(data)@ == rx_mid.take(n as int) + old(data)@.skip(n as int)
                        &&& final(self).rx() == rx_mid.skip(n as int)
                    },
                Err(e) => {
                    &&& final(data)@ == old(data)@
                    &&& (e == UsbError::WouldBlock ==> {
                        &&& final(self).rx().len() == 0
                        &&& spec_poll_step(
                            old(self).spec_max_packet_size() as int,
                            old(self).rx(),
                            old(self).received(),
                            final(self).rx(),
                            final(self).received(),
                        )
                    })
                    &&& (e != UsbError::WouldBlock ==> {
                        &&& final(self).rx() == old(self).rx()
                        &&& final(self).received() == old(self).received()
                    })
                },
            },
            // without room for a whole packet the bus is not consulted:
            // buffered bytes are delivered, and only an empty buffer blocks
            old(self).spec_max_packet_size() > old(self).rx_room() ==> (if old(self).rx().len()
                > 0 {
                r is Ok
            } else {
                r == Result::<usize, UsbError>::Err(UsbError::WouldBlock)
            }),
    {
        match self.poll() {
            Ok(_) => (),
            Err(e) => {
                return Err(e);
            },
        }

        let ghost rx_mid = self.rx();

        let avail = self.read_buf.available_read();
        if avail == 0 {
            return Err(UsbError::WouldBlock);
        }

        let dlen = data.len();
        let n = if dlen < avail {
            dlen
        } else {
            avail
        };
        let front = self.read_buf.copy_front(n);
        let mut i: usize = 0;
        while i < n
            invariant
                i <= n,
                n <= front@.len(),
                n <= data@.len(),
                data@.len() == old(data)@.len(),
                forall|j: int| 0 <= j < i ==> data@[j] == front@[j],
                forall|j: int| i <= j < data@.len() ==> data@[j] == old(data)@[j],
            decreases n - i,
        {
            let b = front[i];
            data[i] = b;
            i += 1;
        }
        self.read_buf.consume(n);
        proof {
            assert(front@ == rx_mid.take(n as int));
            assert(data@ =~= rx_mid.take(n as int) + old(data)@.skip(n as int));
            assert(spec_poll_step(
                old(self).spec_max_packet_size() as int,
                old(self).rx(),
                old(self).received(),
                rx_mid,
                self.received(),
            ));
            assert(rx_mid.len() > 0);
            assert(self.rx() == rx_mid.skip(n as int));
        }
        Ok(n)
    }

    /// Polls the endpoint once and tells whether received bytes are waiting.
    pub fn read_ready(&mut self) -> (r: Result<bool, UsbError>)
        requires
            old(self).wf(),
        ensures
            final(self).wf(),
            final(self).tx() == old(self).tx(),
            final(self).spec_write_state() == old(self).spec_write_state(),
            final(self).sent() == old(self).sent(),
            SerialPort::same_port_identity(old(self), final(self)),
            SerialPort::same_ctrl_state(old(self), final(self)),
            match r {
                Ok(b) => {
                    &&& spec_poll_step(
                        old(self).spec_max_packet_size() as int,
                        old(self).rx(),
                        old(self).received(),
                        final(self).rx(),
                        final(self).received(),
                    )
                    &&& b == (final(self).rx().len() > 0)
                },
                Err(e) => {
                    &&& e != UsbError::WouldBlock
                    &&& final(self).rx() == old(self).rx()
                    &&& final(self).received() == old(self).received()
                },
            },
            // without room for a whole packet the bus is not consulted, so
            // the answer is owed
            old(self).spec_max_packet_size() > old(self).rx_room() ==> r is Ok,
    {
        match self.poll() {
            Ok(_) => (),
            Err(e) => {
                return Err(e);
            },
        }
        Ok(self.read_buf.available_read() != 0)
    }

    /// Tells whether the transmit buffer has any room left.
    pub fn write_ready(&self) -> (r: Result<bool, UsbError>)
        requires
            self.wf(),
        ensures
            r == Result::<bool, UsbError>::Ok(self.tx_room() > 0),
    {
        Ok(self.write_buf.available_write() != 0)
    }

    /// Bus reset: both buffers are emptied, the write state returns to
    /// `Idle`, and the class state returns to its initial values.
    pub fn reset(&mut self)
        requires
            old(self).wf(),
        ensures
            final(self).wf(),
            final(self).tx() == Seq::<u8>::empty(),
            final(self).rx() == Seq::<u8>::empty(),
            final(self).spec_write_state() == WriteState::Idle,
            final(self).sent() == old(self).sent(),
            final(self).received() == old(self).received(),
            final(self).spec_line_coding() == LineCoding::spec_initial(),
            !final(self).spec_dtr(),
            !final(self).spec_rts(),
            SerialPort::same_port_identity(old(self), final(self)),
    {
        self.inner.reset();
        self.read_buf.clear();
        self.write_buf.clear();
        self.write_state = WriteState::Idle;
    }

    /// Continues draining after the hardware signalled that a bulk IN
    /// packet completed: if `addr` is the bulk IN endpoint's address, one
    /// flush step runs (its result does not matter here — the next event or
    /// application call picks the drain back up).
    pub fn endpoint_in_complete(&mut self, addr: u8)
        requires
            old(self).wf(),
        ensures
            final(self).wf(),
            final(self).rx() == old(self).rx(),
            final(self).received() == old(self).received(),
            SerialPort::same_port_identity(old(self), final(self)),
            SerialPort::same_ctrl_state(old(self), final(self)),
            addr != old(self).spec_write_ep_addr() ==> {
                &&& final(self).tx() == old(self).tx()
                &&& final(self).spec_write_state() == old(self).spec_write_state()
                &&& final(self).sent() == old(self).sent()
            },
            addr == old(self).spec_write_ep_addr() ==> exists|fr: Result<(), UsbError>|
                #[trigger] spec_flush_step(
                    old(self).spec_max_packet_size() as int,
                    old(self).tx(),
                    old(self).spec_write_state(),
                    old(self).sent(),
                    final(self).tx(),
                    final(self).spec_write_state(),
                    final(self).sent(),
                    fr,
                ),
    {
        if addr == self.inner.write_ep_address() {
            let flush_r = self.flush();
            proof {
                assert(spec_flush_step(
                    old(self).spec_max_packet_size() as int,
                    old(self).tx(),
                    old(self).spec_write_state(),
                    old(self).sent(),
                    self.tx(),
                    self.spec_write_state(),
                    self.sent(),
                    flush_r,
                ));
            }
        }
    }

    /// Emits the class's part of the configuration descriptor set; the
    /// string indices name the two interfaces (0 for none).
    pub fn get_configuration_descriptors(&self, comm_if_str: u8, data_if_str: u8) -> (r: Vec<u8>)
        ensures
            r@ == crate::cdc_acm::spec_config_descriptors(
                self.spec_comm_if(),
                self.spec_data_if(),
                self.spec_max_packet_size(),
                self.spec_notif_ep_addr(),
                self.spec_out_ep_addr(),
                self.spec_write_ep_addr(),
                comm_if_str,
                data_if_str,
            ),
    {
        self.inner.get_configuration_descriptors(comm_if_str, data_if_str)
    }

    /// Handles a host-to-device class control transfer; see
    /// [`CdcAcmClass::control_out`].
    pub fn control_out(&mut self, req: ControlRequest, data: &[u8]) -> (r: ControlOutcome)
        requires
            old(self).wf(),
        ensures
            final(self).wf(),
            final(self).tx() == old(self).tx(),
            final(self).rx() == old(self).rx(),
            final(self).spec_write_state() == old(self).spec_write_state(),
            final(self).sent() == old(self).sent(),
            final(self).received() == old(self).received(),
            SerialPort::same_port_identity(old(self), final(self)),
            !old(self).targets_comm_interface(req) ==> {
                &&& r == ControlOutcome::Ignored
                &&& SerialPort::same_ctrl_state(old(self), final(self))
            },
            old(self).targets_comm_interface(req) && req.request
                == crate::cdc_acm::REQ_SET_LINE_CODING ==> match LineCoding::spec_parse(data@) {
                Some(lc) => {
                    &&& r == ControlOutcome::Accepted
                    &&& final(self).spec_line_coding() == lc
                    &&& final(self).spec_dtr() == old(self).spec_dtr()
                    &&& final(self).spec_rts() == old(self).spec_rts()
                },
                None => {
                    &&& r == ControlOutcome::Rejected
                    &&& SerialPort::same_ctrl_state(old(self), final(self))
                },
            },
            old(self).targets_comm_interface(req) && req.request
                == crate::cdc_acm::REQ_SET_CONTROL_LINE_STATE ==> {
                &&& r == ControlOutcome::Accepted
                &&& final(self).spec_line_coding() == old(self).spec_line_coding()
                &&& final(self).spec_dtr() == (req.value & 1 == 1)
                &&& final(self).spec_rts() == ((req.value >> 1u16) & 1 == 1)
            },
            old(self).targets_comm_interface(req) && req.request
                == crate::cdc_acm::REQ_SEND_BREAK ==> {
                &&& r == ControlOutcome::Accepted
                &&& SerialPort::same_ctrl_state(old(self), final(self))
            },
            old(self).targets_comm_interface(req) && req.request
                != crate::cdc_acm::REQ_SET_LINE_CODING && req.request
                != crate::cdc_acm::REQ_SET_CONTROL_LINE_STATE && req.request
                != crate::cdc_acm::REQ_SEND_BREAK ==> {
                &&& r == ControlOutcome::Rejected
                &&& SerialPort::same_ctrl_state(old(self), final(self))
            },
    {
        self.inner.control_out(req, data)
    }

    /// Handles a device-to-host class control transfer; see
    /// [`CdcAcmClass::control_in`].
    pub fn control_in(&self, req: ControlRequest) -> (r: Option<Result<Vec<u8>, ()>>)
        ensures
            !self.targets_comm_interface(req) ==> r is None,
            self.targets_comm_interface(req) && req.request
                == crate::cdc_acm::REQ_GET_LINE_CODING ==> (r matches Some(inner) && inner matches
                Ok(v) && v@ == self.spec_line_coding().spec_encoding()),
            self.targets_comm_interface(req) && req.request
                != crate::cdc_acm::REQ_GET_LINE_CODING ==> r == Some(
                Result::<Vec<u8>, ()>::Err(()),
            ),
    {
        self.inner.control_in(req)
    }
}

} // verus!
