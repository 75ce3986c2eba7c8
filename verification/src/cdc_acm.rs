//! CDC-ACM class state: line coding, modem-control lines, class-specific
//! control requests, and the wire-exact configuration descriptor set.
//!
//! The class owns the packet bus and the two interface numbers the device
//! stack assigned to it.  Control transfers arrive already parsed into a
//! [`ControlRequest`]; the class decides whether the request is its own,
//! updates its state, and tells the caller to accept, reject (stall) or
//! ignore the transfer.

use vstd::prelude::*;

use crate::bus::UsbError;
use crate::bus::UsbPacketBus;

verus! {

/// The class code of a CDC device, advertised by the composite device.
pub const USB_CLASS_CDC: u8 = 0x02;

/// The class code of the CDC data interface.
pub const USB_CLASS_CDC_DATA: u8 = 0x0a;

pub const CDC_SUBCLASS_ACM: u8 = 0x02;

pub const CDC_PROTOCOL_AT: u8 = 0x01;

pub const CS_INTERFACE: u8 = 0x24;

pub const CDC_TYPE_HEADER: u8 = 0x00;

pub const CDC_TYPE_CALL_MANAGEMENT: u8 = 0x01;

pub const CDC_TYPE_ACM: u8 = 0x02;

pub const CDC_TYPE_UNION: u8 = 0x06;

/// Notification element packet size and polling interval.
pub const COMM_EP_MAX_PACKET: u8 = 8;

pub const COMM_EP_INTERVAL: u8 = 255;

/// SET_LINE_CODING: the host sends a 7-byte line coding.
pub const REQ_SET_LINE_CODING: u8 = 0x20;

/// GET_LINE_CODING: the host reads the stored 7-byte line coding.
pub const REQ_GET_LINE_CODING: u8 = 0x21;

/// SET_CONTROL_LINE_STATE: bits 0 and 1 of wValue carry DTR and RTS.
pub const REQ_SET_CONTROL_LINE_STATE: u8 = 0x22;

/// SEND_BREAK: accepted for protocol compliance; the duration in wValue has
/// no effect here.
pub const REQ_SEND_BREAK: u8 = 0x23;

/// Line coding, as carried by SET_LINE_CODING and GET_LINE_CODING.
///
/// The stop-bit code is 0 for 1 stop bit, 1 for 1.5 and 2 for 2; the parity
/// code is 0 none, 1 odd, 2 even, 3 mark, 4 space; the data bits are 5, 6, 7,
/// 8 or 16.  The wire layout is the data rate as a 32-bit little-endian
/// value followed by the three code bytes.
#[derive(Clone, Copy, Debug, PartialEq, Eq, Structural)]
pub struct LineCoding {
    /// Data rate in bits per second.
    pub data_rate: u32,
    /// Stop-bit code: 0, 1 or 2.
    pub stop_bits: u8,
    /// Parity code: 0 through 4.
    pub parity_type: u8,
    /// Data bits: 5, 6, 7, 8 or 16.
    pub data_bits: u8,
}

impl LineCoding {
    /// The codes lie in the ranges that the class accepts.
    pub open spec fn wf(&self) -> bool {
        &&& self.stop_bits <= 2
        &&& self.parity_type <= 4
        &&& (self.data_bits == 5 || self.data_bits == 6 || self.data_bits == 7
            || self.data_bits == 8 || self.data_bits == 16)
    }

    /// The initial value: 8 data bits, no parity, 1 stop bit, 8000 bps.
    pub open spec fn spec_initial() -> LineCoding {
        LineCoding { data_rate: 8000, stop_bits: 0, parity_type: 0, data_bits: 8 }
    }

    /// The 7-byte wire encoding.
    pub open spec fn spec_encoding(&self) -> Seq<u8> {
        seq![
            (self.data_rate % 256) as u8,
            ((self.data_rate / 256) % 256) as u8,
            ((self.data_rate / 65536) % 256) as u8,
            ((self.data_rate / 16777216) % 256) as u8,
            self.stop_bits,
            self.parity_type,
            self.data_bits,
        ]
    }

    /// What parsing a SET_LINE_CODING payload yields: the first 7 bytes
    /// decoded, or nothing if the payload is short or a code is out of range.
    pub open spec fn spec_parse(data: Seq<u8>) -> Option<LineCoding> {
        if data.len() < 7 {
            None
        } else {
            let lc = LineCoding {
                data_rate: (data[0] + 256 * data[1] + 65536 * data[2] + 16777216 * data[3]) as u32,
                stop_bits: data[4],
                parity_type: data[5],
                data_bits: data[6],
            };
            if lc.wf() {
                Some(lc)
            } else {
                None
            }
        }
    }

    /// Encodes the line coding into its 7-byte wire form.
    pub fn encode(&self) -> (r: Vec<u8>)
        ensures
            r@ == self.spec_encoding(),
    {
        let mut v: Vec<u8> = Vec::new();
        v.push((self.data_rate % 256) as u8);
        v.push(((self.data_rate / 256) % 256) as u8);
        v.push(((self.data_rate / 65536) % 256) as u8);
        v.push(((self.data_rate / 16777216) % 256) as u8);
        v.push(self.stop_bits);
        v.push(self.parity_type);
        v.push(self.data_bits);
        proof {
            assert(v@ =~= self.spec_encoding());
        }
        v
    }

    /// Parses and validates a SET_LINE_CODING payload.
    pub fn parse(data: &[u8]) -> (r: Option<LineCoding>)
        ensures
            r == LineCoding::spec_parse(data@),
            r matches Some(lc) ==> lc.wf(),
    {
        if data.len() < 7 {
            return None;
        }
        let b0 = data[0];
        let b1 = data[1];
        let b2 = data[2];
        let b3 = data[3];
        let data_rate = (b0 as u32) + 256u32 * (b1 as u32) + 65536u32 * (b2 as u32) + 16777216u32
            * (b3 as u32);
        let stop_bits = data[4];
        let parity_type = data[5];
        let data_bits = data[6];
        if stop_bits <= 2 && parity_type <= 4 && (data_bits == 5 || data_bits == 6 || data_bits == 7
            || data_bits == 8 || data_bits == 16) {
            Some(LineCoding { data_rate, stop_bits, parity_type, data_bits })
        } else {
            None
        }
    }
}

impl Default for LineCoding {
    /// The initial line coding: 8N1 at 8000 bps.
    fn default() -> (r: LineCoding)
        ensures
            r == LineCoding::spec_initial(),
            r.wf(),
    {
        LineCoding { data_rate: 8000, stop_bits: 0, parity_type: 0, data_bits: 8 }
    }
}

/// Law: the 7 bytes a GET_LINE_CODING returns decode back to the stored
/// line coding, and a decoded payload re-encodes to its own first 7 bytes —
/// the host reads back exactly what it set.
pub proof fn lemma_line_coding_round_trip(lc: LineCoding, data: Seq<u8>)
    requires
        lc.wf(),
    ensures
        LineCoding::spec_parse(lc.spec_encoding()) == Some(lc),
        LineCoding::spec_parse(data) matches Some(parsed) ==> parsed.spec_encoding() == data.take(
            7,
        ),
{
    let enc = lc.spec_encoding();
    assert(enc[0] + 256 * enc[1] + 65536 * enc[2] + 16777216 * enc[3] == lc.data_rate) by {
        lemma_le32_round_trip(lc.data_rate);
    };
    if LineCoding::spec_parse(data) is Some {
        let parsed = LineCoding::spec_parse(data)->Some_0;
        assert(parsed.spec_encoding() =~= data.take(7)) by {
            lemma_le32_bytes(data[0], data[1], data[2], data[3]);
        };
    }
}

/// The four little-endian bytes of a 32-bit value recombine to the value.
proof fn lemma_le32_round_trip(r: u32)
    ensures
        (r % 256) + 256 * ((r / 256) % 256) + 65536 * ((r / 65536) % 256) + 16777216 * ((r
            / 16777216) % 256) == r,
{
    assert((r % 256) + 256 * ((r / 256) % 256) + 65536 * ((r / 65536) % 256) + 16777216 * ((r
        / 16777216) % 256) == r) by (bit_vector);
}

/// A 32-bit value assembled from four bytes splits back into those bytes.
proof fn lemma_le32_bytes(b0: u8, b1: u8, b2: u8, b3: u8)
    ensures
        ({
            let s = b0 + 256 * b1 + 65536 * b2 + 16777216 * b3;
            &&& s <= u32::MAX
            &&& s % 256 == b0
            &&& (s / 256) % 256 == b1
            &&& (s / 65536) % 256 == b2
            &&& (s / 16777216) % 256 == b3
        }),
{
    let s: int = b0 + 256 * b1 + 65536 * b2 + 16777216 * b3;
    let q1: int = b1 + 256 * b2 + 65536 * b3;
    let q2: int = b2 + 256 * b3;
    vstd::arithmetic::div_mod::lemma_fundamental_div_mod_converse(s, 256, q1, b0 as int);
    vstd::arithmetic::div_mod::lemma_fundamental_div_mod_converse(
        s,
        65536,
        q2,
        b0 + 256 * b1,
    );
    vstd::arithmetic::div_mod::lemma_fundamental_div_mod_converse(
        s,
        16777216,
        b3 as int,
        b0 + 256 * b1 + 65536 * b2,
    );
    vstd::arithmetic::div_mod::lemma_fundamental_div_mod_converse(q1, 256, q2, b1 as int);
    vstd::arithmetic::div_mod::lemma_fundamental_div_mod_converse(q2, 256, b3 as int, b2 as int);
    vstd::arithmetic::div_mod::lemma_fundamental_div_mod_converse(b3 as int, 256, 0, b3 as int);
}

/// The configuration descriptor set of the function, byte for byte:
/// interface association, communications interface, header (bcdCDC 1.10),
/// call management (no capabilities), ACM (capabilities 0x02), union, the
/// interrupt IN notification endpoint, the data interface, and the bulk OUT
/// and bulk IN endpoints.
pub open spec fn spec_config_descriptors(
    comm_if: u8,
    data_if: u8,
    mps: u16,
    notif_ep_addr: u8,
    out_ep_addr: u8,
    in_ep_addr: u8,
    comm_if_str: u8,
    data_if_str: u8,
) -> Seq<u8> {
    seq![
        8u8, 0x0bu8, comm_if, 2u8, USB_CLASS_CDC, CDC_SUBCLASS_ACM, CDC_PROTOCOL_AT, 0u8,
        9u8, 0x04u8, comm_if, 0u8, 1u8, USB_CLASS_CDC, CDC_SUBCLASS_ACM, CDC_PROTOCOL_AT,
        comm_if_str,
        5u8, CS_INTERFACE, CDC_TYPE_HEADER, 0x10u8, 0x01u8,
        5u8, CS_INTERFACE, CDC_TYPE_CALL_MANAGEMENT, 0u8, data_if,
        4u8, CS_INTERFACE, CDC_TYPE_ACM, 0x02u8,
        5u8, CS_INTERFACE, CDC_TYPE_UNION, comm_if, data_if,
        7u8, 0x05u8, notif_ep_addr, 0x03u8, COMM_EP_MAX_PACKET, 0u8, COMM_EP_INTERVAL,
        9u8, 0x04u8, data_if, 0u8, 2u8, USB_CLASS_CDC_DATA, 0u8, 0u8, data_if_str,
        7u8, 0x05u8, out_ep_addr, 0x02u8, (mps % 256) as u8, (mps / 256) as u8, 0u8,
        7u8, 0x05u8, in_ep_addr, 0x02u8, (mps % 256) as u8, (mps / 256) as u8, 0u8,
    ]
}

/// Who a control request is addressed to, from bits 5..7 of bmRequestType.
#[derive(Clone, Copy, Debug, PartialEq, Eq, Structural)]
pub enum RequestKind {
    /// A request defined by the USB standard itself.
    Standard,
    /// A class-specific request.
    Class,
    /// A vendor-specific request.
    Vendor,
}

/// The recipient of a control request, from bits 0..5 of bmRequestType.
#[derive(Clone, Copy, Debug, PartialEq, Eq, Structural)]
pub enum Recipient {
    /// The whole device.
    Device,
    /// One interface, named by wIndex.
    Interface,
    /// One endpoint, named by wIndex.
    Endpoint,
    /// Anything else.
    Other,
}

/// A parsed SETUP packet, as the device stack hands it to a class.
#[derive(Clone, Copy, Debug, PartialEq, Eq, Structural)]
pub struct ControlRequest {
    /// Standard, class or vendor request.
    pub kind: RequestKind,
    /// Device, interface, endpoint or other recipient.
    pub recipient: Recipient,
    /// bRequest.
    pub request: u8,
    /// wValue.
    pub value: u16,
    /// wIndex; for interface recipients, the interface number.
    pub index: u16,
    /// wLength: the length of the data stage.
    pub length: u16,
}

/// What a class tells the stack to do with a control transfer.
#[derive(Clone, Copy, Debug, PartialEq, Eq, Structural)]
pub enum ControlOutcome {
    /// The request is not addressed to this class; leave it to others.
    Ignored,
    /// The request was handled.
    Accepted,
    /// The request is addressed to this class but invalid: stall.
    Rejected,
}

/// CDC-ACM class state over a packet bus.
pub struct CdcAcmClass<B: UsbPacketBus> {
    bus: B,
    comm_if: u8,
    data_if: u8,
    notif_ep_addr: u8,
    out_ep_addr: u8,
    in_ep_addr: u8,
    max_packet_size: u16,
    line_coding: LineCoding,
    dtr: bool,
    rts: bool,
}

impl<B: UsbPacketBus> CdcAcmClass<B> {
    /// The line coding is in range and the packet size is a usable bulk size.
    pub open spec fn wf(&self) -> bool {
        &&& self.spec_line_coding().wf()
        &&& self.spec_max_packet_size() >= 2
    }

    /// The stored line coding.
    pub closed spec fn spec_line_coding(&self) -> LineCoding {
        self.line_coding
    }

    /// The DTR (data terminal ready) line.
    pub closed spec fn spec_dtr(&self) -> bool {
        self.dtr
    }

    /// The RTS (request to send) line.
    pub closed spec fn spec_rts(&self) -> bool {
        self.rts
    }

    /// The bulk endpoints' packet size.
    pub closed spec fn spec_max_packet_size(&self) -> u16 {
        self.max_packet_size
    }

    /// The communications interface number.
    pub closed spec fn spec_comm_if(&self) -> u8 {
        self.comm_if
    }

    /// The data interface number.
    pub closed spec fn spec_data_if(&self) -> u8 {
        self.data_if
    }

    /// The address of the interrupt IN notification endpoint.
    pub closed spec fn spec_notif_ep_addr(&self) -> u8 {
        self.notif_ep_addr
    }

    /// The address of the bulk OUT endpoint.
    pub closed spec fn spec_out_ep_addr(&self) -> u8 {
        self.out_ep_addr
    }

    /// The address of the bulk IN endpoint.
    pub closed spec fn spec_in_ep_addr(&self) -> u8 {
        self.in_ep_addr
    }

    /// The packets accepted for transmission to the host, in order.
    pub closed spec fn sent(&self) -> Seq<Seq<u8>> {
        self.bus.sent()
    }

    /// The packets taken over from the host, in order.
    pub closed spec fn received(&self) -> Seq<Seq<u8>> {
        self.bus.received()
    }

    /// The fixed identity of the class: packet size, interface numbers and
    /// endpoint addresses, none of which any operation changes.
    pub open spec fn same_identity(pre: &Self, post: &Self) -> bool {
        &&& post.spec_max_packet_size() == pre.spec_max_packet_size()
        &&& post.spec_comm_if() == pre.spec_comm_if()
        &&& post.spec_data_if() == pre.spec_data_if()
        &&& post.spec_notif_ep_addr() == pre.spec_notif_ep_addr()
        &&& post.spec_out_ep_addr() == pre.spec_out_ep_addr()
        &&& post.spec_in_ep_addr() == pre.spec_in_ep_addr()
    }

    /// A control request addressed to the communications interface as a
    /// class request: only those are this class's to answer.
    pub open spec fn targets_comm_interface(&self, req: ControlRequest) -> bool {
        &&& req.kind == RequestKind::Class
        &&& req.recipient == Recipient::Interface
        &&& req.index == self.spec_comm_if() as u16
    }

    /// Creates the class over `bus`, with the interface numbers and
    /// endpoint addresses the device stack assigned and the bulk packet size
    /// (64 for full-speed bulk).
    pub fn new(
        bus: B,
        comm_if: u8,
        data_if: u8,
        notif_ep_addr: u8,
        out_ep_addr: u8,
        in_ep_addr: u8,
        max_packet_size: u16,
    ) -> (r: CdcAcmClass<B>)
        requires
            max_packet_size >= 2,
        ensures
            r.wf(),
            r.spec_line_coding() == LineCoding::spec_initial(),
            !r.spec_dtr(),
            !r.spec_rts(),
            r.spec_comm_if() == comm_if,
            r.spec_data_if() == data_if,
            r.spec_notif_ep_addr() == notif_ep_addr,
            r.spec_out_ep_addr() == out_ep_addr,
            r.spec_in_ep_addr() == in_ep_addr,
            r.spec_max_packet_size() == max_packet_size,
            r.sent() == bus.sent(),
            r.received() == bus.received(),
    {
        CdcAcmClass {
            bus,
            comm_if,
            data_if,
            notif_ep_addr,
            out_ep_addr,
            in_ep_addr,
            max_packet_size,
            line_coding: LineCoding::default(),
            dtr: false,
            rts: false,
        }
    }

    /// The bulk endpoints' packet size.
    pub fn max_packet_size(&self) -> (r: u16)
        ensures
            r == self.spec_max_packet_size(),
    {
        self.max_packet_size
    }

    /// The stored line coding.
    pub fn line_coding(&self) -> (r: &LineCoding)
        ensures
            *r == self.spec_line_coding(),
    {
        &self.line_coding
    }

    /// The DTR (data terminal ready) line.
    pub fn dtr(&self) -> (r: bool)
        ensures
            r == self.spec_dtr(),
    {
        self.dtr
    }

    /// The RTS (request to send) line.
    pub fn rts(&self) -> (r: bool)
        ensures
            r == self.spec_rts(),
    {
        self.rts
    }

    /// The packet bus, for the driver layer around the class — it is where
    /// the device stack's endpoint handles live.
    pub fn bus(&self) -> &B {
        &self.bus
    }

    /// The address of the bulk IN endpoint, used to tell which endpoint an
    /// IN-complete event belongs to.
    pub fn write_ep_address(&self) -> (r: u8)
        ensures
            r == self.spec_in_ep_addr(),
    {
        self.in_ep_addr
    }

    /// Submits one bulk IN packet to the host.
    pub fn write_packet(&mut self, data: &[u8]) -> (r: Result<(), UsbError>)
        ensures
            r matches Ok(_) ==> final(self).sent() == old(self).sent().push(data@),
            r matches Err(_) ==> final(self).sent() == old(self).sent(),
            final(self).received() == old(self).received(),
            final(self).wf() == old(self).wf(),
            final(self).spec_line_coding() == old(self).spec_line_coding(),
            final(self).spec_dtr() == old(self).spec_dtr(),
            final(self).spec_rts() == old(self).spec_rts(),
            CdcAcmClass::same_identity(old(self), final(self)),
    {
        self.bus.write_packet(data)
    }

    /// Takes one received bulk OUT packet of at most `max` bytes.
    pub fn read_packet(&mut self, max: usize) -> (r: Result<Vec<u8>, UsbError>)
        ensures
            final(self).sent() == old(self).sent(),
            match r {
                Ok(v) => v@.len() <= max && final(self).received() == old(self).received().push(
                    v@,
                ),
                Err(_) => final(self).received() == old(self).received(),
            },
            final(self).wf() == old(self).wf(),
            final(self).spec_line_coding() == old(self).spec_line_coding(),
            final(self).spec_dtr() == old(self).spec_dtr(),
            final(self).spec_rts() == old(self).spec_rts(),
            CdcAcmClass::same_identity(old(self), final(self)),
    {
        self.bus.read_packet(max)
    }

    /// Bus reset: line coding and modem lines return to their initial
    /// values.
    pub fn reset(&mut self)
        requires
            old(self).wf(),
        ensures
            final(self).wf(),
            final(self).spec_line_coding() == LineCoding::spec_initial(),
            !final(self).spec_dtr(),
            !final(self).spec_rts(),
            final(self).sent() == old(self).sent(),
            final(self).received() == old(self).received(),
            CdcAcmClass::same_identity(old(self), final(self)),
    {
        self.line_coding = LineCoding::default();
        self.dtr = false;
        self.rts = false;
    }

    /// Emits the class's part of the configuration descriptor set, byte for
    /// byte as it goes on the wire: interface association, communications
    /// interface, the header, call management, ACM and union functional
    /// descriptors, the notification endpoint, the data interface and the
    /// two bulk endpoints.
    pub fn get_configuration_descriptors(&self, comm_if_str: u8, data_if_str: u8) -> (r: Vec<
        u8,
    >)
        ensures
            r@ == spec_config_descriptors(
                self.spec_comm_if(),
                self.spec_data_if(),
                self.spec_max_packet_size(),
                self.spec_notif_ep_addr(),
                self.spec_out_ep_addr(),
                self.spec_in_ep_addr(),
                comm_if_str,
                data_if_str,
            ),
    {
        let mps_lo = (self.max_packet_size % 256) as u8;
        let mps_hi = (self.max_packet_size / 256) as u8;
        let mut v: Vec<u8> = Vec::new();

        // interface association: one function of two interfaces
        v.push(8u8);
        v.push(0x0bu8);
        v.push(self.comm_if);
        v.push(2u8);
        v.push(USB_CLASS_CDC);
        v.push(CDC_SUBCLASS_ACM);
        v.push(CDC_PROTOCOL_AT);
        v.push(0u8);

        // communications interface, one (notification) endpoint
        v.push(9u8);
        v.push(0x04u8);
        v.push(self.comm_if);
        v.push(0u8);
        v.push(1u8);
        v.push(USB_CLASS_CDC);
        v.push(CDC_SUBCLASS_ACM);
        v.push(CDC_PROTOCOL_AT);
        v.push(comm_if_str);

        // header functional descriptor, bcdCDC 1.10
        v.push(5u8);
        v.push(CS_INTERFACE);
        v.push(CDC_TYPE_HEADER);
        v.push(0x10u8);
        v.push(0x01u8);

        // call management functional descriptor, no capabilities
        v.push(5u8);
        v.push(CS_INTERFACE);
        v.push(CDC_TYPE_CALL_MANAGEMENT);
        v.push(0u8);
        v.push(self.data_if);

        // ACM functional descriptor: line coding and serial state
        v.push(4u8);
        v.push(CS_INTERFACE);
        v.push(CDC_TYPE_ACM);
        v.push(0x02u8);

        // union functional descriptor
        v.push(5u8);
        v.push(CS_INTERFACE);
        v.push(CDC_TYPE_UNION);
        v.push(self.comm_if);
        v.push(self.data_if);

        // notification endpoint: interrupt IN
        v.push(7u8);
        v.push(0x05u8);
        v.push(self.notif_ep_addr);
        v.push(0x03u8);
        v.push(COMM_EP_MAX_PACKET);
        v.push(0u8);
        v.push(COMM_EP_INTERVAL);

        // data interface, two bulk endpoints
        v.push(9u8);
        v.push(0x04u8);
        v.push(self.data_if);
        v.push(0u8);
        v.push(2u8);
        v.push(USB_CLASS_CDC_DATA);
        v.push(0u8);
        v.push(0u8);
        v.push(data_if_str);

        // bulk OUT endpoint
        v.push(7u8);
        v.push(0x05u8);
        v.push(self.out_ep_addr);
        v.push(0x02u8);
        v.push(mps_lo);
        v.push(mps_hi);
        v.push(0u8);

        // bulk IN endpoint
        v.push(7u8);
        v.push(0x05u8);
        v.push(self.in_ep_addr);
        v.push(0x02u8);
        v.push(mps_lo);
        v.push(mps_hi);
        v.push(0u8);

        proof {
            assert(v@ =~= spec_config_descriptors(
                self.spec_comm_if(),
                self.spec_data_if(),
                self.spec_max_packet_size(),
                self.spec_notif_ep_addr(),
                self.spec_out_ep_addr(),
                self.spec_in_ep_addr(),
                comm_if_str,
                data_if_str,
            ));
        }
        v
    }

    /// Handles a host-to-device class request.
    ///
    /// SET_LINE_CODING stores a valid 7-byte payload and stalls an invalid
    /// one; SET_CONTROL_LINE_STATE copies bits 0 and 1 of wValue to DTR and
    /// RTS; SEND_BREAK is accepted with no effect.  Requests not addressed
    /// to the communications interface are ignored; other requests to it are
    /// stalled.
    pub fn control_out(&mut self, req: ControlRequest, data: &[u8]) -> (r: ControlOutcome)
        requires
            old(self).wf(),
        ensures
            final(self).wf(),
            final(self).sent() == old(self).sent(),
            final(self).received() == old(self).received(),
            CdcAcmClass::same_identity(old(self), final(self)),
            !old(self).targets_comm_interface(req) ==> {
                &&& r == ControlOutcome::Ignored
                &&& final(self).spec_line_coding() == old(self).spec_line_coding()
                &&& final(self).spec_dtr() == old(self).spec_dtr()
                &&& final(self).spec_rts() == old(self).spec_rts()
            },
            old(self).targets_comm_interface(req) && req.request == REQ_SET_LINE_CODING ==> match
                LineCoding::spec_parse(data@) {
                Some(lc) => {
                    &&& r == ControlOutcome::Accepted
                    &&& final(self).spec_line_coding() == lc
                    &&& final(self).spec_dtr() == old(self).spec_dtr()
                    &&& final(self).spec_rts() == old(self).spec_rts()
                },
                None => {
                    &&& r == ControlOutcome::Rejected
                    &&& final(self).spec_line_coding() == old(self).spec_line_coding()
                    &&& final(self).spec_dtr() == old(self).spec_dtr()
                    &&& final(self).spec_rts() == old(self).spec_rts()
                },
            },
            old(self).targets_comm_interface(req) && req.request == REQ_SET_CONTROL_LINE_STATE
                ==> {
                &&& r == ControlOutcome::Accepted
                &&& final(self).spec_line_coding() == old(self).spec_line_coding()
                &&& final(self).spec_dtr() == (req.value & 1 == 1)
                &&& final(self).spec_rts() == ((req.value >> 1u16) & 1 == 1)
            },
            old(self).targets_comm_interface(req) && req.request == REQ_SEND_BREAK ==> {
                &&& r == ControlOutcome::Accepted
                &&& final(self).spec_line_coding() == old(self).spec_line_coding()
                &&& final(self).spec_dtr() == old(self).spec_dtr()
                &&& final(self).spec_rts() == old(self).spec_rts()
            },
            old(self).targets_comm_interface(req) && req.request != REQ_SET_LINE_CODING
                && req.request != REQ_SET_CONTROL_LINE_STATE && req.request != REQ_SEND_BREAK
                ==> {
                &&& r == ControlOutcome::Rejected
                &&& final(self).spec_line_coding() == old(self).spec_line_coding()
                &&& final(self).spec_dtr() == old(self).spec_dtr()
                &&& final(self).spec_rts() == old(self).spec_rts()
            },
    {
        if !(req.kind == RequestKind::Class && req.recipient == Recipient::Interface && req.index
            == self.comm_if as u16) {
            return ControlOutcome::Ignored;
        }

        if req.request == REQ_SET_LINE_CODING {
            match LineCoding::parse(data) {
                Some(lc) => {
                    self.line_coding = lc;
                    ControlOutcome::Accepted
                },
                None => ControlOutcome::Rejected,
            }
        } else if req.request == REQ_SET_CONTROL_LINE_STATE {
            self.dtr = req.value & 1 == 1;
            self.rts = (req.value >> 1u16) & 1 == 1;
            ControlOutcome::Accepted
        } else if req.request == REQ_SEND_BREAK {
            ControlOutcome::Accepted
        } else {
            ControlOutcome::Rejected
        }
    }

    /// Handles a device-to-host class request.  GET_LINE_CODING answers with
    /// the stored 7 bytes; requests not addressed to the communications
    /// interface yield no answer; other requests to it are stalled (`Err`).
    pub fn control_in(&self, req: ControlRequest) -> (r: Option<Result<Vec<u8>, ()>>)
        ensures
            !self.targets_comm_interface(req) ==> r is None,
            self.targets_comm_interface(req) && req.request == REQ_GET_LINE_CODING ==> (r matches
                Some(inner) && inner matches Ok(v) && v@
                == self.spec_line_coding().spec_encoding()),
            self.targets_comm_interface(req) && req.request != REQ_GET_LINE_CODING ==> r == Some(
                Result::<Vec<u8>, ()>::Err(()),
            ),
    {
        if !(req.kind == RequestKind::Class && req.recipient == Recipient::Interface && req.index
            == self.comm_if as u16) {
            return None;
        }

        if req.request == REQ_GET_LINE_CODING {
            Some(Ok(self.line_coding.encode()))
        } else {
            Some(Err(()))
        }
    }
}

} // verus!
