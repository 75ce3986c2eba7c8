use usbd_serial::{
    CdcAcmClass, ControlOutcome, ControlRequest, LineCoding, Recipient, RequestKind, UsbError,
    UsbPacketBus, REQ_GET_LINE_CODING, REQ_SEND_BREAK, REQ_SET_CONTROL_LINE_STATE,
    REQ_SET_LINE_CODING, USB_CLASS_CDC, USB_CLASS_CDC_DATA,
};

/// A bus double for tests that never touch the data path.
struct NullBus;

impl UsbPacketBus for NullBus {
    fn write_packet(&mut self, _data: &[u8]) -> Result<(), UsbError> {
        Err(UsbError::WouldBlock)
    }

    fn read_packet(&mut self, _max: usize) -> Result<Vec<u8>, UsbError> {
        Err(UsbError::WouldBlock)
    }
}

fn class() -> CdcAcmClass<NullBus> {
    CdcAcmClass::new(NullBus, 0, 1, 0x81, 0x01, 0x82, 64)
}

fn class_req(request: u8, value: u16) -> ControlRequest {
    ControlRequest {
        kind: RequestKind::Class,
        recipient: Recipient::Interface,
        request,
        value,
        index: 0,
        length: 0,
    }
}

/// One descriptor of a configuration descriptor set: its type byte and its
/// body (everything after bLength and bDescriptorType).
fn split_descriptors(bytes: &[u8]) -> Vec<(u8, Vec<u8>)> {
    let mut out = Vec::new();
    let mut at = 0usize;
    while at < bytes.len() {
        let len = bytes[at] as usize;
        assert!(len >= 2, "descriptor shorter than its own header");
        assert!(at + len <= bytes.len(), "descriptor runs past the buffer");
        out.push((bytes[at + 1], bytes[at + 2..at + len].to_vec()));
        at += len;
    }
    out
}

#[test]
fn descriptor_set_parses_back() {
    // the emitted configuration descriptor set parses back to: IAD, comm
    // interface, header, call management, ACM, union, interrupt-IN
    // endpoint, data interface, bulk OUT endpoint, bulk IN endpoint
    let c = class();
    let bytes = c.get_configuration_descriptors(4, 5);
    let descs = split_descriptors(&bytes);
    assert_eq!(descs.len(), 10);

    // interface association: first interface 0, count 2, class 02h/02h/01h
    assert_eq!(descs[0], (0x0b, vec![0, 2, 0x02, 0x02, 0x01, 0]));

    // communications interface: number 0, alt 0, 1 endpoint, class
    // 02h/02h/01h, name string 4
    assert_eq!(descs[1], (0x04, vec![0, 0, 1, 0x02, 0x02, 0x01, 4]));

    // header functional descriptor: bcdCDC 1.10
    assert_eq!(descs[2], (0x24, vec![0x00, 0x10, 0x01]));

    // call management: no capabilities, data interface 1
    assert_eq!(descs[3], (0x24, vec![0x01, 0x00, 1]));

    // ACM: capabilities 02h (line coding and serial state)
    assert_eq!(descs[4], (0x24, vec![0x02, 0x02]));

    // union: controlling interface 0, subordinate interface 1
    assert_eq!(descs[5], (0x24, vec![0x06, 0, 1]));

    // notification endpoint: interrupt IN at 81h, 8 bytes, interval 255
    assert_eq!(descs[6], (0x05, vec![0x81, 0x03, 8, 0, 255]));

    // data interface: number 1, alt 0, 2 endpoints, class 0Ah/00h/00h,
    // name string 5
    assert_eq!(descs[7], (0x04, vec![1, 0, 2, 0x0a, 0x00, 0x00, 5]));

    // bulk OUT at 01h and bulk IN at 82h, 64 bytes each
    assert_eq!(descs[8], (0x05, vec![0x01, 0x02, 64, 0, 0]));
    assert_eq!(descs[9], (0x05, vec![0x82, 0x02, 64, 0, 0]));

    assert_eq!(USB_CLASS_CDC, 0x02);
    assert_eq!(USB_CLASS_CDC_DATA, 0x0a);
}

#[test]
fn line_coding_round_trips_through_the_host() {
    // after SET_LINE_CODING with {9600, 0, 0, 8}, GET_LINE_CODING returns
    // the identical 7 bytes
    let mut c = class();
    let payload = [0x80, 0x25, 0, 0, 0, 0, 8];

    assert_eq!(c.control_out(class_req(REQ_SET_LINE_CODING, 0), &payload), ControlOutcome::Accepted);
    assert_eq!(c.line_coding().data_rate, 9600);
    assert_eq!(c.line_coding().stop_bits, 0);
    assert_eq!(c.line_coding().parity_type, 0);
    assert_eq!(c.line_coding().data_bits, 8);

    match c.control_in(class_req(REQ_GET_LINE_CODING, 0)) {
        Some(Ok(bytes)) => assert_eq!(bytes, payload.to_vec()),
        other => panic!("GET_LINE_CODING was not answered: {:?}", other.is_some()),
    }
}

#[test]
fn line_coding_starts_at_8000_8n1() {
    let c = class();
    assert_eq!(
        *c.line_coding(),
        LineCoding { data_rate: 8000, stop_bits: 0, parity_type: 0, data_bits: 8 }
    );
    assert_eq!(c.line_coding().encode(), vec![0x40, 0x1f, 0, 0, 0, 0, 8]);
}

#[test]
fn invalid_line_codings_stall() {
    let mut c = class();
    let good = *c.line_coding();

    // out-of-range stop bits, parity and data bits are each rejected, and
    // the stored coding stays what it was
    for bad in [
        vec![0, 0, 0, 0, 3, 0, 8],
        vec![0, 0, 0, 0, 0, 5, 8],
        vec![0, 0, 0, 0, 0, 0, 9],
        vec![0, 0, 0, 0, 0, 0],
    ] {
        assert_eq!(c.control_out(class_req(REQ_SET_LINE_CODING, 0), &bad), ControlOutcome::Rejected);
        assert_eq!(*c.line_coding(), good);
    }

    // 16 data bits are within range
    assert_eq!(
        c.control_out(class_req(REQ_SET_LINE_CODING, 0), &[0, 0, 0, 0, 2, 4, 16]),
        ControlOutcome::Accepted
    );
    assert_eq!(c.line_coding().data_bits, 16);
}

#[test]
fn requests_for_other_recipients_are_ignored() {
    let mut c = class();

    // wrong interface index
    let mut req = class_req(REQ_SET_CONTROL_LINE_STATE, 3);
    req.index = 7;
    assert_eq!(c.control_out(req, &[]), ControlOutcome::Ignored);
    assert!(!c.dtr());

    // standard request, not a class request
    let mut req = class_req(REQ_SET_CONTROL_LINE_STATE, 3);
    req.kind = RequestKind::Standard;
    assert_eq!(c.control_out(req, &[]), ControlOutcome::Ignored);

    // device recipient
    let mut req = class_req(REQ_GET_LINE_CODING, 0);
    req.recipient = Recipient::Device;
    assert!(c.control_in(req).is_none());

    // an unknown class request to the right interface stalls
    assert_eq!(c.control_out(class_req(0x7f, 0), &[]), ControlOutcome::Rejected);
    assert!(matches!(c.control_in(class_req(0x7f, 0)), Some(Err(()))));
}

#[test]
fn send_break_is_accepted_without_effect() {
    let mut c = class();
    let before = *c.line_coding();

    assert_eq!(c.control_out(class_req(REQ_SEND_BREAK, 0xffff), &[]), ControlOutcome::Accepted);
    assert_eq!(*c.line_coding(), before);
    assert!(!c.dtr());
    assert!(!c.rts());
}

#[test]
fn reset_restores_the_initial_class_state() {
    let mut c = class();

    assert_eq!(
        c.control_out(class_req(REQ_SET_LINE_CODING, 0), &[0, 0, 0, 0, 1, 1, 7]),
        ControlOutcome::Accepted
    );
    assert_eq!(c.control_out(class_req(REQ_SET_CONTROL_LINE_STATE, 3), &[]), ControlOutcome::Accepted);
    assert!(c.dtr() && c.rts());

    c.reset();
    assert_eq!(
        *c.line_coding(),
        LineCoding { data_rate: 8000, stop_bits: 0, parity_type: 0, data_bits: 8 }
    );
    assert!(!c.dtr());
    assert!(!c.rts());
}

#[test]
fn line_coding_parser_matches_encoder() {
    let payload = [0x15, 0xcd, 0x5b, 0x07, 2, 4, 16];
    let lc = LineCoding::parse(&payload).expect("valid payload");
    assert_eq!(lc.data_rate, 123_456_789);
    assert_eq!(lc.encode(), payload.to_vec());

    // extra bytes beyond the seventh are ignored
    let lc2 = LineCoding::parse(&[0x15, 0xcd, 0x5b, 0x07, 2, 4, 16, 99]).expect("valid payload");
    assert_eq!(lc2, lc);

    assert!(LineCoding::parse(&[1, 2, 3]).is_none());
}
