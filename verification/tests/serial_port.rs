use std::cell::RefCell;
use std::rc::Rc;

use usbd_serial::{
    CdcAcmClass, ControlOutcome, ControlRequest, Recipient, RequestKind, SerialPort, UsbError,
    UsbPacketBus, WriteState, REQ_SET_CONTROL_LINE_STATE,
};

type Wire = Rc<RefCell<Vec<Vec<u8>>>>;

/// A bus double: records outgoing packets on a shared wire, serves queued
/// incoming ones, and can be told to refuse outgoing packets.
struct ScriptedBus {
    wire: Wire,
    incoming: Vec<Vec<u8>>,
    /// 0 = accept all; 1 = refuse every other call; 2 = refuse all
    refusal: u8,
    write_calls: usize,
}

impl ScriptedBus {
    fn new(refusal: u8) -> (ScriptedBus, Wire) {
        let wire: Wire = Rc::new(RefCell::new(Vec::new()));
        (ScriptedBus { wire: wire.clone(), incoming: Vec::new(), refusal, write_calls: 0 }, wire)
    }
}

impl UsbPacketBus for ScriptedBus {
    fn write_packet(&mut self, data: &[u8]) -> Result<(), UsbError> {
        self.write_calls += 1;
        let refuse = match self.refusal {
            0 => false,
            1 => self.write_calls % 2 == 1,
            _ => true,
        };
        if refuse {
            return Err(UsbError::WouldBlock);
        }
        self.wire.borrow_mut().push(data.to_vec());
        Ok(())
    }

    fn read_packet(&mut self, max: usize) -> Result<Vec<u8>, UsbError> {
        if self.incoming.is_empty() {
            return Err(UsbError::WouldBlock);
        }
        let p = self.incoming.remove(0);
        assert!(p.len() <= max);
        Ok(p)
    }
}

fn port(bus: ScriptedBus) -> SerialPort<ScriptedBus> {
    SerialPort::new(CdcAcmClass::new(bus, 0, 1, 0x81, 0x01, 0x82, 64))
}

fn drain(p: &mut SerialPort<ScriptedBus>, limit: usize) {
    for _ in 0..limit {
        match p.flush() {
            Ok(()) => return,
            Err(UsbError::WouldBlock) => {}
            Err(e) => panic!("unexpected endpoint error {:?}", e),
        }
    }
    panic!("flush did not quiesce within {} calls", limit);
}

fn wire_concat(wire: &Wire) -> Vec<u8> {
    wire.borrow().iter().flatten().copied().collect()
}

#[test]
fn short_write_sends_one_short_packet() {
    // scenario: 10 bytes at packet size 64 go out as one 10-byte packet,
    // with no zero-length packet, and flush settles to Idle right after
    let (bus, wire) = ScriptedBus::new(0);
    let mut p = port(bus);
    let data = [7u8; 10];

    assert_eq!(p.write(&data), Ok(10));

    // the packet went out with the write's own flush step
    assert_eq!(wire.borrow().as_slice(), &[data.to_vec()]);
    assert_eq!(p.write_state(), WriteState::Short);

    assert_eq!(p.flush(), Ok(()));
    assert_eq!(p.write_state(), WriteState::Idle);
    assert_eq!(wire.borrow().len(), 1);
}

#[test]
fn full_packet_is_followed_by_zlp() {
    // scenario: exactly one full packet must be closed by a zero-length
    // packet before flush reports Ok
    let (bus, wire) = ScriptedBus::new(0);
    let mut p = port(bus);
    let data = [3u8; 64];

    assert_eq!(p.write(&data), Ok(64));
    assert_eq!(p.write_state(), WriteState::Full(1));
    assert_eq!(wire.borrow().as_slice(), &[data.to_vec()]);

    // first flush: the buffer is empty but the transfer is still open
    assert_eq!(p.flush(), Err(UsbError::WouldBlock));
    assert_eq!(p.write_state(), WriteState::Short);
    assert_eq!(wire.borrow().as_slice(), &[data.to_vec(), Vec::new()]);

    // second flush: quiescent
    assert_eq!(p.flush(), Ok(()));
    assert_eq!(p.write_state(), WriteState::Idle);
    assert_eq!(wire.borrow().len(), 2);
}

#[test]
fn long_stream_forces_a_short_packet() {
    // scenario: 768 bytes stream out as full packets until the interval is
    // reached, then one packet capped at 63 bytes, then the rest — and no
    // trailing zero-length packet, because the last packet is short
    let mut data = Vec::new();
    for i in 0..768usize {
        data.push((i % 251) as u8);
    }

    let (bus, wire) = ScriptedBus::new(0);
    let mut p = port(bus);
    let mut offset = 0usize;
    let mut guard = 0usize;
    while offset < data.len() {
        match p.write(&data[offset..]) {
            Ok(n) => offset += n,
            Err(UsbError::WouldBlock) => {
                let _ = p.flush();
            }
            Err(e) => panic!("unexpected endpoint error {:?}", e),
        }
        guard += 1;
        assert!(guard < 1000, "writer made no progress");
    }
    drain(&mut p, 32);
    assert_eq!(p.write_state(), WriteState::Idle);

    // ten full packets exhaust the interval, the eleventh is forced short
    let lens: Vec<usize> = wire.borrow().iter().map(|pk| pk.len()).collect();
    assert_eq!(lens, vec![64, 64, 64, 64, 64, 64, 64, 64, 64, 64, 63, 64, 1]);
    assert_eq!(wire_concat(&wire), data);
}

#[test]
fn backpressure_loses_no_bytes() {
    // scenario: the endpoint refuses every other packet; the buffered bytes
    // survive the refusals and arrive in order
    let (bus, wire) = ScriptedBus::new(1);
    let mut p = port(bus);
    let data: Vec<u8> = (0u8..100).collect();

    assert_eq!(p.write(&data), Ok(100));
    drain(&mut p, 16);
    assert_eq!(p.write_state(), WriteState::Idle);

    let lens: Vec<usize> = wire.borrow().iter().map(|pk| pk.len()).collect();
    assert_eq!(lens, vec![64, 36]);
    assert_eq!(wire_concat(&wire), data);
}

#[test]
fn receive_crosses_packet_boundaries_in_order() {
    // scenario: the host sends 100 bytes as 64 + 36; a reader with a
    // 50-byte window sees exactly those bytes, in order, in two reads
    let all: Vec<u8> = (0u8..100).collect();
    let (mut bus, _wire) = ScriptedBus::new(0);
    bus.incoming.push(all[..64].to_vec());
    bus.incoming.push(all[64..].to_vec());
    let mut p = port(bus);

    let mut dst = [0u8; 50];
    assert_eq!(p.read(&mut dst[..]), Ok(50));
    assert_eq!(&dst[..], &all[..50]);

    assert_eq!(p.read(&mut dst[..]), Ok(50));
    assert_eq!(&dst[..], &all[50..100]);

    assert_eq!(p.read(&mut dst[..]), Err(UsbError::WouldBlock));
}

#[test]
fn bus_reset_discards_both_directions() {
    // scenario: 30 bytes pending to send and 20 received; a bus reset
    // empties both buffers and returns the write machine to Idle
    let (mut bus, wire) = ScriptedBus::new(2);
    bus.incoming.push(vec![5u8; 20]);
    let mut p = port(bus);

    // the endpoint refuses, so the 30 bytes stay in the transmit buffer
    assert_eq!(p.write(&[9u8; 30]), Ok(30));
    // pull the 20 received bytes into the receive buffer
    assert_eq!(p.read_ready(), Ok(true));

    p.reset();
    assert_eq!(p.write_state(), WriteState::Idle);

    // both directions are empty: nothing to read, nothing ever sent
    let mut dst = [0u8; 8];
    assert_eq!(p.read(&mut dst[..]), Err(UsbError::WouldBlock));
    assert_eq!(p.flush(), Ok(()));
    assert!(wire.borrow().is_empty());
}

#[test]
fn control_lines_follow_w_value() {
    // after SET_CONTROL_LINE_STATE with wValue=3 both lines are up; with
    // wValue=0 both are down
    let (bus, _wire) = ScriptedBus::new(0);
    let mut p = port(bus);
    let req = |value: u16| ControlRequest {
        kind: RequestKind::Class,
        recipient: Recipient::Interface,
        request: REQ_SET_CONTROL_LINE_STATE,
        value,
        index: 0,
        length: 0,
    };

    assert!(!p.dtr());
    assert!(!p.rts());

    assert_eq!(p.control_out(req(3), &[]), ControlOutcome::Accepted);
    assert!(p.dtr());
    assert!(p.rts());

    assert_eq!(p.control_out(req(0), &[]), ControlOutcome::Accepted);
    assert!(!p.dtr());
    assert!(!p.rts());

    // bit 0 alone raises DTR, bit 1 alone raises RTS
    assert_eq!(p.control_out(req(1), &[]), ControlOutcome::Accepted);
    assert!(p.dtr());
    assert!(!p.rts());
    assert_eq!(p.control_out(req(2), &[]), ControlOutcome::Accepted);
    assert!(!p.dtr());
    assert!(p.rts());
}

#[test]
fn would_block_write_keeps_bytes_for_later() {
    // a port whose endpoint refuses still buffers and reports how much it
    // took; a full buffer reports WouldBlock; in-complete events on the
    // bulk IN endpoint resume the drain
    let (bus, wire) = ScriptedBus::new(1);
    let mut p = port(bus);

    // the endpoint refuses the write's own flush, so all 128 bytes wait
    assert_eq!(p.write(&[1u8; 128]), Ok(128));
    assert!(wire.borrow().is_empty());
    assert_eq!(p.write_ready(), Ok(false));

    // a write into the full buffer takes nothing, though its flush step
    // now gets a first packet through
    assert_eq!(p.write(&[2u8; 4]), Err(UsbError::WouldBlock));
    assert_eq!(wire.borrow().as_slice(), &[vec![1u8; 64]]);

    // in-complete events on another endpoint do nothing
    p.endpoint_in_complete(0x83);
    assert_eq!(wire.borrow().len(), 1);

    // events on the bulk IN endpoint drain one step at a time, through the
    // refusals, down to the closing zero-length packet
    p.endpoint_in_complete(0x82);
    p.endpoint_in_complete(0x82);
    p.endpoint_in_complete(0x82);
    p.endpoint_in_complete(0x82);
    let lens: Vec<usize> = wire.borrow().iter().map(|pk| pk.len()).collect();
    assert_eq!(lens, vec![64, 64, 0]);
    assert_eq!(wire_concat(&wire), vec![1u8; 128]);
    assert_eq!(p.write_ready(), Ok(true));
}
