use usbd_serial::{UsbError, UsbPacketBus};

/// A bus double: records outgoing packets, serves queued incoming ones.
struct RecordingBus {
    sent: Vec<Vec<u8>>,
    incoming: Vec<Vec<u8>>,
}

impl UsbPacketBus for RecordingBus {
    fn write_packet(&mut self, data: &[u8]) -> Result<(), UsbError> {
        self.sent.push(data.to_vec());
        Ok(())
    }

    fn read_packet(&mut self, max: usize) -> Result<Vec<u8>, UsbError> {
        if self.incoming.is_empty() {
            return Err(UsbError::WouldBlock);
        }
        let p = self.incoming.remove(0);
        assert!(p.len() <= max);
        Ok(p)
    }
}

#[test]
fn stub_bus_moves_packets() {
    let mut bus = RecordingBus { sent: Vec::new(), incoming: vec![vec![9, 8, 7]] };

    assert_eq!(bus.write_packet(&[1, 2]), Ok(()));
    assert_eq!(bus.sent, vec![vec![1, 2]]);

    assert_eq!(bus.read_packet(64), Ok(vec![9, 8, 7]));
    assert_eq!(bus.read_packet(64), Err(UsbError::WouldBlock));
}
