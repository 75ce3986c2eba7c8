//! A CDC-ACM (USB communications device class, abstract control model)
//! serial-port function, written for verification.
//!
//! The crate is organised around three verified subsystems: a FIFO byte
//! [`Buffer`](buffer::Buffer) that hands out contiguous windows for packet
//! staging, a CDC-ACM class state machine
//! ([`CdcAcmClass`](cdc_acm::CdcAcmClass)) that owns the line coding, the
//! modem-control lines and the wire-exact descriptor set, and a
//! [`SerialPort`](serial_port::SerialPort) stream adapter that drains and
//! refills the buffers one packet at a time while keeping the zero-length
//! and short-packet discipline that host operating systems expect.
//!
//! The USB hardware itself is reached through the [`UsbPacketBus`](bus::UsbPacketBus)
//! trait, which a device-specific driver layer implements.

mod buffer;
mod bus;
mod cdc_acm;
mod io;
mod serial_port;

pub use crate::buffer::Buffer;
pub use crate::buffer::DefaultBufferStore;
pub use crate::bus::UsbError;
pub use crate::bus::UsbPacketBus;
pub use crate::cdc_acm::CdcAcmClass;
pub use crate::cdc_acm::ControlOutcome;
pub use crate::cdc_acm::ControlRequest;
pub use crate::cdc_acm::LineCoding;
pub use crate::cdc_acm::Recipient;
pub use crate::cdc_acm::RequestKind;
pub use crate::cdc_acm::CDC_PROTOCOL_AT;
pub use crate::cdc_acm::CDC_SUBCLASS_ACM;
pub use crate::cdc_acm::CDC_TYPE_ACM;
pub use crate::cdc_acm::CDC_TYPE_CALL_MANAGEMENT;
pub use crate::cdc_acm::CDC_TYPE_HEADER;
pub use crate::cdc_acm::CDC_TYPE_UNION;
pub use crate::cdc_acm::COMM_EP_INTERVAL;
pub use crate::cdc_acm::COMM_EP_MAX_PACKET;
pub use crate::cdc_acm::CS_INTERFACE;
pub use crate::cdc_acm::USB_CLASS_CDC;
pub use crate::cdc_acm::USB_CLASS_CDC_DATA;
pub use crate::cdc_acm::REQ_GET_LINE_CODING;
pub use crate::cdc_acm::REQ_SEND_BREAK;
pub use crate::cdc_acm::REQ_SET_CONTROL_LINE_STATE;
pub use crate::cdc_acm::REQ_SET_LINE_CODING;
pub use crate::serial_port::SerialPort;
pub use crate::serial_port::WriteState;
pub use crate::serial_port::SHORT_PACKET_INTERVAL;
pub use crate::io::Error;
pub use crate::io::IoErrorKind;
