//! Serial ports as the operating system reported them at the last scan.

use vstd::prelude::*;

verus! {

/// Identification of a port that is connected over USB.
#[derive(Debug, Clone, PartialEq, Eq)]
pub struct UsbPortInfo {
    /// Vendor ID.
    pub vid: u16,
    /// Product ID.
    pub pid: u16,
    /// Serial number.
    pub serial_number: Option<String>,
    /// Manufacturer.
    pub manufacturer: Option<String>,
    /// Product name.
    pub product: Option<String>,
}

/// How a serial port is connected.
#[derive(Debug, Clone, PartialEq, Eq)]
pub enum PortKind {
    /// Connected via USB.
    UsbPort(UsbPortInfo),
    /// Connected via PCI (a permanent port).
    PciPort,
    /// Connected via Bluetooth.
    BluetoothPort,
    /// The connection cannot be determined.
    Unknown,
}

/// One serial port: its name or path and its kind.
#[derive(Debug, Clone, PartialEq, Eq)]
pub struct PortDescriptor {
    /// The short name or path of the port.
    pub port_name: String,
    /// The hardware that exposes the port.
    pub port_type: PortKind,
}

} // verus!
