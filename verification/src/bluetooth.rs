//! Bluetooth.
pub mod hci_raw;
