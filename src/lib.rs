//! NVMe and SCSI protocol codecs, pass-through buffer marshalling and the
//! decisions of a storage device-tree enumerator, with their contracts proved.
pub mod bitfield;
pub mod bytes;
pub mod codes;
pub mod command;
pub mod device;
pub mod feature;
pub mod identify;
pub mod latency;
pub mod lifecycle;
pub mod pci;
pub mod scsi;
pub mod specific;
pub mod status;
pub mod transport;
pub mod vsc;

pub use bitfield::BitField;
pub use latency::DiskLatency;
