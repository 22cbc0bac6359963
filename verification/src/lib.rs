//! Verified core of a BLE-capable wearable firmware: the advertising-channel
//! table, the advertising PDU codec, the PHY radio driver's decision logic,
//! a GATT-style attribute table, and the byte-level codecs of the surrounding
//! peripherals (display, flash, boot image, touch panel).
//!
//! Hardware access itself (registers, buses, interrupts) stays outside this
//! crate; every function here works on plain values and says in its contract
//! what it computes.

pub mod allocator;
pub mod attributes;
pub mod channels;
pub mod display;
pub mod flash;
pub mod link;
pub mod mcuboot;
pub mod packets;
pub mod phy;
pub mod tasks;
pub mod touchpanel;
