//! High-level control of Bluetooth Low Energy RGB light peripherals.
//!
//! The crate is organised around a small set of orthogonal capabilities
//! (power, color, brightness, hardware animation, software animation) that
//! any supported device exposes uniformly. A communication protocol turns a
//! capability option into the exact byte buffer understood by one peripheral
//! family, and a device keeps track of the discovered communication
//! characteristics together with the default write target. A software
//! animation engine synthesizes breathing effects as a timed sequence of
//! brightness writes.
//!
//! Everything here is pure: scanning, connecting and the actual writes over
//! the wireless link are performed by the surrounding application, which
//! feeds discovered characteristics in and carries encoded buffers out.

pub mod animation;
pub mod capability;
pub mod controller;
pub mod communication_protocol;
pub mod device;
pub mod error;
pub mod errors;
