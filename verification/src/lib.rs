//! Verified core of a disk-image flasher.
//!
//! The library decides; its caller reads, writes and runs commands. It
//! holds
//!
//! - [`size`]: byte counts rendered for people,
//! - [`device`]: device and file records, and the resolution of a device
//!   path against a fresh enumeration,
//! - [`validate`]: the signature probes and size checks of an image,
//! - [`checksum`]: streaming SHA-256 and MD5 checksums,
//! - [`write`]: the write/verify engine and its progress reports,
//! - [`platform`]: what each operating system's device provider has to
//!   decide: which devices to offer, which paths to open, what to unmount,
//! - [`error`], [`progress`] and [`text`]: shared failures, snapshots and
//!   text utilities.
//!
//! Every function states what it returns over plain models of its data, and
//! is proved to do so.

pub mod text;
pub mod size;
pub mod error;
pub mod progress;
pub mod device;
pub mod validate;
pub mod checksum;
pub mod write;
pub mod platform;
