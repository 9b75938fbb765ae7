//! Playback of a compressed video stream together with the application
//! metadata that encoders embed in its supplemental enhancement information.
//!
//! The crate holds the decode-and-extract worker's logic: the byte-level
//! parsers, the metadata extractor, the worker's state machine and the
//! single-slot hand-off to the consumer. Windowing, demuxing and decoding are
//! left to the program that drives it.

pub mod controller;
pub mod frame;
pub mod mailbox;
pub mod metadata;
pub mod sei;
pub mod vlc;
pub mod worker;
