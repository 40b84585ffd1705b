//! Viewport follow-crop engine, and what the programs round it decide.
//!
//! A session captures frames of a display and emits a cropped window that
//! follows the pointer. This crate holds the part that decides and computes:
//!
//! - [`cursor`]: which pointer reading counts for a frame;
//! - [`follow`]: where the crop window goes;
//! - [`crop`]: which bytes make up the cropped frame;
//! - [`pacer`]: which frames are kept and how they are stamped;
//! - [`session`]: a frame's way through all four.
//!
//! Capture, encoding and the window system stay with the caller. So does
//! every clock, file and process: the modules for the three programs
//! ([`sender`], [`receiver`], [`probe`]) and their [`tray`] read command
//! lines and describe pipelines and commands, and leave the running to the
//! caller.
//!
//! Positions are fixed-point: an `i64` counts sub-pixel units, a million to
//! the pixel (see [`units`]). Rates and shares are counted in thousandths.

pub mod cli;
pub mod command;
pub mod crop;
pub mod cursor;
pub mod error;
pub mod follow;
pub mod pacer;
pub mod probe;
pub mod receiver;
pub mod sender;
pub mod service;
pub mod session;
pub mod text;
pub mod tray;
pub mod units;
