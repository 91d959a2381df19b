//! Appending log lines to a file on an SD card, and the small pieces of
//! board logic around it.
//!
//! - `session`: one append as a sequence of driver steps (bring the card up,
//!   probe partitions, open the root directory, open or create the file,
//!   write, then release everything in reverse order), decided step by step
//!   by a verified state machine; `laws` proves what every run of it does.
//! - `error`: the error of a failed append, by stage, and its short labels.
//! - `clock`: the time read from the real-time clock, as file timestamps.
//! - `text`: the log file name, the log line and the display texts.
//! - `gauge`: geometry of the accelerometer bars and the frame rate.
//! - `blink`: the light signals of a Morse message.

pub mod blink;
pub mod clock;
pub mod error;
pub mod gauge;
pub mod laws;
pub mod session;
pub mod text;
