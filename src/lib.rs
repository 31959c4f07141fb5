//! Live audio capture feeding a speech recognizer.
//!
//! - [`negotiate`] ranks the stream configurations a device reports and
//!   derives the sample rate and buffer size to request.
//! - [`device`] chooses the capture device.
//! - [`samples`] lays 16-bit samples out as bytes and reads them back.
//! - [`session`] decides, step by step, how a capture session starts and
//!   stops, and when delivered audio reaches the recognizer.
pub mod config;
pub mod device;
pub mod negotiate;
pub mod samples;
pub mod session;
