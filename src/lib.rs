//! DualSense controller library: report codec, output framing, profiles and
//! the decision logic around a controller connection.

pub mod dualsense;
pub mod error;
pub mod report;
pub mod output;
pub mod connection;
pub mod text;
pub mod profile;
pub mod executor;
pub mod spatial;
