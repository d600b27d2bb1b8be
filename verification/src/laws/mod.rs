//! What the library promises of its calls.
//!
//! Each law speaks of what a call was handed, what it gave back and what it
//! left behind, in plain terms, and holds of every such call.

pub mod attaching;
pub mod drawing;
pub mod events;
pub mod failures;
pub mod frames;
pub mod imports;
pub mod linux;
pub mod macos;
pub mod pool;
pub mod properties;
pub mod setup;
pub mod text;
pub mod transport;
pub mod windows;
