//! Toolkit-agnostic core for embedding libmpv: engine state, commands,
//! properties, typed playback events, and the render seams with their pool of
//! exportable frames.
//!
//! Everything here decides; nothing here talks to mpv, a GPU or the system. A
//! call says what to issue, the program around this library issues it, and
//! what came back goes into the next call. So what is proved here holds for
//! every answer that mpv, a driver or the kernel can give.

pub mod engine;
pub mod error;
pub mod event;
pub mod export;
pub mod laws;
pub mod property;
pub mod render;
mod sealed;
pub mod text;

pub use engine::{Engine, EngineBuilder};
pub use error::{Error, MpvError};
pub use event::{EndReason, EventPump, MpvEvent, ObserveId, PlaybackEvent};
pub use export::frame::ExportedFrame;
pub use export::{pack_size, unpack_size, ExportOptions};
pub use property::{Double, PropertyFormat, PropertyGet, PropertyValue};
pub use render::{GlRenderOptions, RenderKind};
