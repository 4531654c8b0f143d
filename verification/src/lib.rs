//! The decisions of a windowed renderer, kept apart from the graphics stack that
//! carries them out: what the presentation surface holds after a resize or a
//! lost chain, which pipeline and clear colour a frame uses, which commands one
//! frame records, and when rendering has to stop for good.
//!
//! Nothing here talks to a device. The caller performs each step on the
//! platform and reports what came back; every function says exactly what it
//! answers for every report.

pub mod color;
pub mod context;
pub mod surface;
pub mod vertex;
pub mod pipeline;
pub mod event;
pub mod frame;
pub mod input;
pub mod renderer;
