//! The graphics context: the outcome of negotiating a device with the platform.

use vstd::prelude::*;
use crate::surface::PixelFormat;

verus! {

/// What the platform answered when asked for an adapter that can present to the
/// surface target, and then for a device with one command queue.
#[derive(Clone, Copy, Debug, PartialEq, Eq, Structural)]
pub enum Negotiation {
    /// No adapter can present to the surface target.
    NoAdapter,
    /// An adapter was found, but it granted no device.
    NoDevice,
    /// A device and its queue were granted; the adapter prefers this pixel
    /// format for the surface target.
    Granted { preferred_format: PixelFormat },
}

/// Why no context came to be.
#[derive(Clone, Copy, Debug, PartialEq, Eq, Structural)]
pub enum ContextError {
    /// No compatible adapter or device exists.
    DeviceUnavailable,
}

/// The device and queue that were granted. A context is made once and is never
/// made anew: whoever holds one holds the only device of the process.
#[derive(Debug)]
pub struct GraphicsContext {
    preferred_format: PixelFormat,
}

impl GraphicsContext {
    /// The pixel format that the adapter prefers for the surface target.
    pub closed spec fn format(&self) -> PixelFormat {
        self.preferred_format
    }

    /// Accepts the outcome of the negotiation: a context where a device was
    /// granted, `DeviceUnavailable` where the adapter or the device is missing.
    pub fn initialize(negotiation: Negotiation) -> (result: Result<GraphicsContext, ContextError>)
        ensures
            match negotiation {
                Negotiation::Granted { preferred_format } => result is Ok
                    && result->Ok_0.format() == preferred_format,
                _ => result == Err::<GraphicsContext, ContextError>(
                    ContextError::DeviceUnavailable,
                ),
            },
    {
        match negotiation {
            Negotiation::Granted { preferred_format } => Ok(GraphicsContext { preferred_format }),
            Negotiation::NoAdapter => Err(ContextError::DeviceUnavailable),
            Negotiation::NoDevice => Err(ContextError::DeviceUnavailable),
        }
    }

    /// The pixel format that the adapter prefers for the surface target.
    pub fn preferred_format(&self) -> (format: PixelFormat)
        ensures
            format == self.format(),
    {
        self.preferred_format
    }
}

} // verus!
