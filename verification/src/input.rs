//! The input state that drives a frame. It belongs to whoever runs the event
//! loop; a renderer only ever reads it.

use vstd::prelude::*;
use crate::color::RawColor;
use crate::pipeline::{selected, PipelineKey};

verus! {

/// What the outside world last said: which pipeline is wanted, and where the
/// pointer is, in millionths of a pixel.
#[derive(Clone, Copy, Debug, PartialEq, Eq, Structural)]
pub struct InputState {
    pub alternate_pipeline: bool,
    pub cursor_x: i64,
    pub cursor_y: i64,
}

impl InputState {
    /// The components that the pointer's position stands for, before
    /// wrapping: red follows x, green follows y, blue their sum.
    pub open spec fn raw_color(&self) -> RawColor {
        RawColor {
            r: self.cursor_x as i128,
            g: self.cursor_y as i128,
            b: (self.cursor_x + self.cursor_y) as i128,
        }
    }

    /// The state before any event: the default pipeline, the pointer at the
    /// origin.
    pub fn new() -> (state: InputState)
        ensures
            state == (InputState { alternate_pipeline: false, cursor_x: 0, cursor_y: 0 }),
    {
        InputState { alternate_pipeline: false, cursor_x: 0, cursor_y: 0 }
    }

    /// Flips the pipeline toggle.
    pub fn toggle_pipeline(&mut self)
        ensures
            *final(self) == (InputState {
                alternate_pipeline: !old(self).alternate_pipeline,
                ..*old(self)
            }),
    {
        self.alternate_pipeline = !self.alternate_pipeline;
    }

    /// Records the pointer's position.
    pub fn move_cursor(&mut self, x: i64, y: i64)
        ensures
            *final(self) == (InputState { cursor_x: x, cursor_y: y, ..*old(self) }),
    {
        self.cursor_x = x;
        self.cursor_y = y;
    }

    /// The pipeline that the toggle selects.
    pub fn active_pipeline(&self) -> (key: PipelineKey)
        ensures
            key == selected(self.alternate_pipeline),
    {
        PipelineKey::select(self.alternate_pipeline)
    }

    /// The components that the pointer's position stands for, before wrapping.
    pub fn clear_input(&self) -> (raw: RawColor)
        ensures
            raw == self.raw_color(),
    {
        let x: i128 = self.cursor_x as i128;
        let y: i128 = self.cursor_y as i128;
        RawColor { r: x, g: y, b: x + y }
    }
}

} // verus!
