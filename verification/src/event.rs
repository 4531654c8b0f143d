//! Window events, and what the event loop does about each of them.

use vstd::prelude::*;
use crate::input::InputState;
use crate::renderer::{FrameRenderer, RendererState};
use crate::surface::ChainAction;

verus! {

/// The keys that mean something to the event loop.
#[derive(Clone, Copy, Debug, PartialEq, Eq, Structural)]
pub enum Key {
    Escape,
    Space,
    Other,
}

/// A window event, reduced to what the event loop reads of it. Positions are
/// in millionths of a pixel, sizes in pixels.
#[derive(Clone, Copy, Debug, PartialEq, Eq, Structural)]
pub enum InputEvent {
    CloseRequested,
    CursorMoved { x: i64, y: i64 },
    KeyPressed(Key),
    KeyReleased(Key),
    Resized { width: u32, height: u32 },
    ScaleFactorChanged { width: u32, height: u32 },
    Other,
}

/// What the event loop has to do after an event.
#[derive(Clone, Copy, Debug, PartialEq, Eq, Structural)]
pub enum Reaction {
    /// Go on, after doing to the chain what the action says.
    Proceed(ChainAction),
    /// Leave the loop.
    Exit,
}

/// Whether an event ends the loop: a request to close the window, or the
/// escape key going down.
pub open spec fn ends_loop(event: InputEvent) -> bool {
    event == InputEvent::CloseRequested || event == InputEvent::KeyPressed(Key::Escape)
}

/// The input state after an event: the pointer follows the cursor, and the
/// space key going down flips the pipeline toggle.
pub open spec fn input_after(input: InputState, event: InputEvent) -> InputState {
    match event {
        InputEvent::CursorMoved { x, y } => InputState { cursor_x: x, cursor_y: y, ..input },
        InputEvent::KeyPressed(Key::Space) => InputState {
            alternate_pipeline: !input.alternate_pipeline,
            ..input
        },
        _ => input,
    }
}

/// The renderer after an event: a new size of the window, whatever brought it
/// about, is a resize.
pub open spec fn renderer_after(renderer: RendererState, event: InputEvent) -> RendererState {
    match event {
        InputEvent::Resized { width, height } => renderer.resized(width, height),
        InputEvent::ScaleFactorChanged { width, height } => renderer.resized(width, height),
        _ => renderer,
    }
}

/// What the event loop has to do after an event.
pub open spec fn reaction_to(renderer: RendererState, event: InputEvent) -> Reaction {
    if ends_loop(event) {
        Reaction::Exit
    } else {
        match event {
            InputEvent::Resized { width, height } => Reaction::Proceed(
                renderer.resize_action(width, height),
            ),
            InputEvent::ScaleFactorChanged { width, height } => Reaction::Proceed(
                renderer.resize_action(width, height),
            ),
            _ => Reaction::Proceed(ChainAction::Keep),
        }
    }
}

/// Handles one window event. The renderer is offered the event first; what it
/// does not consume moves the pointer, flips the toggle, resizes the surface
/// or ends the loop.
pub fn dispatch(renderer: &mut FrameRenderer, input: &mut InputState, event: InputEvent) -> (reaction:
    Reaction)
    ensures
        reaction == reaction_to(old(renderer)@, event),
        final(renderer)@ == renderer_after(old(renderer)@, event),
        *final(input) == input_after(*old(input), event),
{
    if renderer.input(&event) {
        return Reaction::Proceed(ChainAction::Keep);
    }
    match event {
        InputEvent::CloseRequested => Reaction::Exit,
        InputEvent::CursorMoved { x, y } => {
            input.move_cursor(x, y);
            Reaction::Proceed(ChainAction::Keep)
        },
        InputEvent::KeyPressed(Key::Escape) => Reaction::Exit,
        InputEvent::KeyPressed(Key::Space) => {
            input.toggle_pipeline();
            Reaction::Proceed(ChainAction::Keep)
        },
        InputEvent::Resized { width, height } => Reaction::Proceed(renderer.resize(width, height)),
        InputEvent::ScaleFactorChanged { width, height } => Reaction::Proceed(
            renderer.resize(width, height),
        ),
        _ => Reaction::Proceed(ChainAction::Keep),
    }
}

} // verus!
