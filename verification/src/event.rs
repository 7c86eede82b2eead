//! The events of the window and what the event loop does on each.

use crate::surface::PhysicalSize;
use vstd::prelude::*;

verus! {

/// An event of the window that is rendered into.
#[derive(Clone, Copy, Debug, PartialEq, Eq, Structural)]
pub enum WindowEvent {
    /// The window has a new size.
    Resized(PhysicalSize),
    /// The scale factor of the window has changed, and with it its size.
    ScaleFactorChanged { new_inner_size: PhysicalSize },
    /// The cursor has moved over the window.
    CursorMoved,
    /// The user asked for the window to be closed.
    CloseRequested,
    /// A key was pressed or released.
    KeyboardInput { pressed: bool, escape: bool },
    /// Any other event of the window.
    Other,
}

/// An event that the event loop hands out.
#[derive(Clone, Copy, Debug, PartialEq, Eq, Structural)]
pub enum Event {
    /// The window is to be drawn again.
    RedrawRequested,
    /// Every event that was waiting has been handed out.
    MainEventsCleared,
    /// An event of the window.
    Window(WindowEvent),
    /// Any other event, those of other windows among them.
    Other,
}

/// What the event loop does on an event.
#[derive(Clone, Copy, Debug, PartialEq, Eq, Structural)]
pub enum Reaction {
    /// Update the state and render a frame.
    Render,
    /// Ask for the window to be drawn again.
    RequestRedraw,
    /// Set the clear colour from the place of the cursor, then ask for the
    /// window to be drawn again.
    Recolor,
    /// Resize the surface.
    Resize(PhysicalSize),
    /// Leave the event loop.
    Exit,
    /// Nothing.
    Ignore,
}

/// What the event loop does on `event`: it renders when a redraw is asked
/// for, asks for a redraw when it has nothing else to do and when the
/// cursor moves, follows the size of the window, and leaves when the window
/// is closed or Escape is pressed.
pub open spec fn reaction_to(event: Event) -> Reaction {
    match event {
        Event::RedrawRequested => Reaction::Render,
        Event::MainEventsCleared => Reaction::RequestRedraw,
        Event::Window(WindowEvent::CursorMoved) => Reaction::Recolor,
        Event::Window(WindowEvent::Resized(size)) => Reaction::Resize(size),
        Event::Window(WindowEvent::ScaleFactorChanged { new_inner_size }) => Reaction::Resize(
            new_inner_size,
        ),
        Event::Window(WindowEvent::CloseRequested) => Reaction::Exit,
        Event::Window(WindowEvent::KeyboardInput { pressed, escape }) => if pressed && escape {
            Reaction::Exit
        } else {
            Reaction::Ignore
        },
        Event::Window(WindowEvent::Other) => Reaction::Ignore,
        Event::Other => Reaction::Ignore,
    }
}

/// Decides what the event loop does on `event`.
pub fn dispatch(event: &Event) -> (reaction: Reaction)
    ensures
        reaction == reaction_to(*event),
{
    match event {
        Event::RedrawRequested => Reaction::Render,
        Event::MainEventsCleared => Reaction::RequestRedraw,
        Event::Window(window_event) => match window_event {
            WindowEvent::CursorMoved => Reaction::Recolor,
            WindowEvent::Resized(size) => Reaction::Resize(*size),
            WindowEvent::ScaleFactorChanged { new_inner_size } => Reaction::Resize(*new_inner_size),
            WindowEvent::CloseRequested => Reaction::Exit,
            WindowEvent::KeyboardInput { pressed: true, escape: true } => Reaction::Exit,
            _ => Reaction::Ignore,
        },
        Event::Other => Reaction::Ignore,
    }
}

} // verus!
