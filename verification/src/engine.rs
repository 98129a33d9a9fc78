//! What the frame loop does with each event the window system delivers.
use vstd::prelude::*;

verus! {

/// An event of the window.
#[derive(Clone, Copy, Debug, PartialEq, Eq, Structural)]
pub enum WindowEventKind {
    /// The user asked to close the window.
    CloseRequested,
    /// The window's drawable area changed to `width` x `height` pixels.
    Resized { width: u32, height: u32 },
    /// The window asks to be drawn.
    RedrawRequested,
    /// Anything else the window reports.
    Other,
}

/// An event of the event loop.
#[derive(Clone, Copy, Debug, PartialEq, Eq, Structural)]
pub enum LoopEvent {
    /// An event of a window; `ours` tells whether it is the engine's window.
    Window { ours: bool, event: WindowEventKind },
    /// The loop is about to wait for new events.
    AboutToWait,
    /// Anything else the loop reports.
    Other,
}

/// What the engine does in answer.
#[derive(Clone, Copy, Debug, PartialEq, Eq, Structural)]
pub enum LoopAction {
    /// Leave the event loop.
    Exit,
    /// Hand the new size to the game, then ask for a redraw.
    ResizeAndRedraw { width: u32, height: u32 },
    /// Measure the time since the last frame, update the game by it, render a frame.
    RunFrame,
    /// Ask the window for a redraw.
    RequestRedraw,
    /// Nothing.
    Ignore,
}

/// The engine's answer to `event`.
pub open spec fn loop_action(event: LoopEvent) -> LoopAction {
    match event {
        LoopEvent::Window { ours, event } => if !ours {
            LoopAction::Ignore
        } else {
            match event {
                WindowEventKind::CloseRequested => LoopAction::Exit,
                WindowEventKind::Resized { width, height } => LoopAction::ResizeAndRedraw { width, height },
                WindowEventKind::RedrawRequested => LoopAction::RunFrame,
                WindowEventKind::Other => LoopAction::Ignore,
            }
        },
        LoopEvent::AboutToWait => LoopAction::RequestRedraw,
        LoopEvent::Other => LoopAction::Ignore,
    }
}

/// Runs a game: opens the window and drives the frame loop.
pub struct EngineRunner;

impl EngineRunner {
    /// The engine's answer to one event of the event loop: events of other windows are
    /// ignored; a close request ends the loop; a resize goes to the game and asks for a
    /// redraw; a redraw request runs one frame; and whenever the loop is about to
    /// wait, a redraw is asked for, so that frames keep coming.
    pub fn decide(event: LoopEvent) -> (action: LoopAction)
        ensures
            action == loop_action(event),
    {
        match event {
            LoopEvent::Window { ours, event } => {
                if !ours {
                    LoopAction::Ignore
                } else {
                    match event {
                        WindowEventKind::CloseRequested => LoopAction::Exit,
                        WindowEventKind::Resized { width, height } => LoopAction::ResizeAndRedraw {
                            width,
                            height,
                        },
                        WindowEventKind::RedrawRequested => LoopAction::RunFrame,
                        WindowEventKind::Other => LoopAction::Ignore,
                    }
                }
            },
            LoopEvent::AboutToWait => LoopAction::RequestRedraw,
            LoopEvent::Other => LoopAction::Ignore,
        }
    }
}

} // verus!
