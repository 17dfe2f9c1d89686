use vstd::prelude::*;

verus! {

/// The application shell's two-phase lifecycle: nothing per-frame is
/// reachable until the window and the render state exist.
#[derive(Clone, Copy, PartialEq, Eq, Structural, Debug)]
pub enum ShellPhase {
    /// No window and no render state yet.
    Uninitialized,
    /// Window and render state exist; per-frame events may be
    /// handled.
    Ready,
}

/// The shell's own state.
#[derive(Clone, Copy, PartialEq, Eq, Structural, Debug)]
pub struct Shell {
    /// Where the shell stands in its lifecycle.
    pub phase: ShellPhase,
}

/// A window event, reduced to what the dispatch rules read.
#[derive(Clone, Copy, PartialEq, Eq, Structural, Debug)]
pub enum WindowEventKind {
    /// The user asked to close the window.
    CloseRequested,
    /// The window was resized to the carried pixel size.
    Resized(u32, u32),
    /// The window wants to be redrawn.
    RedrawRequested,
    /// Any other event.
    Other,
}

/// What the shell does with one window event.
#[derive(Clone, Copy, PartialEq, Eq, Structural, Debug)]
pub enum EventAction {
    /// Leave the event loop.
    Exit,
    /// Resize the render state to the carried size.
    Resize(u32, u32),
    /// Run one frame: exactly one update, then one render.
    RunFrame,
    /// Nothing to do.
    Ignore,
}

impl Shell {
    /// A shell that has not created its window yet.
    pub fn new() -> (s: Shell)
        ensures
            s.phase == ShellPhase::Uninitialized,
    {
        Shell { phase: ShellPhase::Uninitialized }
    }

    /// Handles the event loop's resume: the first resume creates the
    /// window and the render state — signalled by the result — and
    /// every later one changes nothing.
    pub fn on_resumed(&mut self) -> (create: bool)
        ensures
            final(self).phase == ShellPhase::Ready,
            create == (old(self).phase == ShellPhase::Uninitialized),
    {
        let create = match self.phase {
            ShellPhase::Uninitialized => true,
            ShellPhase::Ready => false,
        };
        self.phase = ShellPhase::Ready;
        create
    }
}

/// Decides what one window event means for the renderer: an event
/// the camera controller consumed is over; otherwise a close request
/// exits, a resize is forwarded with its size, a redraw request runs
/// exactly one frame, and everything else is ignored.
pub fn dispatch_event(consumed: bool, event: WindowEventKind) -> (a: EventAction)
    ensures
        consumed ==> a == EventAction::Ignore,
        !consumed ==> a == (match event {
            WindowEventKind::CloseRequested => EventAction::Exit,
            WindowEventKind::Resized(w, h) => EventAction::Resize(w, h),
            WindowEventKind::RedrawRequested => EventAction::RunFrame,
            WindowEventKind::Other => EventAction::Ignore,
        }),
{
    if consumed {
        EventAction::Ignore
    } else {
        match event {
            WindowEventKind::CloseRequested => EventAction::Exit,
            WindowEventKind::Resized(w, h) => EventAction::Resize(w, h),
            WindowEventKind::RedrawRequested => EventAction::RunFrame,
            WindowEventKind::Other => EventAction::Ignore,
        }
    }
}

} // verus!
