//! Host event dispatch.
//!
//! The window system's events are reduced to plain kinds by the host;
//! this module decides what each kind means for the renderer: closing
//! or pressing escape terminates the loop, a resize reconfigures, a
//! redraw request starts a frame, and everything else is ignored.

use vstd::prelude::*;

verus! {

/// A window-system event, reduced to what the renderer reacts to.
#[derive(Clone, Copy, Debug, PartialEq, Eq, Structural)]
pub enum WindowEventKind {
    /// The window was asked to close.
    CloseRequested,
    /// The escape key was pressed.
    EscapePressed,
    /// The window was resized to the given physical size.
    Resized(u32, u32),
    /// The window asked to be redrawn.
    RedrawRequested,
    /// Any other event.
    Other,
}

/// What the host loop does in response.
#[derive(Clone, Copy, Debug, PartialEq, Eq, Structural)]
pub enum HostAction {
    /// Terminate the event loop.
    Exit,
    /// Resize the renderer to the given physical size.
    Resize(u32, u32),
    /// Run one frame.
    Redraw,
    /// Do nothing.
    Ignore,
}

/// The dispatch table for window events.
pub open spec fn dispatch_spec(event: WindowEventKind) -> HostAction {
    match event {
        WindowEventKind::CloseRequested => HostAction::Exit,
        WindowEventKind::EscapePressed => HostAction::Exit,
        WindowEventKind::Resized(w, h) => HostAction::Resize(w, h),
        WindowEventKind::RedrawRequested => HostAction::Redraw,
        WindowEventKind::Other => HostAction::Ignore,
    }
}

/// Decides the host's response to one window event.
pub fn dispatch_window_event(event: WindowEventKind) -> (r: HostAction)
    ensures
        r == dispatch_spec(event),
{
    match event {
        WindowEventKind::CloseRequested => HostAction::Exit,
        WindowEventKind::EscapePressed => HostAction::Exit,
        WindowEventKind::Resized(w, h) => HostAction::Resize(w, h),
        WindowEventKind::RedrawRequested => HostAction::Redraw,
        WindowEventKind::Other => HostAction::Ignore,
    }
}

} // verus!
