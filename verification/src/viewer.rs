//! How the viewer window answers the events of its event loop.
use vstd::prelude::*;

verus! {

/// A window event, reduced to what the viewer decides on.
#[derive(Clone, Copy, Debug, PartialEq, Eq, Structural)]
pub enum WindowEventKind {
    CloseRequested,
    Resized { width: u32, height: u32 },
    RedrawRequested,
    /// A key with a known physical code was pressed or released.
    Key { pressed: bool },
    Other,
}

/// What the viewer does about a window event.
#[derive(Clone, Copy, Debug, PartialEq, Eq, Structural)]
pub enum WindowAction {
    /// Leave the event loop.
    Exit,
    /// Resize the render surface.
    Resize { width: u32, height: u32 },
    /// Update the scene, then render it (leaving the loop if rendering fails).
    Redraw,
    /// Hand the key to the scene.
    Key { pressed: bool },
    /// Nothing.
    Ignore,
}

/// The action for event `e`; until the render state exists every event is ignored.
pub open spec fn window_action_spec(has_state: bool, e: WindowEventKind) -> WindowAction {
    if !has_state {
        WindowAction::Ignore
    } else {
        match e {
            WindowEventKind::CloseRequested => WindowAction::Exit,
            WindowEventKind::Resized { width, height } => WindowAction::Resize { width, height },
            WindowEventKind::RedrawRequested => WindowAction::Redraw,
            WindowEventKind::Key { pressed } => WindowAction::Key { pressed },
            WindowEventKind::Other => WindowAction::Ignore,
        }
    }
}

/// Decides what the viewer does about window event `e`, where `has_state`
/// tells whether the render state has been created yet.
pub fn window_action(has_state: bool, e: WindowEventKind) -> (a: WindowAction)
    ensures
        a == window_action_spec(has_state, e),
        !has_state ==> a == WindowAction::Ignore,
        forall|p: bool|
            has_state && e == (WindowEventKind::Key { pressed: p }) ==> a == (WindowAction::Key {
                pressed: p,
            }),
{
    if !has_state {
        return WindowAction::Ignore;
    }
    match e {
        WindowEventKind::CloseRequested => WindowAction::Exit,
        WindowEventKind::Resized { width, height } => WindowAction::Resize { width, height },
        WindowEventKind::RedrawRequested => WindowAction::Redraw,
        WindowEventKind::Key { pressed } => WindowAction::Key { pressed },
        WindowEventKind::Other => WindowAction::Ignore,
    }
}

/// Before the render state exists every event is ignored. Once it exists, a
/// close request exits, a resize is passed on with its own size, a redraw
/// request redraws, a key is passed on with its own pressed flag, and any
/// other event is ignored.
pub proof fn lemma_window_actions(e: WindowEventKind, width: u32, height: u32, pressed: bool)
    ensures
        window_action_spec(false, e) == WindowAction::Ignore,
        window_action_spec(true, WindowEventKind::CloseRequested) == WindowAction::Exit,
        window_action_spec(true, WindowEventKind::Resized { width, height })
            == (WindowAction::Resize { width, height }),
        window_action_spec(true, WindowEventKind::RedrawRequested) == WindowAction::Redraw,
        window_action_spec(true, WindowEventKind::Key { pressed }) == (WindowAction::Key {
            pressed,
        }),
        window_action_spec(true, WindowEventKind::Other) == WindowAction::Ignore,
{
}

} // verus!
