//! The events that travel through a tree of panels.

use vstd::prelude::*;

verus! {

/// The extent of a frame, in whole units of the rendering backend.
#[derive(Clone, Copy, Debug, PartialEq, Eq, Hash, Structural)]
pub struct Size {
    pub width: u32,
    pub height: u32,
}

/// Whether a button of a pointing device went down or came up.
#[derive(Clone, Copy, Debug, PartialEq, Eq, Hash, Structural)]
pub enum ElementState {
    Pressed,
    Released,
}

/// A button of a pointing device.
#[derive(Clone, Copy, Debug, PartialEq, Eq, Hash, Structural)]
pub enum MouseButton {
    Left,
    Right,
    Middle,
    Other(u16),
}

/// One occurrence at the level of the interface. Events are plain values:
/// every recipient of an occurrence sees an equal copy.
#[derive(Clone, Copy, Debug, PartialEq, Eq, Hash, Structural)]
pub enum PanelEvent {
    /// The panel's frame has a new size.
    Resized(Size),
    /// A button of the pointing device changed state; `in_slot` says whether
    /// the pointer was inside the panel at that moment.
    MouseInput { in_slot: bool, state: ElementState, button: MouseButton },
    /// Any other occurrence, named by a number that the application chooses.
    Other(u32),
}

/// Which layers of a stack an event is meant for.
#[derive(Clone, Copy, Debug, PartialEq, Eq, Hash, Structural)]
pub enum Route {
    /// Every layer, from the topmost down.
    AllLayers,
    /// The topmost layer and no other.
    TopLayer,
}

impl PanelEvent {
    /// Pointer input belongs to the topmost layer alone; everything else is
    /// for all layers.
    pub open spec fn route(self) -> Route {
        match self {
            PanelEvent::MouseInput { .. } => Route::TopLayer,
            _ => Route::AllLayers,
        }
    }

    /// The size that the receiving panel's own frame is to take before the
    /// event travels on, if the event brings one.
    pub open spec fn new_size(self) -> Option<Size> {
        match self {
            PanelEvent::Resized(size) => Some(size),
            _ => None,
        }
    }

    /// Computes [`PanelEvent::route`].
    pub fn routing(&self) -> (route: Route)
        ensures
            route == self.route(),
    {
        match self {
            PanelEvent::MouseInput { .. } => Route::TopLayer,
            _ => Route::AllLayers,
        }
    }

    /// Computes [`PanelEvent::new_size`].
    pub fn resized_to(&self) -> (size: Option<Size>)
        ensures
            size == self.new_size(),
    {
        match self {
            PanelEvent::Resized(size) => Some(*size),
            _ => None,
        }
    }
}

} // verus!
