//! Panels, their events, and the widgets that route them.

pub mod bus;
pub mod button;
pub mod dispatch;
pub mod event;
pub mod identity;
pub mod keeper;
pub mod layer_stack;
pub mod skin;
pub mod surface;

pub use bus::{share, Bus, Provenance};
pub use button::{
    Button, ButtonCourse, ButtonDispatch, ButtonEvent, ButtonParams, ButtonSkin, ButtonStage,
};
pub use dispatch::Step;
pub use event::{ElementState, MouseButton, PanelEvent, Route, Size};
pub use identity::{Identity, IdentitySource};
pub use keeper::{Keeper, Tag};
pub use layer_stack::{LayerStack, LayerStackParams, StackCourse, StackDispatch};
pub use skin::{SimpleButtonSkin, SkinColor};
pub use surface::{Surface, SurfaceCourse, SurfaceDispatch, SurfaceEvent, SurfaceStage};
