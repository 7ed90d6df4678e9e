//! The event-routing core of a layered panel user interface.
//!
//! A panel is a node of the interface with a stable [`gui::Identity`]. Panels
//! are composed into a [`gui::LayerStack`], which decides for every
//! [`gui::PanelEvent`] which of its layers receive it and in what order. The
//! widgets here ([`gui::Button`], [`gui::Surface`], [`gui::SimpleButtonSkin`])
//! never draw and never wait: each answers an event with a *dispatch*, a small
//! state machine that tells its driver the next thing to do (resize a frame,
//! hand the event to a child, await an event that was put on an outward
//! stream) and is told in turn whether that thing failed.
//!
//! What a widget has routed or made goes out on a [`gui::Bus`], a stream with
//! any number of subscribers. State that other tasks must reach is owned by a
//! [`gui::Keeper`] and reached through its [`gui::Tag`]s.

pub mod error;
pub mod gui;

pub use error::{on_err, Error};
