//! Core of a desktop image viewer with rectangular annotations.
//!
//! The library holds the annotation state machine: a background image,
//! a list of committed rectangles, an in-progress rectangle tracked
//! across a press/drag/release gesture, and the currently selected
//! color.  Pointer events drive state transitions, and the renderer
//! turns a state into an ordered list of drawing commands.  Window
//! construction, file dialogs and the actual painting belong to the
//! GUI shell around the library.

pub mod color;
pub mod image;
pub mod messages;
pub mod models;
pub mod render;
