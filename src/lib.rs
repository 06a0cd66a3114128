//! A layer compositing engine: an ordered stack of image layers on a canvas,
//! the selection among them, and two kept drawings (the background and the
//! layer composite) that are drawn anew only when they go stale.

pub mod cache;
pub mod canvas;
pub mod editor;
pub mod error;
pub mod geometry;
pub mod layer;

pub use canvas::{CanvasState, Drawing, Fill, Placement, BACKGROUND_RGBA};
pub use editor::{Action, Message, Roygbiv};
pub use error::Error;
pub use geometry::{Rect, Size, MARGIN};
pub use layer::Layer;
