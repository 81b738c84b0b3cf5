//! Core of a reactive user-interface toolkit.
//!
//! The library keeps a tree of visual primitives, routes host events through
//! that tree, collects the application messages that listeners produce, and
//! decides per cycle whether the tree must be rebuilt, patched in place, or
//! left untouched.  A deterministic, time-based interpolation type animates
//! scalar properties across frames.
//!
//! All geometry is measured in integer units and transforms are integer
//! affine matrices, so every computation here is exact and deterministic.

pub mod arith;
pub mod animation;
pub mod comp;
pub mod controller;
pub mod event;
pub mod keyboard;
pub mod listener;
pub mod model;
pub mod mouse;
pub mod node;
pub mod padding;
pub mod shape;
pub mod transform;
pub mod view;

pub use animation::Animate;
pub use comp::Comp;
pub use controller::{Acceleration, AppState, Buffering};
pub use event::{InputEvent, SystemMessage};
pub use keyboard::{KeyboardController, KeyboardEvent, VirtualKeyCode};
pub use listener::{EventName, Firing, Handler, Listener};
pub use model::Model;
pub use mouse::{MouseButton, MouseController, MouseDown, MousePos, MouseScroll};
pub use node::{Message, Prim};
pub use padding::Padding;
pub use shape::{
    Circle, Clip, ClipRect, Color, Fill, Group, LineCap, LineJoin, Path, PathCommand, Rect, Shape,
    Stroke, Text, GEOM_LIMIT,
};
pub use transform::{translate, Transform, TransformMatrix};
pub use view::{ChangeView, UpdateView};
