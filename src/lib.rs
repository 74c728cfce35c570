//! A window-decoration title bar: the layout of its buttons, hit testing
//! against that layout, and the list of solid rectangles that draw it.

pub mod color;
pub mod geometry;
pub mod top_bar;

pub use color::{Rgba, SolidColorBuffer};
pub use geometry::{Point, Rectangle, Size};
pub use top_bar::{DrawPrimitive, Role, TopBar};
