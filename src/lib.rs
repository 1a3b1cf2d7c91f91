//! A registry that decides, for each structural element of a text table
//! (borders, intersections, corners, separator lines), which single
//! character is drawn for it, if any.

pub mod component;
pub mod laws;
pub mod presets;
pub mod table;

pub use component::{Component, COMPONENT_COUNT};
pub use table::{ContentArrangement, TableStyle};
