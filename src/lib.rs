//! Rendering of calendar values into text, driven either by a tree of format
//! items or by one of the well-known formats (RFC 2822, RFC 3339, ISO 8601).

pub mod digits;
pub mod error;
pub mod value;
pub mod modifier;
pub mod component;
pub mod render;
pub mod item;
pub mod well_known;
pub mod iso8601;
pub mod formattable;
