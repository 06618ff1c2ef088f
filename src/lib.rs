//! Region selection and crop geometry for an interactive screen-capture tool.
//!
//! The library holds the logic of a capture workflow: the session state
//! machine, the selection rectangle, the crop overlay with its draggable
//! edges, and the conversions between monitor, texture and display space.
//! Coordinates are whole pixels; texture coordinates are fixed point.
pub mod geometry;
pub mod transform;
pub mod handle;
pub mod overlay;
pub mod keys;
pub mod capture;
pub mod session;
