//! An infinite-canvas note board: draggable, resizable text blocks on a
//! pannable two-dimensional surface, backed by a block store that is
//! queryable by spatial bounding box.
//!
//! World coordinates are integer world units. The GUI shell converts its
//! screen-space floating-point coordinates at the boundary and keeps them
//! within the world range.

pub mod app;
pub mod block;
pub mod geom;
pub mod persistor;
pub mod state;
pub mod text_edit;
pub mod view;
