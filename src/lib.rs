//! A 2D rendering context core: a save/restore stack of transforms and clip
//! rectangles, a table of per-draw primitive records that tessellated vertices
//! point into, vector-image replay, single-line text layout, and the plan of a
//! frame's GPU submission. Geometry is in integer units.

pub mod geom;
pub mod tess;
pub mod context;
pub mod image;
pub mod laws;
pub mod text;
pub mod frame;
