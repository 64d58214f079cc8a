//! Floating "tool window" panels for an immediate-mode GUI: a per-frame
//! window manager that tracks position, size, collapse state, drag state,
//! and a z-order stack for a set of floating panels drawn inside one parent
//! region, with state persisted across frames by the caller.
//!
//! Geometry is modelled in integer coordinates; the rendering shell converts
//! to and from the GUI toolkit's own units at the edge.

pub mod builder;
pub mod geometry;
pub mod manager;
pub mod stack;
pub mod table_data;
pub mod window;
