//! Model and verified core of a dockable developer-inspector panel:
//! panel visibility, selection state, dock layout construction, tab
//! registration, entity picking, viewport reconciliation, diagnostics
//! classification and hierarchy search.
//!
//! Geometry is modelled over integer coordinates; the windowing and
//! rendering layers convert at the boundary.

pub mod diagnostics;
pub mod dock;
pub mod hierarchy;
pub mod picking;
pub mod prelude;
pub mod state;
pub mod tabs;
pub mod text;
pub mod viewport;
