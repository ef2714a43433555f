//! Common re-exports for convenient usage.

pub use crate::diagnostics::{DiagnosticsReport, Severity};
pub use crate::state::{
    EntityId, GameViewportRect, InspectorEnabled, InspectorSelection, SelectedEntities, UiState,
};
pub use crate::tabs::{BuiltinTab, DockPosition, InspectorTabRegistry, Tab, TabMeta};
pub use crate::viewport::egui_pointer_over_area;
