//! Composition-surface plugin core: the session context, its diagnostic dump
//! and the handle-checked entry points that a host drives.

pub mod context;
pub mod numeral;
pub mod plugin;
pub mod text;

pub use context::{CompSurfContext, ContextView, LoaderFunction, NativeWindow, VERSION};
pub use plugin::{
    comp_surf_de_initialize, comp_surf_draw_frame, comp_surf_initialize, comp_surf_load_functions,
    comp_surf_resize, comp_surf_run_task, comp_surf_version,
};
