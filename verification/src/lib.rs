//! Verified core logic of a small real-time rendering engine: interval
//! arithmetic, UI property description and setting, light buffer layouts,
//! padded image buffers, image decoding, and the input handling of the
//! camera, the gizmo and the settings window.

pub mod math_helpers;
pub mod float_values;
pub mod light_layout;
pub mod paths;
pub mod ui_display;
pub mod ui_setting;
pub mod time;
pub mod gui;
pub mod gui_registry;
pub mod frame_timer;
pub mod model;
pub mod image_buffers;
pub mod events;
pub mod ui_types;
pub mod serialization;
pub mod window_events;
pub mod light_render_data;
pub mod gbuffer_pipelines;
pub mod gizmo;
pub mod gizmo_handler;
pub mod input;
pub mod camera;
pub mod sample_settings;
pub mod file_loader;
