//! Embed an iced user interface rendered with wgpu into a native view
//! hierarchy: redraw signalling between the user interface and the
//! platform's render loop, touch and cursor input tracking, and the
//! decisions the render loop makes each frame.
pub mod diagnostics;
pub mod frame;
pub mod input;
pub mod notifier;
pub mod redraw_flag;
pub mod surface;
pub mod touch;
pub mod viewport;

pub use diagnostics::Diagnostics;
pub use frame::{frame_needs_redraw, retry_after_surface_failure, ui_needs_redraw, RedrawTiming, SurfaceFailure, UiStatus};
pub use input::{Cursor, InputQueue};
pub use notifier::{CallbackNotifier, SimpleNotifier};
pub use redraw_flag::RedrawFlag;
pub use surface::pick_surface_format;
pub use touch::{translate_touch_events, InputEvent, TouchInput, TouchPhase};
pub use viewport::within_texture_limit;
