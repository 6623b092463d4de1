//! Runtime core of a small real-time application framework: a stage-ordered
//! system scheduler, a type-keyed resource registry, plugins, and the
//! channel bridge to a windowing thread.

pub mod app;
pub mod error;
pub mod ids;
pub mod plugin;
pub mod resources;
pub mod window;
pub mod window_plugin;

pub use app::{App, Pass, Stage};
pub use error::{MarsError, Result};
pub use ids::Id;
pub use plugin::{AppExt, Plugin};
pub use window::{UserMsg, WindowConfig, WindowEvent, WindowEvents, WindowHandle};
pub use window_plugin::WindowPlugin;
