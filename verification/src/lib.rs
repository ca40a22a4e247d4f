//! Desktop-shell backend: a verified screen-sampling subsystem (cursor
//! position and pixel-color queries against a platform display backend)
//! together with the stub command handlers the UI dispatch layer invokes.

pub mod color;
pub mod sampler;
pub mod settings;
pub mod todo;
pub mod weather;
