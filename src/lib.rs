pub mod effects;
pub mod laws;
pub mod runtime;

pub use effects::{Effect, HostCall};
pub use runtime::{fault_report, greeting_text, init, Runtime};
