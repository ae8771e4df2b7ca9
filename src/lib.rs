//! A registry of named commands and a dispatcher that calls them with
//! positional JSON arguments, decoding each argument to its declared type
//! and encoding the handler's output, or reporting a structured error.
//!
//! The registry is assembled explicitly before any call is served and is
//! only read afterwards: `RaycastExecutor::execute` takes it by shared
//! reference.
pub mod commands;
pub mod error;
pub mod json;
pub mod marshal;
pub mod registry;

pub use commands::{delayed_greeting, greeting, greetings, noop, optionals, pick_color, Color};
pub use error::RaycastError;
pub use json::JsonValue;
pub use marshal::{marshal, Arg, Param, ParamKind};
pub use registry::{
    finish_delayed_greeting, serialize_result_to_json, Command, RaycastExecutor, RaycastFunction,
    Step,
};
