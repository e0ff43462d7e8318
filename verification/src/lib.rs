//! A verified core for a secure server-side-rendering sandbox.
//!
//! The library holds the logic that decides what a sandboxed JavaScript
//! isolate may load, observe and do: the module loader's containment rules,
//! the props sanitizer, the host-op surface, the gated fetch policy, the
//! execution driver's decisions and the host protocol framing.

pub mod fetch;
pub mod json;
pub mod loader;
pub mod ops;
pub mod protocol;
pub mod runtime;
pub mod sanitize;
pub mod text;

pub use fetch::FetchConfig;
pub use fetch::FetchRequest;
pub use fetch::FetchResponse;
pub use json::JsonValue;
pub use loader::SandboxedLoader;
pub use ops::ConsoleOutput;
pub use runtime::SandboxConfig;
pub use runtime::SsrResult;
pub use sanitize::sanitize_props;
