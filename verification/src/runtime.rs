//! The execution driver's decisions.
//!
//! The embedded engine evaluates scripts and drives its event loop; the
//! host performs that work and reports what came back. Everything the
//! driver decides — what expression to evaluate, what a returned value
//! means, when an error is a timeout, and when the isolate must be thrown
//! away — stands here, verified.

use vstd::prelude::*;

use crate::json::escape_chars;
use crate::json::json_chars;
use crate::json::write_escaped;
use crate::json::write_json;
use crate::json::JsonValue;
use crate::ops::ConsoleOutput;
use crate::text::dec_chars;
use crate::text::dec_string;
use crate::text::has_substring;
use crate::text::str_contains;

verus! {

/// Configuration for the SSR sandbox.
pub struct SandboxConfig {
    /// Directory containing the JS chunks; only this directory is readable.
    pub chunks_dir: String,
    /// Maximum heap size in bytes; `None` means unbounded.
    pub max_heap_size: Option<usize>,
    /// Wall-clock cap for a single render in milliseconds; `None` means
    /// unbounded.
    pub timeout_ms: Option<u64>,
    /// Allowed origins for `fetch()`; empty disables fetch.
    pub allowed_origins: Vec<String>,
}

impl Default for SandboxConfig {
    /// The defaults: `./chunks`, a 64 MB heap, a 30 second timeout and
    /// fetch disabled.
    fn default() -> (r: SandboxConfig)
        ensures
            r.chunks_dir@ == "./chunks"@,
            r.max_heap_size == Some(67108864usize),
            r.timeout_ms == Some(30000u64),
            r.allowed_origins@.len() == 0,
    {
        let mut dir = String::new();
        dir.append("./chunks");
        SandboxConfig {
            chunks_dir: dir,
            max_heap_size: Some(64 * 1024 * 1024),
            timeout_ms: Some(30_000),
            allowed_origins: Vec::new(),
        }
    }
}

/// The result of a successful render.
#[derive(Debug)]
pub struct SsrResult {
    /// The HTML the render function produced.
    pub html: String,
    /// The console output captured while it ran.
    pub console: ConsoleOutput,
}

/// Why a render failed.
#[derive(Debug)]
pub enum RenderError {
    /// The entry path does not canonicalize into the chunks directory.
    InvalidEntryPoint(String),
    /// The entry path could not be turned into a module specifier.
    SpecifierFailed,
    /// User code threw, or returned a rejected promise; the payload is the
    /// stringified reason.
    Threw(String),
    /// The returned promise was still pending after the event loop drained.
    UnresolvedPromise,
    /// The render function returned something that is not a string.
    NotAString,
    /// The render was terminated after the wall-clock cap, in milliseconds.
    TimedOut(u64),
}

/// The text of a render error.
pub open spec fn render_error_chars(e: RenderError) -> Seq<char> {
    match e {
        RenderError::InvalidEntryPoint(p) => "Invalid entry point '"@ + p@ + "'"@,
        RenderError::SpecifierFailed => "Failed to create module specifier"@,
        RenderError::Threw(reason) => "Render function threw: "@ + reason@,
        RenderError::UnresolvedPromise => "Render function returned unresolved promise"@,
        RenderError::NotAString => "Render function must return a string"@,
        RenderError::TimedOut(ms) => "Render timed out after "@ + dec_chars(ms as int) + "ms"@,
    }
}

impl RenderError {
    /// Render the error as a human-readable message.
    pub fn message(&self) -> (r: String)
        ensures
            r@ == render_error_chars(*self),
    {
        let mut s = String::new();
        match self {
            RenderError::InvalidEntryPoint(p) => {
                s.append("Invalid entry point '");
                s.append(p.as_str());
                s.append("'");
            },
            RenderError::SpecifierFailed => {
                s.append("Failed to create module specifier");
            },
            RenderError::Threw(reason) => {
                s.append("Render function threw: ");
                s.append(reason.as_str());
            },
            RenderError::UnresolvedPromise => {
                s.append("Render function returned unresolved promise");
            },
            RenderError::NotAString => {
                s.append("Render function must return a string");
            },
            RenderError::TimedOut(ms) => {
                s.append("Render timed out after ");
                let n = dec_string(*ms);
                s.append(n.as_str());
                s.append("ms");
            },
        }
        proof {
            assert(s@ =~= render_error_chars(*self));
        }
        s
    }
}

/// Resolve the entry path into a `file://` module specifier, failing early
/// when its canonical form lies outside the chunks directory. A specifier
/// only ever comes back for the canonical form of a contained path.
pub fn entry_specifier(loader: &crate::loader::SandboxedLoader, entry_path: &str) -> (r: Result<
    String,
    RenderError,
>)
    ensures
        r matches Ok(u) ==> "file://"@.is_prefix_of(u@),
        r matches Ok(u) ==> (exists|c: Seq<char>|
            crate::loader::path_within(c, loader.allowed_dir@)
                && #[trigger] crate::loader::url_from_path_of(c) == Some(u@)),
        r matches Err(RenderError::SpecifierFailed) ==> (exists|c: Seq<char>|
            crate::loader::path_within(c, loader.allowed_dir@)
                && #[trigger] crate::loader::url_from_path_of(c) is None),
        r matches Err(e) ==> (e matches RenderError::InvalidEntryPoint(p) && p@ == entry_path@)
            || e is SpecifierFailed,
{
    let canonical = match loader.canonical_within(entry_path) {
        Some(c) => c,
        None => {
            return Err(RenderError::InvalidEntryPoint(String::from_str(entry_path)));
        },
    };
    match crate::loader::url_from_path(canonical.as_str()) {
        Some(u) => {
            assert(crate::loader::path_within(canonical@, loader.allowed_dir@)
                && crate::loader::url_from_path_of(canonical@) == Some(u@));
            Ok(u)
        },
        None => {
            assert(crate::loader::path_within(canonical@, loader.allowed_dir@)
                && crate::loader::url_from_path_of(canonical@) is None);
            Err(RenderError::SpecifierFailed)
        },
    }
}

/// The script the driver evaluates for one render: the hidden dispatcher
/// applied to the entry specifier and the serialized props.
pub open spec fn render_call_chars(specifier: Seq<char>, props: JsonValue) -> Seq<char> {
    "globalThis.__ssr_internal_render__(\""@ + escape_chars(specifier) + "\", "@ + json_chars(
        props,
    ) + ")"@
}

/// Build the render invocation for the engine. The specifier is embedded
/// as a JSON string literal; the props are serialized as JSON.
pub fn build_render_call(specifier: &str, props: &JsonValue) -> (r: String)
    ensures
        r@ == render_call_chars(specifier@, *props),
{
    let mut out = String::new();
    out.append("globalThis.__ssr_internal_render__(\"");
    write_escaped(specifier, &mut out);
    out.append("\", ");
    write_json(props, &mut out);
    out.append(")");
    proof {
        assert(out@ =~= render_call_chars(specifier@, *props));
    }
    out
}

/// What the engine reported for the evaluated render expression, after the
/// event loop drained.
pub enum RenderOutcome {
    /// A fulfilled promise holding a string.
    FulfilledString(String),
    /// A fulfilled promise holding anything else.
    FulfilledOther,
    /// A rejected promise; the payload is the stringified reason.
    Rejected(String),
    /// A promise still pending after the event loop drained.
    PendingPromise,
    /// A plain string, no promise involved.
    PlainString(String),
    /// Any other plain value.
    OtherValue,
}

/// What each engine outcome means for the render.
pub open spec fn interpret_spec(o: RenderOutcome) -> Result<String, RenderError> {
    match o {
        RenderOutcome::FulfilledString(s) => Ok(s),
        RenderOutcome::FulfilledOther => Err(RenderError::NotAString),
        RenderOutcome::Rejected(reason) => Err(RenderError::Threw(reason)),
        RenderOutcome::PendingPromise => Err(RenderError::UnresolvedPromise),
        RenderOutcome::PlainString(s) => Ok(s),
        RenderOutcome::OtherValue => Err(RenderError::NotAString),
    }
}

/// Turn the engine's report into the render's result: a fulfilled or plain
/// string is the HTML; everything else is the corresponding error.
pub fn interpret_render_value(o: RenderOutcome) -> (r: Result<String, RenderError>)
    ensures
        r == interpret_spec(o),
{
    match o {
        RenderOutcome::FulfilledString(s) => Ok(s),
        RenderOutcome::FulfilledOther => Err(RenderError::NotAString),
        RenderOutcome::Rejected(reason) => Err(RenderError::Threw(reason)),
        RenderOutcome::PendingPromise => Err(RenderError::UnresolvedPromise),
        RenderOutcome::PlainString(s) => Ok(s),
        RenderOutcome::OtherValue => Err(RenderError::NotAString),
    }
}

/// Error texts that betray a terminated execution: the engine's own
/// wording, and the pending promise such a termination leaves behind.
pub open spec fn is_termination_text(e: Seq<char>) -> bool {
    has_substring(e, "terminated"@) || has_substring(e, "unresolved promise"@) || has_substring(
        e,
        "Uncaught Error: execution terminated"@,
    )
}

/// Canonicalize a render error under a wall-clock cap: an error whose text
/// betrays a terminated execution becomes the timeout error for `ms`;
/// every other error passes through unchanged.
pub fn apply_timeout_policy(err: RenderError, ms: u64) -> (r: RenderError)
    ensures
        is_termination_text(render_error_chars(err)) ==> r == RenderError::TimedOut(ms),
        !is_termination_text(render_error_chars(err)) ==> r == err,
{
    let msg = err.message();
    if str_contains(msg.as_str(), "terminated") || str_contains(
        msg.as_str(),
        "unresolved promise",
    ) || str_contains(msg.as_str(), "Uncaught Error: execution terminated") {
        RenderError::TimedOut(ms)
    } else {
        err
    }
}

/// The error texts after which the isolate must be discarded.
pub open spec fn is_timeout_text(e: Seq<char>) -> bool {
    has_substring(e, "timed out"@)
}

/// Whether an error message marks the isolate as poisoned (a timeout).
pub fn response_poisons(err_msg: &str) -> (r: bool)
    ensures
        r == is_timeout_text(err_msg@),
{
    str_contains(err_msg, "timed out")
}

/// The host-side state of a server-mode isolate: either ready for the next
/// request, or poisoned by a termination and due to be rebuilt.
pub struct RenderSession {
    /// The last render was terminated; the isolate must be recreated
    /// before the next request.
    pub poisoned: bool,
}

/// The state a server-mode session starts in.
pub open spec fn fresh_session() -> RenderSession {
    RenderSession { poisoned: false }
}

impl RenderSession {
    /// A session over a freshly built isolate.
    pub fn new() -> (r: RenderSession)
        ensures
            r == fresh_session(),
    {
        RenderSession { poisoned: false }
    }

    /// Record how a request ended: a timeout poisons the isolate, any
    /// other outcome keeps it warm.
    pub fn record_request(&mut self, was_timeout: bool)
        ensures
            final(self).poisoned == was_timeout,
    {
        self.poisoned = was_timeout;
    }

    /// Make the session ready for the next request: a poisoned isolate is
    /// replaced by a fresh one (the caller rebuilds the engine side), a
    /// healthy one is kept exactly as it is.
    pub fn ensure_ready(&mut self) -> (rebuilt: bool)
        ensures
            *final(self) == fresh_session(),
            rebuilt == old(self).poisoned,
    {
        let rebuilt = self.poisoned;
        self.poisoned = false;
        rebuilt
    }
}

/// Recovery: a session the driver has made ready — in particular one
/// rebuilt after a timeout — is in exactly the state of a fresh process's
/// session, so the next request starts from the same state either way.
pub proof fn lemma_recovery_restores_fresh_state(s: RenderSession)
    requires
        !s.poisoned,
    ensures
        s == fresh_session(),
{
}

} // verus!
