//! The props sanitizer.
//!
//! Guarantees that props handed to the isolate can neither smuggle a
//! prototype-pollution key into shared objects nor blow the stack through
//! pathological nesting.

use vstd::prelude::*;

use crate::json::has_forbidden_key;
use crate::json::is_forbidden_key;
use crate::json::key_occurs;
use crate::json::jv_depth_ok;
use crate::json::JsonValue;
use crate::text::str_eq;

verus! {

/// Why a props value was rejected.
#[derive(Debug)]
pub enum SanitizeError {
    /// Nesting went past depth 32.
    TooDeep,
    /// An object carried the named forbidden key.
    ForbiddenKey(String),
}

/// The text of a sanitizer error.
pub open spec fn sanitize_error_chars(e: SanitizeError) -> Seq<char> {
    match e {
        SanitizeError::TooDeep => "Props nesting too deep (max 32 levels) - possible DoS attempt"@,
        SanitizeError::ForbiddenKey(k) => "Prototype pollution attempt: '"@ + k@
            + "' key is forbidden in props"@,
    }
}

impl SanitizeError {
    /// Render the error as a human-readable message.
    pub fn message(&self) -> (r: String)
        ensures
            r@ == sanitize_error_chars(*self),
    {
        match self {
            SanitizeError::TooDeep => {
                let mut s = String::new();
                s.append("Props nesting too deep (max 32 levels) - possible DoS attempt");
                assert(s@ =~= sanitize_error_chars(*self));
                s
            },
            SanitizeError::ForbiddenKey(k) => {
                let mut s = String::new();
                s.append("Prototype pollution attempt: '");
                s.append(k.as_str());
                s.append("' key is forbidden in props");
                assert(s@ =~= sanitize_error_chars(*self));
                s
            },
        }
    }
}

/// Walk `v`, which stands at nesting depth `d`, and reject forbidden keys
/// and over-deep nesting.
#[verifier::loop_isolation(false)]
fn check_value(v: &JsonValue, d: u32) -> (r: Result<(), SanitizeError>)
    requires
        d <= 33,
    ensures
        r is Ok <==> (jv_depth_ok(*v, d as int) && !has_forbidden_key(*v)),
        d > 32 ==> r matches Err(SanitizeError::TooDeep),
        r matches Err(e) ==> match e {
            SanitizeError::TooDeep => !jv_depth_ok(*v, d as int),
            SanitizeError::ForbiddenKey(k) => has_forbidden_key(*v) && is_forbidden_key(k@)
                && key_occurs(*v, k@),
        },
    decreases *v,
{
    broadcast use vstd::std_specs::vec::group_vec_axioms;

    if d > 32 {
        return Err(SanitizeError::TooDeep);
    }
    match v {
        JsonValue::Obj(kvs) => {
            let mut i: usize = 0;
            while i < kvs.len()
                invariant
                    i <= kvs@.len(),
                    forall|j: int| 0 <= j < i ==> !is_forbidden_key(#[trigger] kvs@[j].0@),
                decreases kvs@.len() - i,
            {
                let key = kvs[i].0.as_str();
                if str_eq(key, "__proto__") || str_eq(key, "constructor") || str_eq(
                    key,
                    "prototype",
                ) {
                    let owned = String::from_str(key);
                    return Err(SanitizeError::ForbiddenKey(owned));
                }
                i += 1;
            }
            let mut i: usize = 0;
            while i < kvs.len()
                invariant
                    i <= kvs@.len(),
                    forall|j: int| 0 <= j < i ==> !is_forbidden_key(#[trigger] kvs@[j].0@),
                    forall|j: int|
                        0 <= j < i ==> jv_depth_ok(#[trigger] kvs@[j].1, d + 1)
                            && !has_forbidden_key(kvs@[j].1),
                decreases kvs@.len() - i,
            {
                match check_value(&kvs[i].1, d + 1) {
                    Ok(()) => {},
                    Err(e) => {
                        return Err(e);
                    },
                }
                i += 1;
            }
            Ok(())
        },
        JsonValue::Arr(xs) => {
            let mut i: usize = 0;
            while i < xs.len()
                invariant
                    i <= xs@.len(),
                    forall|j: int|
                        0 <= j < i ==> jv_depth_ok(#[trigger] xs@[j], d + 1)
                            && !has_forbidden_key(xs@[j]),
                decreases xs@.len() - i,
            {
                match check_value(&xs[i], d + 1) {
                    Ok(()) => {},
                    Err(e) => {
                        return Err(e);
                    },
                }
                i += 1;
            }
            Ok(())
        },
        _ => Ok(()),
    }
}

/// Check a JSON props value before it may reach the isolate.
///
/// The value comes back unchanged exactly when no object anywhere inside it
/// carries one of the keys `__proto__`, `constructor` or `prototype`, and no
/// node sits deeper than 32 levels of nesting.
pub fn sanitize_props(value: JsonValue) -> (r: Result<JsonValue, SanitizeError>)
    ensures
        r matches Ok(s) ==> s == value,
        r is Ok <==> (jv_depth_ok(value, 0) && !has_forbidden_key(value)),
        r matches Err(e) ==> match e {
            SanitizeError::TooDeep => !jv_depth_ok(value, 0),
            SanitizeError::ForbiddenKey(k) => has_forbidden_key(value) && is_forbidden_key(k@)
                && key_occurs(value, k@),
        },
{
    match check_value(&value, 0) {
        Ok(()) => Ok(value),
        Err(e) => Err(e),
    }
}

} // verus!
