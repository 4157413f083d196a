//! Checked unwrappers.
//!
//! The originals of these helpers set a process-wide exit code before
//! unwrapping, so that a failed expectation terminates the process with a
//! caller-chosen code. A verified caller cannot fail them: each requires the
//! value to be there, and the code argument is kept for the call sites'
//! sake. The process-global exit-code slot itself lives with the entry
//! plumbing, outside this library.

use vstd::prelude::*;

verus! {

/// The exit code a panic reports when no other code was set.
pub const DEFAULT_PANIC_EXIT_CODE: i8 = -1;

/// Unwrap a result that must be there, with a message.
pub fn expect_result<T, E>(_code: i8, r: Result<T, E>, _msg: &str) -> (t: T)
    requires
        r is Ok,
    ensures
        r matches Ok(v) && v == t,
{
    match r {
        Ok(t) => t,
        Err(_) => {
            vstd::pervasive::unreached()
        },
    }
}

/// Unwrap an error that must be there, with a message.
pub fn expect_err_result<T, E>(_code: i8, r: Result<T, E>, _msg: &str) -> (e: E)
    requires
        r is Err,
    ensures
        r matches Err(v) && v == e,
{
    match r {
        Err(e) => e,
        Ok(_) => {
            vstd::pervasive::unreached()
        },
    }
}

/// Unwrap a result that must be there.
pub fn unwrap_result<T, E>(code: i8, r: Result<T, E>) -> (t: T)
    requires
        r is Ok,
    ensures
        r matches Ok(v) && v == t,
{
    expect_result(code, r, "")
}

/// Unwrap an error that must be there.
pub fn unwrap_err_result<T, E>(code: i8, r: Result<T, E>) -> (e: E)
    requires
        r is Err,
    ensures
        r matches Err(v) && v == e,
{
    expect_err_result(code, r, "")
}

/// Unwrap an option that must be there, with a message.
pub fn expect_option<T>(_code: i8, o: Option<T>, _msg: &str) -> (t: T)
    requires
        o is Some,
    ensures
        o matches Some(v) && v == t,
{
    match o {
        Some(t) => t,
        None => {
            vstd::pervasive::unreached()
        },
    }
}

/// Unwrap an option that must be there.
pub fn unwrap_option<T>(code: i8, o: Option<T>) -> (t: T)
    requires
        o is Some,
    ensures
        o matches Some(v) && v == t,
{
    expect_option(code, o, "")
}

} // verus!
