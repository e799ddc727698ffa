//! What to make of the status of a shader, of a program and of a uniform lookup.
use vstd::prelude::*;

verus! {

/// The outcome of a compile or a link: with a good status the log, if any, is a
/// remark to pass on; with a bad one the log is the error, and where there is no log
/// the error is `fallback`.
pub fn validate_shader<L>(status: bool, log: Option<L>, fallback: L) -> (r: Result<Option<L>, L>)
    ensures
        status ==> r == Ok::<Option<L>, L>(log),
        !status ==> r == Err::<Option<L>, L>(
            match log {
                Some(text) => text,
                None => fallback,
            },
        ),
{
    if status {
        Ok(log)
    } else {
        Err(
            match log {
                Some(text) => text,
                None => fallback,
            },
        )
    }
}

/// Whether a status that was read back as an integer reports success.
pub fn status_ok(status: i32) -> (ok: bool)
    ensures
        ok <==> status != 0,
{
    status != 0
}

/// The length of the log to fetch, where there is a log: a length read back as zero or
/// less means that there is none.
pub fn log_length(log_len: i32) -> (r: Option<usize>)
    ensures
        r is Some <==> log_len > 0,
        r matches Some(n) ==> n == log_len,
{
    if log_len > 0 {
        Some(log_len as usize)
    } else {
        None
    }
}

/// The location of a uniform, where the lookup found one: a negative answer means that
/// the program has no such uniform.
pub fn uniform_location(loc: i32) -> (r: Option<i32>)
    ensures
        r is Some <==> loc >= 0,
        r matches Some(found) ==> found == loc,
{
    if loc < 0 {
        None
    } else {
        Some(loc)
    }
}

} // verus!
