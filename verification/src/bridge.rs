//! The decisions of a clone request around the platform call.
//!
//! A request is prepared — both paths checked for embedded NUL, the options
//! translated into the flags word — and, after the platform primitive has
//! run, its raw result is interpreted: the primitive's failure value turns
//! into an error carrying the platform's error code and description, anything
//! else is handed back as the status.  The platform call itself stands
//! between the two steps, outside this library.

use vstd::prelude::*;

use crate::options::CloneFileOptions;
use crate::options::flags_from_options;
use crate::options::spec_flags;
use crate::paths::contains_nul;
use crate::paths::str_contains_nul;

verus! {

/// The failure value of the platform clone primitive.
pub const CLONE_FAILED: i32 = -1;

/// How a clone request fails: either a path was rejected before any system
/// call, or the platform primitive itself reported failure.
#[derive(Debug)]
pub enum CloneError {
    /// A supplied path contains an embedded NUL byte, so it cannot be handed
    /// to the platform primitive, which takes NUL-terminated strings.
    NulInPath,
    /// The platform primitive failed; `code` is the platform error code read
    /// immediately after the call, `message` its description.
    Platform { code: i32, message: String },
}

impl CloneError {
    /// The single text payload of the error: the platform description for a
    /// failed call, a fixed text for a rejected path.
    pub open spec fn spec_message(self) -> Seq<char> {
        match self {
            CloneError::NulInPath => "nul byte found in provided path"@,
            CloneError::Platform { code, message } => message@,
        }
    }

    /// Render the error as its text payload.
    pub fn message(&self) -> (r: String)
        ensures
            r@ == self.spec_message(),
    {
        match self {
            CloneError::NulInPath => "nul byte found in provided path".to_owned(),
            CloneError::Platform { code: _, message } => message.clone(),
        }
    }
}

/// What preparing a request yields: the flags word for the platform call, or
/// the argument error when either path holds an embedded NUL.
pub open spec fn spec_prepare(
    src: Seq<char>,
    dst: Seq<char>,
    options: Option<CloneFileOptions>,
) -> Result<u32, CloneError> {
    if contains_nul(src) || contains_nul(dst) {
        Err(CloneError::NulInPath)
    } else {
        Ok(spec_flags(options))
    }
}

/// Prepare a clone request: validate both paths and translate the options
/// into the flags word.  This is everything that is decided before the
/// platform primitive runs; a rejected request makes no system call.
pub fn prepare_clone_request(src: &str, dst: &str, options: Option<CloneFileOptions>) -> (r:
    Result<u32, CloneError>)
    ensures
        r == spec_prepare(src@, dst@, options),
{
    if str_contains_nul(src) || str_contains_nul(dst) {
        Err(CloneError::NulInPath)
    } else {
        Ok(flags_from_options(options))
    }
}

/// Interpret the raw result of the platform clone primitive.  `err_code` and
/// `err_message` are the platform's last-error state, read immediately after
/// the call returned; they are only meaningful — and only used — when the
/// primitive reported failure.
pub fn interpret_clone_result(res: i32, err_code: i32, err_message: String) -> (r: Result<
    i32,
    CloneError,
>)
    ensures
        res != CLONE_FAILED ==> r == Ok::<i32, CloneError>(res),
        res == CLONE_FAILED ==> (r matches Err(CloneError::Platform { code, message })
            && code == err_code && message@ == err_message@),
{
    if res == CLONE_FAILED {
        Err(CloneError::Platform { code: err_code, message: err_message })
    } else {
        Ok(res)
    }
}

/// A pending asynchronous clone request: the arguments it owns until a worker
/// runs it.  Each task owns its own copies, so concurrent tasks share no
/// state.
pub struct AsyncClonefile {
    pub src: String,
    pub dst: String,
    pub options: Option<CloneFileOptions>,
}

impl AsyncClonefile {
    /// Package the arguments of an asynchronous clone call.
    pub fn new(src: String, dst: String, options: Option<CloneFileOptions>) -> (t: Self)
        ensures
            t.src@ == src@,
            t.dst@ == dst@,
            t.options == options,
    {
        AsyncClonefile { src, dst, options }
    }

    /// Prepare the request: the same decision, on the owned arguments, that
    /// the synchronous path makes, so both paths reject the same inputs and
    /// hand the platform the same flags word.
    pub fn prepare(&self) -> (r: Result<u32, CloneError>)
        ensures
            r == spec_prepare(self.src@, self.dst@, self.options),
    {
        prepare_clone_request(self.src.as_str(), self.dst.as_str(), self.options)
    }
}

/// A request whose paths are NUL-free is accepted, with exactly the flags
/// word of its options; one with an embedded NUL in either path is rejected
/// with the argument error — before any flags word, and so any system call,
/// exists.
pub proof fn lemma_prepare_validates(src: Seq<char>, dst: Seq<char>, options: Option<
    CloneFileOptions,
>)
    ensures
        spec_prepare(src, dst, options) is Err <==> contains_nul(src) || contains_nul(dst),
        spec_prepare(src, dst, options) is Err ==> spec_prepare(src, dst, options) == Err::<
            u32,
            CloneError,
        >(CloneError::NulInPath),
        spec_prepare(src, dst, options) is Ok ==> spec_prepare(src, dst, options) == Ok::<
            u32,
            CloneError,
        >(spec_flags(options)),
{
}

} // verus!
