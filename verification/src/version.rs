//! The version of the native compiler.

use crate::error::{classify, classify_spec, NvrtcResult};
use vstd::prelude::*;

verus! {

/// What a version query yields once the native call has replied: the failure,
/// or the two numbers as the native compiler wrote them.
pub open spec fn version_spec(status: u32, major: i32, minor: i32) -> NvrtcResult<(usize, usize)> {
    match classify_spec(status) {
        Ok(_) => Ok((major as usize, minor as usize)),
        Err(e) => Err(e),
    }
}

/// The version of the native compiler, as major and minor number.
///
/// `query` is the native call; it returns the status and the two numbers that
/// the call wrote. No session is needed.
pub fn version<F>(query: F) -> (r: NvrtcResult<(usize, usize)>) where
    F: FnOnce() -> (u32, i32, i32),

    requires
        query.requires(()),
    ensures
        exists|reply: (u32, i32, i32)|
            {
                &&& #[trigger] query.ensures((), reply)
                &&& r == version_spec(reply.0, reply.1, reply.2)
            },
{
    let reply = query();
    match classify(reply.0) {
        Ok(_) => Ok((reply.1 as usize, reply.2 as usize)),
        Err(e) => Err(e),
    }
}

} // verus!
