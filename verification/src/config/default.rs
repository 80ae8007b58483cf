//! The values that options take when the configuration leaves them out.

use vstd::prelude::*;

verus! {

/// The prefix that a pattern matches when it names none: every URI.
pub fn uri() -> (prefix: String)
    ensures
        prefix@ == seq!['/'],
{
    proof {
        reveal_strlit("/");
    }
    "/".to_owned()
}

/// The number of connections that a server holds at once when it sets no limit.
pub fn max_connections() -> (limit: usize)
    ensures
        limit == 1024,
{
    1024
}

} // verus!
