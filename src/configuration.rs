//! Defaults of the server configuration.
use vstd::prelude::*;

verus! {

/// The port the server listens on when none is configured.
pub const DEFAULT_PORT: u16 = 1537;

/// The port the server listens on when none is configured.
pub fn default_port() -> (r: u16)
    ensures
        r == DEFAULT_PORT,
{
    DEFAULT_PORT
}

} // verus!
