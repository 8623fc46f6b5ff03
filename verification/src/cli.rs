//! Command-line surface: the one value the user supplies.

use vstd::prelude::*;

verus! {

/// The parsed command line: a single required server address (hostname or
/// IP, no embedded port; the time protocol's default port is implied).
pub struct Cli {
    pub server: String,
}

} // verus!
