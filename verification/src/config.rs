//! Configuration.

use vstd::prelude::*;

verus! {

/// Which streams are switched on.
#[derive(Debug, Clone, Copy)]
pub struct StreamConfig {
    pub full: bool,
    pub lite: bool,
    pub domains_only: bool,
}

} // verus!
