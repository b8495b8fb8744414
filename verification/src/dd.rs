//! The 64DD disk drive.

use vstd::prelude::*;

verus! {

/// A known 64DD IPL ROM: its name, the seed of its CIC check and its SHA-1.
pub struct dd_variant {
    pub description: String,
    pub seed: u8,
    pub sha1: [u8; 20],
}

} // verus!
