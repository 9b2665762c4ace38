//! The metadata a chain specification carries about the network it
//! describes.

use vstd::prelude::*;

verus! {

/// The identifying fields of a chain specification. The specification text
/// itself is opaque to this crate; these are the fields read from it.
#[derive(Debug, Clone)]
#[allow(non_snake_case)]
pub struct ChainSpecMetadata {
    pub id: String,
    pub name: String,
    pub chainType: String,
    pub protocolId: Option<String>,
}

} // verus!
