//! Structures that every service uses on the wire.

use vstd::prelude::*;

verus! {

/// A link to a resource, as the services list them under `links`.
#[derive(Clone, Debug, PartialEq, Eq)]
pub struct Link {
    /// Where the link leads.
    pub href: String,
    /// How the target relates to the resource that lists the link.
    pub rel: String,
}

} // verus!
