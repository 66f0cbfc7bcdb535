use vstd::prelude::*;

verus! {

/// The operator console's home page.
pub struct HomeTemplate;

/// The operator console's configuration page.
pub struct ConfigTemplate;

/// The gateway's metadata as shown on the operator console.
pub struct ConfigMetaTemplate {
    pub name: String,
    pub author: String,
    pub version: String,
}

} // verus!
