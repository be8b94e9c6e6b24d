//! Named groups of saved requests.

use crate::http::HttpRequest;
use vstd::prelude::*;
use vstd::string::StringExecFns;

verus! {

/// A named, collapsible group of requests.
pub struct Collection {
    pub name: String,
    pub requests: Vec<HttpRequest>,
    pub collapsed: bool,
}

impl Collection {
    /// An empty, expanded collection.
    pub fn new() -> (collection: Collection)
        ensures
            collection.name@ == "New Collection "@,
            collection.requests@.len() == 0,
            !collection.collapsed,
    {
        Collection { name: String::from_str("New Collection "), requests: Vec::new(), collapsed: false }
    }
}

} // verus!
