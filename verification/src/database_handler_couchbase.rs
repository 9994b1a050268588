//! The names of the collections a second document store keeps; connecting
//! to it and reading or writing its documents is work for the caller.
use vstd::prelude::*;

verus! {

/// The second document store, known by its collection names.
pub struct DbHandlerCouchbase {}

impl DbHandlerCouchbase {
    /// The collection of general information.
    pub const COLLECTION_NAME_GENERAL_INFORMATION: &'static str = "GeneralInformation";
    /// The collection counting the requests.
    pub const COLLECTION_NAME_WEBSITE_TRAFFIC: &'static str = "WebSiteTraffic";
}

} // verus!
