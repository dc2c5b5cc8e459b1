//! The notification record sent when a requested vendor is already engaged:
//! who manages the project that holds the active engagement.
use vstd::prelude::*;
use crate::model::opt_view;

verus! {

/// A report of a vendor conflict, addressed to the managing user of the
/// project that holds the vendor's active engagement.
#[derive(Clone, Debug, PartialEq, Eq)]
pub struct Notice {
    pub project: String,
    pub user: String,
    pub vendor: String,
}

impl Notice {
    /// Builds the notice from the names read along the traversal Vendor <-
    /// UsesVendor (active) <- Project <- Manages <- User; `None` when any of
    /// them is missing, which the workflow treats as an inconsistency.
    pub fn from_names(project: Option<String>, user: Option<String>, vendor: Option<String>) -> (r:
        Option<Notice>)
        ensures
            r is Some <==> (project is Some && user is Some && vendor is Some),
            r matches Some(n) ==> Some(n.project@) == opt_view(project) && Some(n.user@)
                == opt_view(user) && Some(n.vendor@) == opt_view(vendor),
    {
        match (project, user, vendor) {
            (Some(project), Some(user), Some(vendor)) => Some(Notice { project, user, vendor }),
            _ => None,
        }
    }
}

} // verus!
