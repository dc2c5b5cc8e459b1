//! Vendor deconfliction: decides, from what a graph store reports, whether a
//! vendor may be assigned to a project and whether a project may be created.
//! The store itself is driven by the caller; every decision is made here.
pub mod authorize;
pub mod conflict;
pub mod model;
pub mod notify;
pub mod project;
pub mod vendor_request;
