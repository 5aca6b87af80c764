//! Settlement engine for a time-boxed fundraising campaign.
//!
//! Contributors deposit value toward a target while the funding window is
//! open. Once the deadline has passed, the campaign is classified as
//! successful or failed, and the pooled funds are paid out either to the
//! owner (on success) or back to each contributor (on failure).

pub mod campaign;
pub mod laws;
pub mod ledger;
pub mod model;
pub mod status;
