//! The run's configuration: the two instances and the user to migrate.

use vstd::prelude::*;

verus! {

/// Everything one reconciliation run is given at startup: the base URL and
/// credential of each instance, the username whose assignments are migrated,
/// an optional different username on the destination, and the auto-confirm
/// switch that treats every match as confirmed.
#[derive(Debug)]
pub struct Args {
    /// Source instance base URL.
    pub source: String,
    /// Source instance API token.
    pub source_token: String,
    /// Destination instance base URL.
    pub dest: String,
    /// Destination instance API token.
    pub dest_token: String,
    /// Username looked up on the source instance.
    pub assignee: String,
    /// Username looked up on the destination instance, when it differs.
    pub dest_user: Option<String>,
    /// Answer yes to every confirmation question.
    pub yes: bool,
}

} // verus!
