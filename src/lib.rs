//! Catalog reconciliation and batch execution for optional system components.
//!
//! The library matches a catalog of known components against the list of
//! installed packages, and drives an ordered batch of removal or rollback
//! commands, one result per request, without stopping at a failure.

pub mod batch;
pub mod definitions;
pub mod listing;
pub mod model;
pub mod outcome;
pub mod reconcile;
pub mod text;

pub use batch::{BatchExecutor, Mode, OperationRequest};
pub use definitions::get_bloatware_definitions;
pub use listing::{package_names, records_from_names};
pub use model::{
    BloatwareApp, CatalogEntry, CatalogError, CommandResult, DebloatItem, InstalledPackageRecord,
    Preset, PresetsData, ReconciledEntry,
};
pub use outcome::{outcome_result, removal_command, ExecOutcome, ExecOutput};
pub use reconcile::{bloatware_with_status, reconcile};
