//! Configuration logic for the native file-picker dialogs of the host shell:
//! wide-string marshalling, filter tables, and the plan of configuration
//! calls that a platform driver applies to one dialog.

pub mod dialog;
pub mod filters;
pub mod wide;
