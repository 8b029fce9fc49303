//! Verified core of a save-file backup tool: it filters a directory
//! listing down to save and backup names, builds timestamped backup
//! file names, recovers the original save name from a backup name,
//! and drives the numbered selection menus.

pub mod backup;
pub mod clock;
pub mod menu;
pub mod names;
pub mod numeral;
