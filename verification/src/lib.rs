//! Verified core of a small Windows tuning utility: the text handling,
//! script building and result interpretation around PowerShell calls.

pub mod text;
pub mod system;
pub mod ps;
pub mod backup;
pub mod performance;
pub mod startup;
