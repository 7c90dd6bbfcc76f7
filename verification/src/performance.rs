//! Switch to the "high performance" power plan.

use vstd::prelude::*;

verus! {

/// PowerShell script that activates the standard Windows "high performance"
/// power plan.
pub const HIGH_PERFORMANCE_SCRIPT: &'static str = "powercfg -setactive 8c5e7fda-e8bf-4a96-9a85-a6e23a8c635c";

/// Report given when the power plan was switched.
pub const PERFORMANCE_DONE: &'static str = "Performances optimisées (Mode Performances Élevées activé).";

/// Start of the report given when the power plan could not be switched.
pub const PERFORMANCE_FAILED: &'static str = "Erreur lors de l'optimisation des performances : ";

/// Report of the power plan switch, given what running its script gave:
/// a fixed confirmation whatever the script printed, or the script's error
/// behind a fixed explanation.
pub fn optimize_performance(outcome: Result<String, String>) -> (r: Result<String, String>)
    ensures
        match outcome {
            Ok(_) => r matches Ok(m) && m@ == PERFORMANCE_DONE@,
            Err(e) => r matches Err(m) && m@ == PERFORMANCE_FAILED@ + e@,
        },
{
    match outcome {
        Ok(_) => Ok(String::from_str(PERFORMANCE_DONE)),
        Err(stderr) => {
            let mut m = String::from_str(PERFORMANCE_FAILED);
            m.append(stderr.as_str());
            Err(m)
        },
    }
}

} // verus!
