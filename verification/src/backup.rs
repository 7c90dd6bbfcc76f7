//! System restore point created before any change.

use vstd::prelude::*;

verus! {

/// PowerShell script that creates the restore point.
pub const RESTORE_POINT_SCRIPT: &'static str = "Checkpoint-Computer -Description 'TauriOptimizerBackup' -RestorePointType 'MODIFY_SETTINGS'";

/// Report given when the restore point was created.
pub const RESTORE_POINT_CREATED: &'static str = "Point de restauration créé avec succès.";

/// Start of the report given when the restore point could not be created.
pub const RESTORE_POINT_FAILED: &'static str = "Erreur lors de la création du point de restauration : ";

/// Report of the restore point creation, given what running its script gave:
/// a fixed confirmation whatever the script printed, or the script's error
/// behind a fixed explanation.
pub fn create_restore_point(outcome: Result<String, String>) -> (r: Result<String, String>)
    ensures
        match outcome {
            Ok(_) => r matches Ok(m) && m@ == RESTORE_POINT_CREATED@,
            Err(e) => r matches Err(m) && m@ == RESTORE_POINT_FAILED@ + e@,
        },
{
    match outcome {
        Ok(_) => Ok(String::from_str(RESTORE_POINT_CREATED)),
        Err(stderr) => {
            let mut m = String::from_str(RESTORE_POINT_FAILED);
            m.append(stderr.as_str());
            Err(m)
        },
    }
}

} // verus!
