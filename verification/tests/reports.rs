use opt_tweak_pc::backup::{create_restore_point, RESTORE_POINT_SCRIPT};
use opt_tweak_pc::performance::{optimize_performance, HIGH_PERFORMANCE_SCRIPT};

#[test]
fn restore_point_success_report_is_fixed() {
    assert_eq!(
        create_restore_point(Ok("anything\r\n".to_string())),
        Ok("Point de restauration créé avec succès.".to_string())
    );
}

#[test]
fn restore_point_failure_report_names_error() {
    assert_eq!(
        create_restore_point(Err("Acces refuse".to_string())),
        Err("Erreur lors de la création du point de restauration : Acces refuse".to_string())
    );
}

#[test]
fn restore_point_script_text() {
    assert_eq!(
        RESTORE_POINT_SCRIPT,
        "Checkpoint-Computer -Description 'TauriOptimizerBackup' -RestorePointType 'MODIFY_SETTINGS'"
    );
}

#[test]
fn performance_success_report_is_fixed() {
    assert_eq!(
        optimize_performance(Ok(String::new())),
        Ok("Performances optimisées (Mode Performances Élevées activé).".to_string())
    );
}

#[test]
fn performance_failure_report_names_error() {
    assert_eq!(
        optimize_performance(Err("plan inconnu".to_string())),
        Err("Erreur lors de l'optimisation des performances : plan inconnu".to_string())
    );
}

#[test]
fn performance_script_selects_high_performance_plan() {
    assert_eq!(
        HIGH_PERFORMANCE_SCRIPT,
        "powercfg -setactive 8c5e7fda-e8bf-4a96-9a85-a6e23a8c635c"
    );
}
