use opt_tweak_pc::startup::{
    build_cleanup_script, build_restore_script, keep_parsed, parse_cleanup,
    parse_cleanup_restored, service_candidates, snapshot_items, task_candidates, CleanupItem,
    CleanupResult, StartupEntry, APPLY_FALSE, APPLY_TRUE, STARTUP_AUDIT_SCRIPT,
};

const SERVICES: &[&str] = &[
    "MTAgentService",
    "MTSchedulerService",
    "LGHUBUpdaterService",
    "gupdate",
    "gupdatem",
    "edgeupdate",
    "edgeupdatem",
    "BraveElevationService",
];

const TASKS: &[&str] = &["GBTECService", "GraphicsCardEngine", "SIV", "SIV-VGA"];

fn expected_cleanup_script(apply: bool) -> String {
    let services = SERVICES
        .iter()
        .map(|s| format!("'{}'", s))
        .collect::<Vec<_>>()
        .join(",");
    let tasks = TASKS
        .iter()
        .map(|t| format!("'{}'", t))
        .collect::<Vec<_>>()
        .join(",");
    let apply_lit = if apply { "$true" } else { "$false" };

    format!(
        r#"
        $apply = {apply}
        $services = @({services})
        $tasks = @({tasks})
        $items = @()

        foreach ($s in $services) {{
            $svc = Get-Service -Name $s -ErrorAction SilentlyContinue
            if (-not $svc) {{
                $items += [pscustomobject]@{{ nom=$s; categorie='service'; etat='absent'; detail='Service non installe sur ce poste'; ancien=$null }}
                continue
            }}
            $old = $svc.StartType.ToString()
            if (-not $apply) {{
                $items += [pscustomobject]@{{ nom=$s; categorie='service'; etat='cible'; detail='Sera passe en demarrage Manuel'; ancien=$old }}
                continue
            }}
            try {{
                Set-Service -Name $s -StartupType Manual -ErrorAction Stop
                $items += [pscustomobject]@{{ nom=$s; categorie='service'; etat='modifie'; detail='Passe en Manuel'; ancien=$old }}
            }} catch {{
                $items += [pscustomobject]@{{ nom=$s; categorie='service'; etat='echec'; detail='Echec (droits admin requis ?)'; ancien=$old }}
            }}
        }}

        foreach ($t in $tasks) {{
            $task = Get-ScheduledTask -TaskName $t -ErrorAction SilentlyContinue
            if (-not $task) {{
                $items += [pscustomobject]@{{ nom=$t; categorie='tache'; etat='absent'; detail='Tache introuvable sur ce poste'; ancien=$null }}
                continue
            }}
            $old = $task.State.ToString()
            if (-not $apply) {{
                $items += [pscustomobject]@{{ nom=$t; categorie='tache'; etat='cible'; detail='Sera desactivee'; ancien=$old }}
                continue
            }}
            try {{
                Disable-ScheduledTask -TaskName $t -TaskPath $task.TaskPath -ErrorAction Stop | Out-Null
                $items += [pscustomobject]@{{ nom=$t; categorie='tache'; etat='modifie'; detail='Desactivee'; ancien=$old }}
            }} catch {{
                $items += [pscustomobject]@{{ nom=$t; categorie='tache'; etat='echec'; detail='Echec'; ancien=$old }}
            }}
        }}

        ConvertTo-Json @($items) -Compress
        "#,
        apply = apply_lit,
        services = services,
        tasks = tasks,
    )
}

fn expected_restore_script(saved: &[CleanupItem]) -> String {
    let mut blocks = String::from("$items = @()\n");
    for it in saved {
        let ancien = it.ancien.clone().unwrap_or_default();
        if it.categorie == "service" {
            blocks.push_str(&format!(
                r#"
                try {{
                    Set-Service -Name '{nom}' -StartupType {ancien} -ErrorAction Stop
                    $items += [pscustomobject]@{{ nom='{nom}'; categorie='service'; etat='restaure'; detail='Restaure en {ancien}'; ancien='{ancien}' }}
                }} catch {{
                    $items += [pscustomobject]@{{ nom='{nom}'; categorie='service'; etat='echec'; detail='Echec de restauration'; ancien='{ancien}' }}
                }}
                "#,
                nom = it.nom,
                ancien = ancien,
            ));
        } else if it.categorie == "tache" {
            // Only tasks that were active ('Ready') are enabled again.
            if ancien.eq_ignore_ascii_case("Ready") {
                blocks.push_str(&format!(
                    r#"
                    $tk = Get-ScheduledTask -TaskName '{nom}' -ErrorAction SilentlyContinue
                    if ($tk) {{
                        try {{
                            Enable-ScheduledTask -TaskName '{nom}' -TaskPath $tk.TaskPath -ErrorAction Stop | Out-Null
                            $items += [pscustomobject]@{{ nom='{nom}'; categorie='tache'; etat='restaure'; detail='Reactivee'; ancien='{ancien}' }}
                        }} catch {{
                            $items += [pscustomobject]@{{ nom='{nom}'; categorie='tache'; etat='echec'; detail='Echec de restauration'; ancien='{ancien}' }}
                        }}
                    }}
                    "#,
                    nom = it.nom,
                    ancien = ancien,
                ));
            }
        }
    }
    blocks.push_str("\nConvertTo-Json @($items) -Compress\n");
    blocks
}

fn item(nom: &str, categorie: &str, etat: &str, ancien: Option<&str>) -> CleanupItem {
    CleanupItem {
        nom: nom.to_string(),
        categorie: categorie.to_string(),
        etat: etat.to_string(),
        detail: format!("detail de {}", nom),
        ancien: ancien.map(|a| a.to_string()),
    }
}

fn names(items: &[CleanupItem]) -> Vec<String> {
    items.iter().map(|i| i.nom.clone()).collect()
}

#[test]
fn candidates_are_the_curated_lists() {
    assert_eq!(service_candidates(), SERVICES);
    assert_eq!(task_candidates(), TASKS);
}

#[test]
fn chromoting_is_not_a_candidate() {
    assert!(!service_candidates().contains(&"chromoting"));
    assert!(!task_candidates().contains(&"chromoting"));
}

#[test]
fn cleanup_script_preview_text() {
    assert_eq!(build_cleanup_script(false), expected_cleanup_script(false));
}

#[test]
fn cleanup_script_apply_text() {
    assert_eq!(build_cleanup_script(true), expected_cleanup_script(true));
}

#[test]
fn cleanup_script_lists_targets_quoted() {
    let s = build_cleanup_script(true);
    assert!(s.contains("$services = @('MTAgentService','MTSchedulerService','LGHUBUpdaterService','gupdate','gupdatem','edgeupdate','edgeupdatem','BraveElevationService')"));
    assert!(s.contains("$tasks = @('GBTECService','GraphicsCardEngine','SIV','SIV-VGA')"));
    assert!(s.contains("$apply = $true\n"));
    assert!(build_cleanup_script(false).contains("$apply = $false\n"));
}

#[test]
fn preview_and_cleanup_differ_only_by_mode() {
    let preview = build_cleanup_script(false);
    let real = build_cleanup_script(true);
    assert_eq!(preview.replacen(APPLY_FALSE, APPLY_TRUE, 1), real);
}

#[test]
fn keep_parsed_keeps_successes_in_order() {
    assert_eq!(keep_parsed(vec![Some(1), None, Some(3), None, Some(5)]), vec![1, 3, 5]);
    assert_eq!(keep_parsed::<u8>(vec![None, None]), Vec::<u8>::new());
}

#[test]
fn keep_parsed_startup_entries() {
    let kept = keep_parsed(vec![
        None,
        Some(StartupEntry { programme: "OneDrive".to_string(), emplacement: "HKU".to_string() }),
    ]);
    assert_eq!(kept.len(), 1);
    assert_eq!(kept[0].programme, "OneDrive");
    assert_eq!(kept[0].emplacement, "HKU");
}

fn sample() -> Vec<Option<CleanupItem>> {
    vec![
        Some(item("gupdate", "service", "modifie", Some("Automatic"))),
        None,
        Some(item("edgeupdate", "service", "absent", None)),
        Some(item("SIV", "tache", "modifie", Some("Ready"))),
        Some(item("GBTECService", "tache", "echec", Some("Ready"))),
        Some(item("gupdatem", "service", "modifie", None)),
    ]
}

#[test]
fn parse_cleanup_counts_modified() {
    let r: CleanupResult = parse_cleanup(sample());
    assert_eq!(names(&r.items), vec!["gupdate", "edgeupdate", "SIV", "GBTECService", "gupdatem"]);
    assert_eq!(r.modifies, 3);
    assert!(r.requires_reboot);
}

#[test]
fn parse_cleanup_preview_has_no_change() {
    let r = parse_cleanup(vec![
        Some(item("gupdate", "service", "cible", Some("Automatic"))),
        Some(item("SIV", "tache", "absent", None)),
    ]);
    assert_eq!(r.modifies, 0);
    assert!(!r.requires_reboot);
    assert_eq!(r.items.len(), 2);
}

#[test]
fn parse_cleanup_restored_counts_restored() {
    let r = parse_cleanup_restored(vec![
        Some(item("gupdate", "service", "restaure", Some("Automatic"))),
        Some(item("SIV", "tache", "echec", Some("Ready"))),
        None,
        Some(item("gupdatem", "service", "modifie", Some("Automatic"))),
    ]);
    assert_eq!(r.modifies, 1);
    assert!(r.requires_reboot);
    assert_eq!(r.items.len(), 3);
}

#[test]
fn parse_cleanup_restored_nothing_restored() {
    let r = parse_cleanup_restored(vec![Some(item("SIV", "tache", "echec", Some("Ready")))]);
    assert_eq!(r.modifies, 0);
    assert!(!r.requires_reboot);
}

#[test]
fn snapshot_keeps_changed_with_previous_state() {
    let r = parse_cleanup(sample());
    let saved = snapshot_items(&r);
    assert_eq!(names(&saved), vec!["gupdate", "SIV"]);
    assert_eq!(saved[0].ancien.as_deref(), Some("Automatic"));
    assert_eq!(saved[1].ancien.as_deref(), Some("Ready"));
    assert_eq!(saved[0].detail, "detail de gupdate");
    assert_eq!(saved[1].categorie, "tache");
}

#[test]
fn snapshot_of_preview_is_empty() {
    let r = parse_cleanup(vec![Some(item("gupdate", "service", "cible", Some("Automatic")))]);
    assert!(snapshot_items(&r).is_empty());
}

#[test]
fn restore_script_matches_expected_text() {
    let saved = vec![
        item("gupdate", "service", "modifie", Some("Automatic")),
        item("SIV", "tache", "modifie", Some("Ready")),
        item("GBTECService", "tache", "modifie", Some("Disabled")),
        item("SIV-VGA", "tache", "modifie", Some("READY")),
        item("autre", "pilote", "modifie", Some("Ready")),
        item("edgeupdate", "service", "modifie", None),
    ];
    assert_eq!(build_restore_script(&saved), expected_restore_script(&saved));
}

#[test]
fn restore_script_skips_inactive_tasks() {
    let saved = vec![item("GBTECService", "tache", "modifie", Some("Disabled"))];
    let s = build_restore_script(&saved);
    assert!(!s.contains("GBTECService"));
    assert_eq!(s, "$items = @()\n\nConvertTo-Json @($items) -Compress\n");
}

#[test]
fn restore_script_of_empty_snapshot() {
    assert_eq!(build_restore_script(&Vec::new()), "$items = @()\n\nConvertTo-Json @($items) -Compress\n");
}

#[test]
fn restore_service_block_uses_previous_start_type() {
    let s = build_restore_script(&vec![item("gupdate", "service", "modifie", Some("Automatic"))]);
    assert!(s.contains("Set-Service -Name 'gupdate' -StartupType Automatic -ErrorAction Stop"));
    assert!(s.contains("detail='Restaure en Automatic'"));
}

#[test]
fn audit_script_sorts_by_program() {
    assert!(STARTUP_AUDIT_SCRIPT.contains("Sort-Object programme | ConvertTo-Json -Compress"));
}

#[test]
fn restore_of_snapshot_undoes_only_changed_targets() {
    let mut all = sample();
    all.push(Some(item("SIV-VGA", "tache", "modifie", Some("Disabled"))));
    all.push(Some(item("edgeupdatem", "service", "cible", Some("Automatic"))));
    let result = parse_cleanup(all);
    let saved = snapshot_items(&result);
    let script = build_restore_script(&saved);
    assert_eq!(script, expected_restore_script(&saved));
    assert!(script.contains("Set-Service -Name 'gupdate' -StartupType Automatic"));
    assert!(script.contains("Enable-ScheduledTask -TaskName 'SIV' "));
    for absent in ["edgeupdate'", "GBTECService", "gupdatem", "SIV-VGA", "edgeupdatem"] {
        assert!(!script.contains(absent), "{}", absent);
    }
}
