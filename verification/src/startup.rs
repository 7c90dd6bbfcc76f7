//! Windows start-up: audit, preview and cleanup of the non-essential
//! updaters and monitoring services and tasks, and the restoration of what
//! a cleanup changed.

use vstd::prelude::*;
use crate::text::{eq_ignoring_ascii_case, eq_ignore_ascii_case};

verus! {

/// One program launched when Windows starts.
pub struct StartupEntry {
    /// Name of the program.
    pub programme: String,
    /// Where the start-up entry is registered.
    pub emplacement: String,
}

/// One target of a cleanup (or of its preview, or of a restoration).
pub struct CleanupItem {
    /// Name of the service or of the scheduled task.
    pub nom: String,
    /// `service` or `tache`.
    pub categorie: String,
    /// `cible` (preview), `modifie`, `absent`, `echec` or `restaure`.
    pub etat: String,
    /// Human-readable detail.
    pub detail: String,
    /// State before the change; absent for targets that are not installed.
    pub ancien: Option<String>,
}

/// Report of a cleanup, of its preview or of a restoration.
pub struct CleanupResult {
    /// The targets, in the order PowerShell reported them.
    pub items: Vec<CleanupItem>,
    /// Number of targets actually changed (0 in a preview).
    pub modifies: usize,
    /// Whether at least one change needs a reboot.
    pub requires_reboot: bool,
}

/// State of a target that a cleanup changed.
pub const STATE_MODIFIED: &'static str = "modifie";

/// State of a target that a restoration brought back.
pub const STATE_RESTORED: &'static str = "restaure";

/// The values kept from a list of parse attempts, in order, the failed
/// attempts (`None`) left out.
pub open spec fn parsed_values<T>(attempts: Seq<Option<T>>) -> Seq<T>
    decreases attempts.len(),
{
    if attempts.len() == 0 {
        Seq::empty()
    } else {
        let rest = parsed_values(attempts.drop_last());
        match attempts.last() {
            Some(v) => rest.push(v),
            None => rest,
        }
    }
}

/// Keeps the values of the parse attempts that succeeded, in order.
pub fn keep_parsed<T>(attempts: Vec<Option<T>>) -> (r: Vec<T>)
    ensures
        r@ == parsed_values(attempts@),
{
    let ghost all = attempts@;
    let mut kept: Vec<T> = Vec::new();
    for attempt in it: attempts.into_iter()
        invariant
            it.seq() == all,
            kept@ == parsed_values(all.take(it.index() as int)),
    {
        proof {
            assert(all.take(it.index() + 1).drop_last() =~= all.take(it.index() as int));
        }
        match attempt {
            Some(v) => kept.push(v),
            None => {},
        }
    }
    proof {
        assert(all.take(all.len() as int) =~= all);
    }
    kept
}

/// Number of targets in `items` whose state is `state`.
pub open spec fn count_in_state(items: Seq<CleanupItem>, state: Seq<char>) -> nat
    decreases items.len(),
{
    if items.len() == 0 {
        0
    } else {
        count_in_state(items.drop_last(), state) + if items.last().etat@ == state {
            1nat
        } else {
            0nat
        }
    }
}

/// The report made of the parsed targets: the targets that parsed, in
/// order; how many of them are in `state`; and whether that count is
/// positive.
fn summarize(attempts: Vec<Option<CleanupItem>>, state: &str) -> (r: CleanupResult)
    ensures
        r.items@ == parsed_values(attempts@),
        r.modifies == count_in_state(r.items@, state@),
        r.modifies <= r.items@.len(),
        r.requires_reboot == (r.modifies > 0),
{
    let items = keep_parsed(attempts);
    let wanted = String::from_str(state);
    let n = items.len();
    let mut count: usize = 0;
    let mut i: usize = 0;
    while i < n
        invariant
            n == items@.len(),
            wanted@ == state@,
            i <= n,
            count == count_in_state(items@.take(i as int), state@),
            count <= i,
        decreases n - i,
    {
        proof {
            assert(items@.take(i + 1).drop_last() =~= items@.take(i as int));
        }
        if items[i].etat == wanted {
            count = count + 1;
        }
        i = i + 1;
    }
    proof {
        assert(items@.take(n as int) =~= items@);
    }
    CleanupResult { items, modifies: count, requires_reboot: count > 0 }
}

/// Report of a cleanup or of its preview, made of the targets that parsed:
/// it counts the targets that were changed (`modifie`).
pub fn parse_cleanup(attempts: Vec<Option<CleanupItem>>) -> (r: CleanupResult)
    ensures
        r.items@ == parsed_values(attempts@),
        r.modifies == count_in_state(r.items@, STATE_MODIFIED@),
        r.modifies <= r.items@.len(),
        r.requires_reboot == (r.modifies > 0),
{
    summarize(attempts, STATE_MODIFIED)
}

/// Report of a restoration, made of the targets that parsed: it counts the
/// targets that were brought back (`restaure`).
pub fn parse_cleanup_restored(attempts: Vec<Option<CleanupItem>>) -> (r: CleanupResult)
    ensures
        r.items@ == parsed_values(attempts@),
        r.modifies == count_in_state(r.items@, STATE_RESTORED@),
        r.modifies <= r.items@.len(),
        r.requires_reboot == (r.modifies > 0),
{
    summarize(attempts, STATE_RESTORED)
}

/// A target is kept for the undo snapshot when the cleanup changed it and
/// its previous state is known.
pub open spec fn worth_restoring(item: CleanupItem) -> bool {
    item.etat@ == STATE_MODIFIED@ && item.ancien is Some
}

/// The targets of `items` kept for the undo snapshot, in order.
pub open spec fn snapshot_of(items: Seq<CleanupItem>) -> Seq<CleanupItem>
    decreases items.len(),
{
    if items.len() == 0 {
        Seq::empty()
    } else {
        let rest = snapshot_of(items.drop_last());
        if worth_restoring(items.last()) {
            rest.push(items.last())
        } else {
            rest
        }
    }
}

/// A copy of `item`.
fn copy_item(item: &CleanupItem) -> (r: CleanupItem)
    ensures
        r == *item,
{
    CleanupItem {
        nom: item.nom.clone(),
        categorie: item.categorie.clone(),
        etat: item.etat.clone(),
        detail: item.detail.clone(),
        ancien: match &item.ancien {
            Some(a) => Some(a.clone()),
            None => None,
        },
    }
}

/// What a cleanup saves to be able to undo it: the targets it changed whose
/// previous state is known, in order.
pub fn snapshot_items(result: &CleanupResult) -> (r: Vec<CleanupItem>)
    ensures
        r@ == snapshot_of(result.items@),
{
    let items = &result.items;
    let n = items.len();
    let modified = String::from_str(STATE_MODIFIED);
    let mut saved: Vec<CleanupItem> = Vec::new();
    let mut i: usize = 0;
    while i < n
        invariant
            n == items@.len(),
            modified@ == STATE_MODIFIED@,
            i <= n,
            saved@ == snapshot_of(items@.take(i as int)),
        decreases n - i,
    {
        proof {
            assert(items@.take(i + 1).drop_last() =~= items@.take(i as int));
        }
        let item = &items[i];
        if item.etat == modified && item.ancien.is_some() {
            saved.push(copy_item(item));
        }
        i = i + 1;
    }
    proof {
        assert(items@.take(n as int) =~= items@);
    }
    saved
}

/// Start of the cleanup script, up to the mode flag.
pub const CLEANUP_HEAD: &'static str = r#"
        $apply = "#;

/// Between the mode flag and the list of services.
pub const CLEANUP_SERVICES_OPEN: &'static str = r#"
        $services = @("#;

/// Between the list of services and the list of tasks.
pub const CLEANUP_TASKS_OPEN: &'static str = r#")
        $tasks = @("#;

/// Rest of the cleanup script, after the list of tasks.
pub const CLEANUP_BODY: &'static str = r#")
        $items = @()

        foreach ($s in $services) {
            $svc = Get-Service -Name $s -ErrorAction SilentlyContinue
            if (-not $svc) {
                $items += [pscustomobject]@{ nom=$s; categorie='service'; etat='absent'; detail='Service non installe sur ce poste'; ancien=$null }
                continue
            }
            $old = $svc.StartType.ToString()
            if (-not $apply) {
                $items += [pscustomobject]@{ nom=$s; categorie='service'; etat='cible'; detail='Sera passe en demarrage Manuel'; ancien=$old }
                continue
            }
            try {
                Set-Service -Name $s -StartupType Manual -ErrorAction Stop
                $items += [pscustomobject]@{ nom=$s; categorie='service'; etat='modifie'; detail='Passe en Manuel'; ancien=$old }
            } catch {
                $items += [pscustomobject]@{ nom=$s; categorie='service'; etat='echec'; detail='Echec (droits admin requis ?)'; ancien=$old }
            }
        }

        foreach ($t in $tasks) {
            $task = Get-ScheduledTask -TaskName $t -ErrorAction SilentlyContinue
            if (-not $task) {
                $items += [pscustomobject]@{ nom=$t; categorie='tache'; etat='absent'; detail='Tache introuvable sur ce poste'; ancien=$null }
                continue
            }
            $old = $task.State.ToString()
            if (-not $apply) {
                $items += [pscustomobject]@{ nom=$t; categorie='tache'; etat='cible'; detail='Sera desactivee'; ancien=$old }
                continue
            }
            try {
                Disable-ScheduledTask -TaskName $t -TaskPath $task.TaskPath -ErrorAction Stop | Out-Null
                $items += [pscustomobject]@{ nom=$t; categorie='tache'; etat='modifie'; detail='Desactivee'; ancien=$old }
            } catch {
                $items += [pscustomobject]@{ nom=$t; categorie='tache'; etat='echec'; detail='Echec'; ancien=$old }
            }
        }

        ConvertTo-Json @($items) -Compress
        "#;

/// Service restore block, from its start up to the service name.
pub const SERVICE_RESTORE_0: &'static str = r#"
                try {
                    Set-Service -Name '"#;

/// Service restore block, between the service name and its start type.
pub const SERVICE_RESTORE_1: &'static str = r#"' -StartupType "#;

/// Service restore block, after the start type up to the name in the success report.
pub const SERVICE_RESTORE_2: &'static str = r#" -ErrorAction Stop
                    $items += [pscustomobject]@{ nom='"#;

/// Service restore block, between the name and the start type of the success report.
pub const SERVICE_RESTORE_3: &'static str = r#"'; categorie='service'; etat='restaure'; detail='Restaure en "#;

/// Service restore block, between the success detail and its previous state.
pub const SERVICE_RESTORE_4: &'static str = r#"'; ancien='"#;

/// Service restore block, end of the success report up to the name in the failure report.
pub const SERVICE_RESTORE_5: &'static str = r#"' }
                } catch {
                    $items += [pscustomobject]@{ nom='"#;

/// Service restore block, between the name and the previous state of the failure report.
pub const SERVICE_RESTORE_6: &'static str = r#"'; categorie='service'; etat='echec'; detail='Echec de restauration'; ancien='"#;

/// Service restore block, end of the failure report and of the block.
pub const SERVICE_RESTORE_7: &'static str = r#"' }
                }
                "#;

/// Task restore block, from its start up to the task name looked up.
pub const TASK_RESTORE_0: &'static str = r#"
                    $tk = Get-ScheduledTask -TaskName '"#;

/// Task restore block, up to the task name that is enabled again.
pub const TASK_RESTORE_1: &'static str = r#"' -ErrorAction SilentlyContinue
                    if ($tk) {
                        try {
                            Enable-ScheduledTask -TaskName '"#;

/// Task restore block, after that name up to the name in the success report.
pub const TASK_RESTORE_2: &'static str = r#"' -TaskPath $tk.TaskPath -ErrorAction Stop | Out-Null
                            $items += [pscustomobject]@{ nom='"#;

/// Task restore block, between the name and the previous state of the success report.
pub const TASK_RESTORE_3: &'static str = r#"'; categorie='tache'; etat='restaure'; detail='Reactivee'; ancien='"#;

/// Task restore block, end of the success report up to the name in the failure report.
pub const TASK_RESTORE_4: &'static str = r#"' }
                        } catch {
                            $items += [pscustomobject]@{ nom='"#;

/// Task restore block, between the name and the previous state of the failure report.
pub const TASK_RESTORE_5: &'static str = r#"'; categorie='tache'; etat='echec'; detail='Echec de restauration'; ancien='"#;

/// Task restore block, end of the failure report and of the block.
pub const TASK_RESTORE_6: &'static str = r#"' }
                        }
                    }
                    "#;

/// PowerShell script that lists the start-up programs as compact JSON.
pub const STARTUP_AUDIT_SCRIPT: &'static str = r#"
        Get-CimInstance Win32_StartupCommand |
            Select-Object @{n='programme';e={$_.Name}}, @{n='emplacement';e={$_.Location}} |
            Sort-Object programme | ConvertTo-Json -Compress
    "#;

/// Services of updaters and monitoring tools that a cleanup sets to manual
/// start. `chromoting` (Chrome Remote Desktop) is left out on purpose.
pub open spec fn service_names() -> Seq<Seq<char>> {
    seq![
        "MTAgentService"@,
        "MTSchedulerService"@,
        "LGHUBUpdaterService"@,
        "gupdate"@,
        "gupdatem"@,
        "edgeupdate"@,
        "edgeupdatem"@,
        "BraveElevationService"@,
    ]
}

/// Scheduled tasks of updaters and monitoring tools that a cleanup disables.
pub open spec fn task_names() -> Seq<Seq<char>> {
    seq!["GBTECService"@, "GraphicsCardEngine"@, "SIV"@, "SIV-VGA"@]
}

/// The names that a list of text slices holds.
pub open spec fn names_of(list: Seq<&str>) -> Seq<Seq<char>> {
    list.map_values(|s: &str| s@)
}

/// The services that a cleanup targets.
pub fn service_candidates() -> (r: &'static [&'static str])
    ensures
        names_of(r@) == service_names(),
{
    let r: &'static [&'static str] = &[
        "MTAgentService",
        "MTSchedulerService",
        "LGHUBUpdaterService",
        "gupdate",
        "gupdatem",
        "edgeupdate",
        "edgeupdatem",
        "BraveElevationService",
    ];
    assert(names_of(r@) =~= service_names());
    r
}

/// The scheduled tasks that a cleanup targets.
pub fn task_candidates() -> (r: &'static [&'static str])
    ensures
        names_of(r@) == task_names(),
{
    let r: &'static [&'static str] = &["GBTECService", "GraphicsCardEngine", "SIV", "SIV-VGA"];
    assert(names_of(r@) =~= task_names());
    r
}


/// PowerShell literal for the apply mode.
pub const APPLY_TRUE: &'static str = "$true";

/// PowerShell literal for the preview mode.
pub const APPLY_FALSE: &'static str = "$false";

/// Quote that surrounds each name in a PowerShell list.
pub const QUOTE: &'static str = "'";

/// Separator between the names of a PowerShell list.
pub const LIST_SEPARATOR: &'static str = ",";

/// `name` between single quotes.
pub open spec fn quoted(name: Seq<char>) -> Seq<char> {
    QUOTE@ + name + QUOTE@
}

/// The names, each quoted, separated by commas: the inside of a PowerShell
/// array literal.
pub open spec fn quoted_list(names: Seq<Seq<char>>) -> Seq<char>
    decreases names.len(),
{
    if names.len() == 0 {
        Seq::empty()
    } else if names.len() == 1 {
        quoted(names[0])
    } else {
        quoted_list(names.drop_last()) + LIST_SEPARATOR@ + quoted(names.last())
    }
}

/// The PowerShell literal for the mode `apply`.
pub open spec fn apply_literal(apply: bool) -> Seq<char> {
    if apply {
        APPLY_TRUE@
    } else {
        APPLY_FALSE@
    }
}

/// The cleanup script for the mode literal `mode` and the given targets.
pub open spec fn cleanup_script_for(
    mode: Seq<char>,
    services: Seq<Seq<char>>,
    tasks: Seq<Seq<char>>,
) -> Seq<char> {
    CLEANUP_HEAD@ + mode + CLEANUP_SERVICES_OPEN@ + quoted_list(services) + CLEANUP_TASKS_OPEN@
        + quoted_list(tasks) + CLEANUP_BODY@
}

/// The cleanup script in the mode `apply` (preview when false).
pub open spec fn cleanup_script(apply: bool) -> Seq<char> {
    cleanup_script_for(apply_literal(apply), service_names(), task_names())
}

/// Appends the names of `list`, quoted and separated by commas, to `out`.
fn append_quoted_list(out: &mut String, list: &[&str])
    ensures
        final(out)@ == old(out)@ + quoted_list(names_of(list@)),
{
    let ghost start = out@;
    let n = list.len();
    let mut i: usize = 0;
    while i < n
        invariant
            n == list@.len(),
            i <= n,
            out@ == start + quoted_list(names_of(list@.take(i as int))),
        decreases n - i,
    {
        proof {
            let before = names_of(list@.take(i as int));
            let after = names_of(list@.take(i + 1));
            assert(after.drop_last() =~= before);
            assert(after.last() == list@[i as int]@);
            assert(after.len() == i + 1);
            if i == 0 {
                assert(before =~= Seq::<Seq<char>>::empty());
            }
        }
        if i > 0 {
            out.append(LIST_SEPARATOR);
        }
        out.append(QUOTE);
        out.append(list[i]);
        out.append(QUOTE);
        proof {
            let after = names_of(list@.take(i + 1));
            if i == 0 {
                assert(quoted_list(after) == quoted(after[0]));
            }
        }
        i = i + 1;
    }
    proof {
        assert(list@.take(n as int) =~= list@);
    }
}

/// Builds the cleanup script, in preview mode (`apply` false) or for real
/// (`apply` true). Both modes name exactly the same services and tasks, so
/// the preview cannot announce other targets than the real run.
pub fn build_cleanup_script(apply: bool) -> (r: String)
    ensures
        r@ == cleanup_script(apply),
{
    let mut script = String::from_str(CLEANUP_HEAD);
    script.append(if apply { APPLY_TRUE } else { APPLY_FALSE });
    script.append(CLEANUP_SERVICES_OPEN);
    append_quoted_list(&mut script, service_candidates());
    script.append(CLEANUP_TASKS_OPEN);
    append_quoted_list(&mut script, task_candidates());
    script.append(CLEANUP_BODY);
    script
}


/// Start of the restore script.
pub const RESTORE_HEAD: &'static str = "$items = @()\n";

/// End of the restore script.
pub const RESTORE_TAIL: &'static str = "\nConvertTo-Json @($items) -Compress\n";

/// Category of the targets that are services.
pub const CATEGORY_SERVICE: &'static str = "service";

/// Category of the targets that are scheduled tasks.
pub const CATEGORY_TASK: &'static str = "tache";

/// State of a scheduled task that was active.
pub const TASK_READY: &'static str = "Ready";

/// The script block that gives service `nom` its start type `ancien` back.
pub open spec fn service_restore_block(nom: Seq<char>, ancien: Seq<char>) -> Seq<char> {
    SERVICE_RESTORE_0@ + nom + SERVICE_RESTORE_1@ + ancien + SERVICE_RESTORE_2@ + nom + SERVICE_RESTORE_3@ + ancien + SERVICE_RESTORE_4@ + ancien + SERVICE_RESTORE_5@ + nom + SERVICE_RESTORE_6@ + ancien + SERVICE_RESTORE_7@
}

/// The script block that enables scheduled task `nom` again.
pub open spec fn task_restore_block(nom: Seq<char>, ancien: Seq<char>) -> Seq<char> {
    TASK_RESTORE_0@ + nom + TASK_RESTORE_1@ + nom + TASK_RESTORE_2@ + nom + TASK_RESTORE_3@ + ancien + TASK_RESTORE_4@ + nom + TASK_RESTORE_5@ + ancien + TASK_RESTORE_6@
}

/// The previous state saved for `item`, empty when none was saved.
pub open spec fn previous_state(item: CleanupItem) -> Seq<char> {
    match item.ancien {
        Some(a) => a@,
        None => Seq::empty(),
    }
}

/// The restore block for one saved target: services get their start type
/// back; tasks are enabled again only if they were active (`Ready`, in any
/// letter case); anything else is skipped.
pub open spec fn restore_block(item: CleanupItem) -> Seq<char> {
    if item.categorie@ == CATEGORY_SERVICE@ {
        service_restore_block(item.nom@, previous_state(item))
    } else if item.categorie@ == CATEGORY_TASK@ && eq_ignoring_ascii_case(
        previous_state(item),
        TASK_READY@,
    ) {
        task_restore_block(item.nom@, previous_state(item))
    } else {
        Seq::empty()
    }
}

/// The restore blocks of the saved targets, in order.
pub open spec fn restore_blocks(items: Seq<CleanupItem>) -> Seq<char>
    decreases items.len(),
{
    if items.len() == 0 {
        Seq::empty()
    } else {
        restore_blocks(items.drop_last()) + restore_block(items.last())
    }
}

/// The restore script for the saved targets.
pub open spec fn restore_script(items: Seq<CleanupItem>) -> Seq<char> {
    RESTORE_HEAD@ + restore_blocks(items) + RESTORE_TAIL@
}

/// Appends the service restore block for `nom` and `ancien` to `out`.
fn append_service_block(out: &mut String, nom: &str, ancien: &str)
    ensures
        final(out)@ == old(out)@ + service_restore_block(nom@, ancien@),
{
    out.append(SERVICE_RESTORE_0);
    out.append(nom);
    out.append(SERVICE_RESTORE_1);
    out.append(ancien);
    out.append(SERVICE_RESTORE_2);
    out.append(nom);
    out.append(SERVICE_RESTORE_3);
    out.append(ancien);
    out.append(SERVICE_RESTORE_4);
    out.append(ancien);
    out.append(SERVICE_RESTORE_5);
    out.append(nom);
    out.append(SERVICE_RESTORE_6);
    out.append(ancien);
    out.append(SERVICE_RESTORE_7);
    assert(out@ =~= old(out)@ + service_restore_block(nom@, ancien@));
}

/// Appends the task restore block for `nom` and `ancien` to `out`.
fn append_task_block(out: &mut String, nom: &str, ancien: &str)
    ensures
        final(out)@ == old(out)@ + task_restore_block(nom@, ancien@),
{
    out.append(TASK_RESTORE_0);
    out.append(nom);
    out.append(TASK_RESTORE_1);
    out.append(nom);
    out.append(TASK_RESTORE_2);
    out.append(nom);
    out.append(TASK_RESTORE_3);
    out.append(ancien);
    out.append(TASK_RESTORE_4);
    out.append(nom);
    out.append(TASK_RESTORE_5);
    out.append(ancien);
    out.append(TASK_RESTORE_6);
    assert(out@ =~= old(out)@ + task_restore_block(nom@, ancien@));
}

/// Builds the script that undoes a cleanup from the targets it saved:
/// every saved service gets its previous start type back, every saved task
/// that was active is enabled again, and the script reports each target.
pub fn build_restore_script(saved: &Vec<CleanupItem>) -> (r: String)
    ensures
        r@ == restore_script(saved@),
{
    let service = String::from_str(CATEGORY_SERVICE);
    let task = String::from_str(CATEGORY_TASK);
    let mut script = String::from_str(RESTORE_HEAD);
    let n = saved.len();
    let mut i: usize = 0;
    while i < n
        invariant
            n == saved@.len(),
            i <= n,
            service@ == CATEGORY_SERVICE@,
            task@ == CATEGORY_TASK@,
            script@ == RESTORE_HEAD@ + restore_blocks(saved@.take(i as int)),
        decreases n - i,
    {
        proof {
            assert(saved@.take(i + 1).drop_last() =~= saved@.take(i as int));
        }
        let it = &saved[i];
        let ancien: String = match &it.ancien {
            Some(a) => a.clone(),
            None => String::new(),
        };
        assert(ancien@ == previous_state(*it));
        if it.categorie == service {
            append_service_block(&mut script, it.nom.as_str(), ancien.as_str());
        } else if it.categorie == task {
            if eq_ignore_ascii_case(ancien.as_str(), TASK_READY) {
                append_task_block(&mut script, it.nom.as_str(), ancien.as_str());
            }
        }
        proof {
            assert(saved@.take(i + 1).last() == *it);
            assert(script@ =~= RESTORE_HEAD@ + restore_blocks(saved@.take(i + 1)));
        }
        i = i + 1;
    }
    proof {
        assert(saved@.take(n as int) =~= saved@);
    }
    script.append(RESTORE_TAIL);
    script
}


/// `chromoting` (Chrome Remote Desktop) is never among the services that a
/// cleanup targets.
pub proof fn lemma_chromoting_never_targeted()
    ensures
        !service_names().contains("chromoting"@),
{
    reveal_strlit("chromoting");
    reveal_strlit("MTAgentService");
    reveal_strlit("MTSchedulerService");
    reveal_strlit("LGHUBUpdaterService");
    reveal_strlit("gupdate");
    reveal_strlit("gupdatem");
    reveal_strlit("edgeupdate");
    reveal_strlit("edgeupdatem");
    reveal_strlit("BraveElevationService");
    let names = service_names();
    assert forall|k: int| 0 <= k < names.len() implies names[k] != "chromoting"@ by {
        if names[k].len() == "chromoting"@.len() {
            assert(names[k][0] != "chromoting"@[0]);
        }
    }
}

/// The preview script and the real cleanup script are the same text but
/// for the mode flag: the preview names exactly the targets that the real
/// run changes.
pub proof fn lemma_preview_and_cleanup_share_targets()
    ensures
        exists|head: Seq<char>, rest: Seq<char>|
            cleanup_script(false) == head + APPLY_FALSE@ + rest && cleanup_script(true) == head
                + APPLY_TRUE@ + rest,
{
    let rest = CLEANUP_SERVICES_OPEN@ + quoted_list(service_names()) + CLEANUP_TASKS_OPEN@
        + quoted_list(task_names()) + CLEANUP_BODY@;
    assert(cleanup_script(false) =~= CLEANUP_HEAD@ + APPLY_FALSE@ + rest);
    assert(cleanup_script(true) =~= CLEANUP_HEAD@ + APPLY_TRUE@ + rest);
}

/// A restoration only touches services and the scheduled tasks that were
/// active (`Ready`, in any letter case) before the cleanup: for any other
/// saved task, and for a target of any other category, it does nothing.
pub proof fn lemma_inactive_tasks_stay_disabled(item: CleanupItem)
    requires
        item.categorie@ != "service"@,
        !(item.categorie@ == "tache"@ && eq_ignoring_ascii_case(
            match item.ancien {
                Some(a) => a@,
                None => Seq::<char>::empty(),
            },
            "Ready"@,
        )),
    ensures
        restore_block(item) == Seq::<char>::empty(),
{
}

/// The undo snapshot holds only targets that the cleanup changed and whose
/// previous state is known, and no more of them than the cleanup counted
/// as changed.
pub proof fn lemma_snapshot_holds_changed_targets(items: Seq<CleanupItem>)
    ensures
        forall|k: int|
            0 <= k < snapshot_of(items).len() ==> #[trigger] worth_restoring(snapshot_of(items)[k]),
        snapshot_of(items).len() <= count_in_state(items, STATE_MODIFIED@),
    decreases items.len(),
{
    if items.len() > 0 {
        lemma_snapshot_holds_changed_targets(items.drop_last());
    }
}

/// What undoing a cleanup does for one target of its report: a changed
/// service gets its previous start type back, a changed task is enabled
/// again only if it was active (`Ready`, in any letter case), and every
/// other target (unchanged, or changed with no known previous state, or of
/// another category) is left alone.
pub open spec fn undo_block(item: CleanupItem) -> Seq<char> {
    if !worth_restoring(item) {
        Seq::empty()
    } else if item.categorie@ == CATEGORY_SERVICE@ {
        service_restore_block(item.nom@, item.ancien->Some_0@)
    } else if item.categorie@ == CATEGORY_TASK@ && eq_ignoring_ascii_case(
        item.ancien->Some_0@,
        TASK_READY@,
    ) {
        task_restore_block(item.nom@, item.ancien->Some_0@)
    } else {
        Seq::empty()
    }
}

/// The undo blocks of all the targets of a cleanup report, in order.
pub open spec fn undo_blocks(items: Seq<CleanupItem>) -> Seq<char>
    decreases items.len(),
{
    if items.len() == 0 {
        Seq::empty()
    } else {
        undo_blocks(items.drop_last()) + undo_block(items.last())
    }
}

/// Undoing a cleanup: the restore script built from the snapshot of a
/// cleanup report puts back, in the report's order, each changed service
/// with its previous start type and each changed task that was `Ready`,
/// and names no other target of the report.
pub proof fn lemma_restore_undoes_cleanup(items: Seq<CleanupItem>)
    ensures
        restore_script(snapshot_of(items)) == RESTORE_HEAD@ + undo_blocks(items) + RESTORE_TAIL@,
        restore_blocks(snapshot_of(items)) == undo_blocks(items),
    decreases items.len(),
{
    if items.len() > 0 {
        lemma_restore_undoes_cleanup(items.drop_last());
        let prefix = snapshot_of(items.drop_last());
        let last = items.last();
        if worth_restoring(last) {
            assert(prefix.push(last).drop_last() =~= prefix);
            assert(previous_state(last) == last.ancien->Some_0@);
            assert(restore_block(last) == undo_block(last));
        } else {
            assert(undo_block(last) == Seq::<char>::empty());
            assert(undo_blocks(items) =~= undo_blocks(items.drop_last()));
        }
    }
}

/// The command that sets service `nom` to start type `start_type`.
pub open spec fn set_service_command(nom: Seq<char>, start_type: Seq<char>) -> Seq<char> {
    "Set-Service -Name '"@ + nom + "' -StartupType "@ + start_type + " -ErrorAction Stop"@
}

/// The command that enables scheduled task `nom` again.
pub open spec fn enable_task_command(nom: Seq<char>) -> Seq<char> {
    "Enable-ScheduledTask -TaskName '"@ + nom + "' -TaskPath"@
}

/// `part` occurs in `whole`.
pub open spec fn occurs_in(part: Seq<char>, whole: Seq<char>) -> bool {
    exists|pre: Seq<char>, post: Seq<char>| whole == pre + part + post
}

/// The block that restores a service sets it to exactly the start type it
/// had before, whatever that start type is.
pub proof fn lemma_service_block_sets_previous_type(nom: Seq<char>, start_type: Seq<char>)
    ensures
        occurs_in(set_service_command(nom, start_type), service_restore_block(nom, start_type)),
{
    reveal_strlit(r#"
                try {
                    Set-Service -Name '"#);
    reveal_strlit(r#"' -StartupType "#);
    reveal_strlit(r#" -ErrorAction Stop
                    $items += [pscustomobject]@{ nom='"#);
    reveal_strlit("Set-Service -Name '");
    reveal_strlit("' -StartupType ");
    reveal_strlit(" -ErrorAction Stop");
    let p0 = SERVICE_RESTORE_0@;
    let head = p0.subrange(0, p0.len() - 19);
    assert(p0 =~= head + "Set-Service -Name '"@);
    assert(SERVICE_RESTORE_1@ =~= "' -StartupType "@);
    let p2 = SERVICE_RESTORE_2@;
    let tail2 = p2.subrange(18, p2.len() as int);
    assert(p2 =~= " -ErrorAction Stop"@ + tail2);
    let block = service_restore_block(nom, start_type);
    let rest = block.subrange(
        (p0.len() + nom.len() + SERVICE_RESTORE_1@.len() + start_type.len() + p2.len()) as int,
        block.len() as int,
    );
    let post = tail2 + rest;
    assert(block =~= head + set_service_command(nom, start_type) + post);
}

/// The block that enables a task again names that task.
pub proof fn lemma_task_block_enables_task(nom: Seq<char>, ancien: Seq<char>)
    ensures
        occurs_in(enable_task_command(nom), task_restore_block(nom, ancien)),
{
    reveal_strlit(r#"' -ErrorAction SilentlyContinue
                    if ($tk) {
                        try {
                            Enable-ScheduledTask -TaskName '"#);
    reveal_strlit(r#"' -TaskPath $tk.TaskPath -ErrorAction Stop | Out-Null
                            $items += [pscustomobject]@{ nom='"#);
    reveal_strlit("Enable-ScheduledTask -TaskName '");
    reveal_strlit("' -TaskPath");
    let p1 = TASK_RESTORE_1@;
    let k1 = p1.len() - 32;
    let head1 = p1.subrange(0, k1);
    assert(p1 =~= head1 + "Enable-ScheduledTask -TaskName '"@);
    let p2 = TASK_RESTORE_2@;
    let tail2 = p2.subrange(11, p2.len() as int);
    assert(p2 =~= "' -TaskPath"@ + tail2);
    let block = task_restore_block(nom, ancien);
    let pre = TASK_RESTORE_0@ + nom + head1;
    let start = (TASK_RESTORE_0@.len() + nom.len() + p1.len() + nom.len() + p2.len()) as int;
    let post = tail2 + block.subrange(start, block.len() as int);
    assert(block =~= pre + enable_task_command(nom) + post);
}

/// Restore blocks of two lists joined are the blocks of each, joined.
pub proof fn lemma_restore_blocks_concat(a: Seq<CleanupItem>, b: Seq<CleanupItem>)
    ensures
        restore_blocks(a + b) == restore_blocks(a) + restore_blocks(b),
    decreases b.len(),
{
    if b.len() == 0 {
        assert(a + b =~= a);
        assert(restore_blocks(b) =~= Seq::<char>::empty());
        assert(restore_blocks(a) + restore_blocks(b) =~= restore_blocks(a));
    } else {
        lemma_restore_blocks_concat(a, b.drop_last());
        assert((a + b).drop_last() =~= a + b.drop_last());
        assert((a + b).last() == b.last());
    }
}

/// The restore script holds the block of every saved target.
pub proof fn lemma_restore_script_holds_block(saved: Seq<CleanupItem>, k: int)
    requires
        0 <= k < saved.len(),
    ensures
        occurs_in(restore_block(saved[k]), restore_script(saved)),
{
    let before = saved.take(k);
    let after = saved.skip(k + 1);
    assert(saved =~= before + seq![saved[k]] + after);
    lemma_restore_blocks_concat(before + seq![saved[k]], after);
    lemma_restore_blocks_concat(before, seq![saved[k]]);
    let one = seq![saved[k]];
    assert(one.drop_last() =~= Seq::<CleanupItem>::empty());
    assert(restore_blocks(one.drop_last()) =~= Seq::<char>::empty());
    assert(one.last() == saved[k]);
    assert(restore_blocks(one) =~= restore_block(saved[k]));
    assert(restore_script(saved) =~= (RESTORE_HEAD@ + restore_blocks(before)) + restore_block(
        saved[k],
    ) + (restore_blocks(after) + RESTORE_TAIL@));
}

/// `part` occurs in `inner`, which occurs in `whole`.
proof fn lemma_occurs_transitive(part: Seq<char>, inner: Seq<char>, whole: Seq<char>)
    requires
        occurs_in(part, inner),
        occurs_in(inner, whole),
    ensures
        occurs_in(part, whole),
{
    let (a, b) = choose|a: Seq<char>, b: Seq<char>| inner == a + part + b;
    let (c, d) = choose|c: Seq<char>, d: Seq<char>| whole == c + inner + d;
    assert(whole =~= (c + a) + part + (b + d));
}

/// Undoing puts every saved service back to exactly its previous start
/// type (empty when none was saved), and enables again every saved task
/// that was active (`Ready` in any letter case).
pub proof fn lemma_restore_script_puts_back_previous_state(saved: Seq<CleanupItem>, k: int)
    requires
        0 <= k < saved.len(),
    ensures
        saved[k].categorie@ == "service"@ ==> occurs_in(
            set_service_command(
                saved[k].nom@,
                match saved[k].ancien {
                    Some(a) => a@,
                    None => Seq::<char>::empty(),
                },
            ),
            restore_script(saved),
        ),
        saved[k].categorie@ == "tache"@ && eq_ignoring_ascii_case(
            match saved[k].ancien {
                Some(a) => a@,
                None => Seq::<char>::empty(),
            },
            "Ready"@,
        ) ==> occurs_in(enable_task_command(saved[k].nom@), restore_script(saved)),
{
    reveal_strlit("service");
    reveal_strlit("tache");
    let item = saved[k];
    let a = match item.ancien {
        Some(x) => x@,
        None => Seq::<char>::empty(),
    };
    lemma_restore_script_holds_block(saved, k);
    assert(previous_state(item) == a);
    if item.categorie@ == "service"@ {
        lemma_service_block_sets_previous_type(item.nom@, a);
        lemma_occurs_transitive(
            set_service_command(item.nom@, a),
            restore_block(item),
            restore_script(saved),
        );
    }
    if item.categorie@ == "tache"@ && eq_ignoring_ascii_case(a, "Ready"@) {
        assert(CATEGORY_TASK@[0] != CATEGORY_SERVICE@[0]);
        lemma_task_block_enables_task(item.nom@, a);
        lemma_occurs_transitive(enable_task_command(item.nom@), restore_block(item), restore_script(saved));
    }
}

/// Every successful parse attempt is kept, in order, and nothing else:
/// the kept values are the values of the attempts that are `Some`.
pub proof fn lemma_parsed_values_keeps_every_success<T>(attempts: Seq<Option<T>>)
    ensures
        parsed_values(attempts) == attempts.filter(|o: Option<T>| o is Some).map_values(
            |o: Option<T>| o->Some_0,
        ),
        parsed_values(attempts).len() == attempts.filter(|o: Option<T>| o is Some).len(),
    decreases attempts.len(),
{
    reveal(Seq::filter);
    if attempts.len() > 0 {
        lemma_parsed_values_keeps_every_success(attempts.drop_last());
        let f = attempts.drop_last().filter(|o: Option<T>| o is Some);
        match attempts.last() {
            Some(v) => {
                assert(f.push(attempts.last()).map_values(|o: Option<T>| o->Some_0) =~= f.map_values(
                    |o: Option<T>| o->Some_0,
                ).push(v));
            },
            None => {},
        }
    }
}

/// A successful attempt added at the end is kept at the end.
pub proof fn lemma_parsed_values_push_success<T>(attempts: Seq<Option<T>>, v: T)
    ensures
        parsed_values(attempts.push(Some(v))) == parsed_values(attempts).push(v),
{
    assert(attempts.push(Some(v)).drop_last() =~= attempts);
}

/// The number of targets counted in a state is the number of targets of the
/// report whose state is exactly that one.
pub proof fn lemma_count_in_state_counts_exactly(items: Seq<CleanupItem>, state: Seq<char>)
    ensures
        count_in_state(items, state) == items.filter(|i: CleanupItem| i.etat@ == state).len(),
    decreases items.len(),
{
    reveal(Seq::filter);
    if items.len() > 0 {
        lemma_count_in_state_counts_exactly(items.drop_last(), state);
    }
}

/// A report with no target in a state counts none in it; in particular a
/// preview, whose targets are never `modifie`, counts no change.
pub proof fn lemma_count_in_state_zero(items: Seq<CleanupItem>, state: Seq<char>)
    requires
        forall|k: int| 0 <= k < items.len() ==> #[trigger] items[k].etat@ != state,
    ensures
        count_in_state(items, state) == 0,
    decreases items.len(),
{
    if items.len() > 0 {
        assert(items.last() == items[items.len() - 1]);
        lemma_count_in_state_zero(items.drop_last(), state);
    }
}

/// The undo snapshot is exactly the targets of the report that were
/// changed (`modifie`) and whose previous state is known, in order: none
/// of them is left out and nothing else is saved.
pub proof fn lemma_snapshot_is_changed_targets(items: Seq<CleanupItem>)
    ensures
        snapshot_of(items) == items.filter(
            |i: CleanupItem| i.etat@ == "modifie"@ && i.ancien is Some,
        ),
        forall|k: int|
            0 <= k < items.len() && (#[trigger] items[k]).etat@ == "modifie"@ && items[k].ancien is Some
                ==> snapshot_of(items).contains(items[k]),
    decreases items.len(),
{
    reveal(Seq::filter);
    if items.len() > 0 {
        lemma_snapshot_is_changed_targets(items.drop_last());
    }
    assert forall|k: int|
        0 <= k < items.len() && (#[trigger] items[k]).etat@ == "modifie"@ && items[k].ancien is Some
        implies snapshot_of(items).contains(items[k]) by {
        items.lemma_filter_contains(|i: CleanupItem| i.etat@ == "modifie"@ && i.ancien is Some, k);
    }
}

/// The full text of the block that restores service `nom` to start type
/// `ancien`: it tries `Set-Service` with that start type and reports the
/// service as `restaure` with that start type, or as `echec`.
pub proof fn lemma_service_block_text(nom: Seq<char>, ancien: Seq<char>)
    ensures
        service_restore_block(nom, ancien) == "\n                try {\n                    Set-Service -Name '"@
            + nom
            + "' -StartupType "@
            + ancien
            + " -ErrorAction Stop\n                    $items += [pscustomobject]@{ nom='"@
            + nom
            + "'; categorie='service'; etat='restaure'; detail='Restaure en "@
            + ancien
            + "'; ancien='"@
            + ancien
            + "' }\n                } catch {\n                    $items += [pscustomobject]@{ nom='"@
            + nom
            + "'; categorie='service'; etat='echec'; detail='Echec de restauration'; ancien='"@
            + ancien
            + "' }\n                }\n                "@,
{
}

/// The full text of the block that enables task `nom` again: it looks the
/// task up, enables it if it exists and reports it as `restaure`, or as
/// `echec`.
pub proof fn lemma_task_block_text(nom: Seq<char>, ancien: Seq<char>)
    ensures
        task_restore_block(nom, ancien) == "\n                    $tk = Get-ScheduledTask -TaskName '"@
            + nom
            + "' -ErrorAction SilentlyContinue\n                    if ($tk) {\n                        try {\n                            Enable-ScheduledTask -TaskName '"@
            + nom
            + "' -TaskPath $tk.TaskPath -ErrorAction Stop | Out-Null\n                            $items += [pscustomobject]@{ nom='"@
            + nom
            + "'; categorie='tache'; etat='restaure'; detail='Reactivee'; ancien='"@
            + ancien
            + "' }\n                        } catch {\n                            $items += [pscustomobject]@{ nom='"@
            + nom
            + "'; categorie='tache'; etat='echec'; detail='Echec de restauration'; ancien='"@
            + ancien
            + "' }\n                        }\n                    }\n                    "@,
{
}

/// Adding a name to a non-empty PowerShell list appends a comma and the
/// name between single quotes; a list of one name is that name quoted.
pub proof fn lemma_quoted_list_grows_by_name(names: Seq<Seq<char>>, name: Seq<char>)
    ensures
        names.len() == 0 ==> quoted_list(names.push(name)) == "'"@ + name + "'"@,
        names.len() > 0 ==> quoted_list(names.push(name)) == quoted_list(names) + ","@ + "'"@
            + name + "'"@,
{
    assert(names.push(name).drop_last() =~= names);
    if names.len() == 0 {
        assert(names.push(name)[0] == name);
    }
}

/// The restore script starts with the empty report list and ends by
/// printing it as compact JSON, with the restore blocks in between.
pub proof fn lemma_restore_script_frame(saved: Seq<CleanupItem>)
    ensures
        restore_script(saved) == "$items = @()\n"@ + restore_blocks(saved)
            + "\nConvertTo-Json @($items) -Compress\n"@,
{
}

} // verus!
