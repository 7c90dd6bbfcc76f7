use opt_tweak_pc::ps::{
    normalize_json_root, powershell_arguments, powershell_path, run_ps, run_ps_json, JsonRoot,
    ProcessOutput,
};

#[test]
fn powershell_path_below_system_root() {
    assert_eq!(
        powershell_path(Some(r"D:\Win".to_string())),
        r"D:\Win\System32\WindowsPowerShell\v1.0\powershell.exe"
    );
}

#[test]
fn powershell_path_defaults_to_c_windows() {
    assert_eq!(
        powershell_path(None),
        r"C:\Windows\System32\WindowsPowerShell\v1.0\powershell.exe"
    );
}

#[test]
fn powershell_arguments_are_no_profile_then_command() {
    assert_eq!(powershell_arguments("Get-Date"), vec!["-NoProfile", "-Command", "Get-Date"]);
}

#[test]
fn run_ps_success_gives_stdout_decoded() {
    let out = ProcessOutput { success: true, stdout: b"True\r\n".to_vec(), stderr: b"x".to_vec() };
    assert_eq!(run_ps(Ok(out)), Ok("True\r\n".to_string()));
}

#[test]
fn run_ps_replaces_invalid_utf8() {
    let out = ProcessOutput { success: true, stdout: vec![0x66, 0xff, 0x6f], stderr: vec![] };
    assert_eq!(run_ps(Ok(out)), Ok("f\u{fffd}o".to_string()));
}

#[test]
fn run_ps_failure_gives_stderr() {
    let out = ProcessOutput {
        success: false,
        stdout: b"ignored".to_vec(),
        stderr: "Accès refusé".as_bytes().to_vec(),
    };
    assert_eq!(run_ps(Ok(out)), Err("Accès refusé".to_string()));
}

#[test]
fn run_ps_spawn_failure_message() {
    assert_eq!(
        run_ps(Err("introuvable".to_string())),
        Err("Echec d'execution de PowerShell : introuvable".to_string())
    );
}

#[test]
fn run_ps_json_blank_output_is_empty_list() {
    assert_eq!(run_ps_json(Ok(String::new())).unwrap().len(), 0);
    assert_eq!(run_ps_json(Ok(" \r\n ".to_string())).unwrap().len(), 0);
}

#[test]
fn run_ps_json_null_is_empty_list() {
    assert_eq!(run_ps_json(Ok("null\r\n".to_string())).unwrap().len(), 0);
}

fn value(text: &str) -> serde_json::Value {
    serde_json::from_str(text).unwrap()
}

#[test]
fn run_ps_json_array_gives_its_elements() {
    let v = run_ps_json(Ok(" [1,{\"a\":2},\"x\"] ".to_string())).unwrap();
    assert_eq!(v, vec![value("1"), value("{\"a\":2}"), value("\"x\"")]);
}

#[test]
fn run_ps_json_single_object_becomes_one_element() {
    let v = run_ps_json(Ok("{\"programme\":\"A\",\"emplacement\":\"B\"}\r\n".to_string())).unwrap();
    assert_eq!(v, vec![value("{\"programme\":\"A\",\"emplacement\":\"B\"}")]);
}

#[test]
fn run_ps_json_invalid_names_error_and_text() {
    let err = run_ps_json(Ok("  pas du json \n".to_string())).unwrap_err();
    let parse_err = serde_json::from_str::<serde_json::Value>("pas du json").unwrap_err();
    assert_eq!(
        err,
        format!("Reponse PowerShell illisible (JSON) : {} — pas du json", parse_err)
    );
}

#[test]
fn run_ps_json_passes_error_through() {
    assert_eq!(run_ps_json(Err("stderr".to_string())), Err("stderr".to_string()));
}

#[test]
fn normalize_json_root_cases() {
    assert_eq!(normalize_json_root(JsonRoot::Null), Vec::<serde_json::Value>::new());
    assert_eq!(normalize_json_root(JsonRoot::Other(value("true"))), vec![value("true")]);
    assert_eq!(
        normalize_json_root(JsonRoot::Array(vec![value("1"), value("2")])),
        vec![value("1"), value("2")]
    );
}
