use opt_tweak_pc::ps::DETAIL_SEPARATOR;
use opt_tweak_pc::system::{
    check_admin_rights, interpret_admin_output, system_info_error, SYSTEM_INFO_UNREADABLE,
};

#[test]
fn admin_vrai_toutes_casses_et_espaces() {
    assert!(interpret_admin_output("True"));
    assert!(interpret_admin_output("true"));
    assert!(interpret_admin_output("TRUE"));
    // PowerShell usually follows the value with a CRLF.
    assert!(interpret_admin_output("  True\r\n"));
}

#[test]
fn admin_faux_vide_ou_autre() {
    assert!(!interpret_admin_output("False"));
    assert!(!interpret_admin_output(""));
    assert!(!interpret_admin_output("   \n"));
    assert!(!interpret_admin_output("Yes"));
}

#[test]
fn admin_mixed_case_with_unicode_padding_is_true() {
    assert!(interpret_admin_output("\u{a0}\u{2003}tRuE\u{3000}\t"));
    assert!(interpret_admin_output("\u{85}TrUe\u{2029}"));
}

#[test]
fn admin_inner_spaces_or_non_ascii_letters_are_false() {
    assert!(!interpret_admin_output("Tr ue"));
    assert!(!interpret_admin_output("True True"));
    assert!(!interpret_admin_output("Trué"));
    assert!(!interpret_admin_output("\u{200b}True"));
    assert!(!interpret_admin_output("Truee"));
}

#[test]
fn check_admin_rights_interprets_output() {
    assert_eq!(check_admin_rights(Ok("True\r\n".to_string())), Ok(true));
    assert_eq!(check_admin_rights(Ok("False\r\n".to_string())), Ok(false));
}

#[test]
fn check_admin_rights_passes_error_through() {
    assert_eq!(
        check_admin_rights(Err("acces refuse".to_string())),
        Err("acces refuse".to_string())
    );
}

#[test]
fn system_info_error_names_error_and_trimmed_text() {
    let m = system_info_error("expected value at line 1 column 1", "  pas du json \n");
    assert_eq!(
        m,
        "Lecture des infos systeme impossible : expected value at line 1 column 1 — pas du json"
    );
    assert!(m.contains("impossible"));
    assert!(m.starts_with(SYSTEM_INFO_UNREADABLE));
    assert!(m.ends_with(&format!("{}pas du json", DETAIL_SEPARATOR)));
}
