//! System context: the administrator check and the light system summary.

use vstd::prelude::*;
use crate::ps::DETAIL_SEPARATOR;
use crate::text::{
    all_white_space, ascii_folded, eq_ignore_ascii_case, eq_ignoring_ascii_case, is_white_space,
    lemma_ascii_folded_equal, lemma_char_code_injective, lemma_trimmed_ignores_padding, trim_ws, trimmed,
};

verus! {

/// PowerShell script that prints `True` when the current process runs with
/// administrator rights, `False` otherwise.
pub const ADMIN_CHECK_SCRIPT: &'static str = "([Security.Principal.WindowsPrincipal][Security.Principal.WindowsIdentity]::GetCurrent()).IsInRole([Security.Principal.WindowsBuiltinRole]::Administrator)";

/// PowerShell script that prints the system summary as one compact JSON object.
pub const SYSTEM_INFO_SCRIPT: &'static str = r#"
        $os = Get-CimInstance Win32_OperatingSystem
        $cpu = (Get-CimInstance Win32_Processor | Select-Object -First 1).Name
        $plan = ((powercfg /getactivescheme) -replace '.*\((.*)\).*','$1').Trim()
        $startup = @(Get-CimInstance Win32_StartupCommand).Count
        [pscustomobject]@{
            os           = $os.Caption
            cpu          = $cpu
            ram_total_gb = [math]::Round($os.TotalVisibleMemorySize / 1MB, 1)
            ram_free_gb  = [math]::Round($os.FreePhysicalMemory / 1MB, 1)
            power_plan   = $plan
            startup_count = $startup
        } | ConvertTo-Json -Compress
    "#;

/// The word that the administrator check prints for a positive answer.
pub const ADMIN_YES: &'static str = "True";

/// Start of the message given when the system summary cannot be read.
pub const SYSTEM_INFO_UNREADABLE: &'static str = "Lecture des infos systeme impossible : ";

/// What the output `raw` of the administrator check means: the output,
/// trimmed, is `True` in any letter case.
pub open spec fn admin_answer(raw: Seq<char>) -> bool {
    eq_ignoring_ascii_case(trimmed(raw), ADMIN_YES@)
}

/// Interprets the output of the administrator check: `True`, in any letter
/// case and with any surrounding white space, means administrator.
pub fn interpret_admin_output(raw: &str) -> (r: bool)
    ensures
        r == admin_answer(raw@),
{
    eq_ignore_ascii_case(trim_ws(raw), ADMIN_YES)
}

/// Result of the administrator check, given what running its script gave:
/// the interpreted answer, or the script's error unchanged.
pub fn check_admin_rights(outcome: Result<String, String>) -> (r: Result<bool, String>)
    ensures
        match outcome {
            Ok(out) => r == Ok::<bool, String>(admin_answer(out@)),
            Err(e) => r == Err::<bool, String>(e),
        },
{
    match outcome {
        Ok(out) => Ok(interpret_admin_output(out.as_str())),
        Err(e) => Err(e),
    }
}

/// The message given when the system summary `raw` cannot be parsed, with
/// the parser's error `err`.
pub fn system_info_error(err: &str, raw: &str) -> (r: String)
    ensures
        r@ == SYSTEM_INFO_UNREADABLE@ + err@ + DETAIL_SEPARATOR@ + trimmed(raw@),
{
    let mut m = String::from_str(SYSTEM_INFO_UNREADABLE);
    m.append(err);
    m.append(DETAIL_SEPARATOR);
    m.append(trim_ws(raw));
    m
}

/// The administrator check accepts `True` written in any letter case and
/// surrounded by any white space (such as the line break PowerShell adds).
pub proof fn lemma_admin_answer_accepts_true(pre: Seq<char>, word: Seq<char>, post: Seq<char>)
    requires
        all_white_space(pre),
        all_white_space(post),
        eq_ignoring_ascii_case(word, ADMIN_YES@),
    ensures
        admin_answer(pre + word + post),
{
    reveal_strlit("True");
    lemma_trimmed_ignores_padding(pre, word, post);
    assert(ascii_folded(word[0]) == ascii_folded(ADMIN_YES@[0]));
    assert(ascii_folded(word[3]) == ascii_folded(ADMIN_YES@[3]));
    assert(!is_white_space(word.first()));
    assert(!is_white_space(word.last()));
}

/// Whether the process has administrator rights depends only on the
/// trimmed output of the check: padding the output with white space never
/// changes the answer.
pub proof fn lemma_admin_answer_ignores_padding(pre: Seq<char>, raw: Seq<char>, post: Seq<char>)
    requires
        all_white_space(pre),
        all_white_space(post),
    ensures
        admin_answer(pre + raw + post) == admin_answer(raw),
{
    lemma_trimmed_ignores_padding(pre, raw, post);
}

/// The administrator check answers yes exactly when the trimmed output is
/// the four letters `t`, `r`, `u`, `e`, each in either case.
pub proof fn lemma_admin_answer_is_true_word(raw: Seq<char>)
    ensures
        admin_answer(raw) <==> {
            let t = trimmed(raw);
            &&& t.len() == 4
            &&& (t[0] == 'T' || t[0] == 't')
            &&& (t[1] == 'R' || t[1] == 'r')
            &&& (t[2] == 'U' || t[2] == 'u')
            &&& (t[3] == 'E' || t[3] == 'e')
        },
{
    reveal_strlit("True");
    let t = trimmed(raw);
    let w = ADMIN_YES@;
    assert(w.len() == 4);
    assert(w[0] == 'T' && w[1] == 'r' && w[2] == 'u' && w[3] == 'e');
    let word = (t[0] == 'T' || t[0] == 't') && (t[1] == 'R' || t[1] == 'r') && (t[2] == 'U'
        || t[2] == 'u') && (t[3] == 'E' || t[3] == 'e');
    if t.len() == 4 {
        lemma_ascii_folded_equal(t[0], w[0]);
        lemma_ascii_folded_equal(t[1], w[1]);
        lemma_ascii_folded_equal(t[2], w[2]);
        lemma_ascii_folded_equal(t[3], w[3]);
        assert(('t' as u32) == ('T' as u32) + 32);
        assert(('r' as u32) == ('R' as u32) + 32);
        assert(('u' as u32) == ('U' as u32) + 32);
        assert(('e' as u32) == ('E' as u32) + 32);
        if word {
            assert forall|k: int| 0 <= k < t.len() implies #[trigger] ascii_folded(t[k])
                == ascii_folded(w[k]) by {
                assert(k == 0 || k == 1 || k == 2 || k == 3);
            }
            assert(admin_answer(raw));
        }
        if admin_answer(raw) {
            assert(ascii_folded(t[0]) == ascii_folded(w[0]));
            assert(ascii_folded(t[1]) == ascii_folded(w[1]));
            assert(ascii_folded(t[2]) == ascii_folded(w[2]));
            assert(ascii_folded(t[3]) == ascii_folded(w[3]));
            let up = seq!['T', 'R', 'U', 'E'];
            let low = seq!['t', 'r', 'u', 'e'];
            assert forall|k: int| 0 <= k < 4 implies t[k] == #[trigger] up[k] || t[k] == low[k] by {
                if t[k] as u32 == up[k] as u32 {
                    lemma_char_code_injective(t[k], up[k]);
                } else {
                    lemma_char_code_injective(t[k], low[k]);
                }
            }
            assert(up[0] == 'T' && up[1] == 'R' && up[2] == 'U' && up[3] == 'E');
            assert(low[0] == 't' && low[1] == 'r' && low[2] == 'u' && low[3] == 'e');
            assert(word);
        }
    }
}

} // verus!
