//! The shared PowerShell executor: where PowerShell lives, how its run is
//! turned into a result, and how its JSON output is normalised to a list.
//!
//! Starting the process is left to the caller; what it reports back is
//! handed in here as plain values.

use vstd::prelude::*;
use vstd::utf8::{decode_utf8, valid_utf8};
use crate::text::{trim_ws, trimmed};

verus! {

/// Windows directory used when `SystemRoot` is not set.
pub const DEFAULT_SYSTEM_ROOT: &'static str = r"C:\Windows";

/// Location of `powershell.exe` below the Windows directory.
pub const POWERSHELL_SUFFIX: &'static str = r"\System32\WindowsPowerShell\v1.0\powershell.exe";

/// First command-line flag given to PowerShell.
pub const NO_PROFILE_FLAG: &'static str = "-NoProfile";

/// Flag that introduces the inline script.
pub const COMMAND_FLAG: &'static str = "-Command";

/// Start of the message given when PowerShell cannot be started.
pub const SPAWN_FAILED: &'static str = "Echec d'execution de PowerShell : ";

/// Start of the message given when the output of PowerShell is not JSON.
pub const JSON_UNREADABLE: &'static str = "Reponse PowerShell illisible (JSON) : ";

/// Separator between an error and the text it is about.
pub const DETAIL_SEPARATOR: &'static str = " — ";

/// What a finished PowerShell process reported.
pub struct ProcessOutput {
    /// Whether the process exited successfully.
    pub success: bool,
    /// Bytes written to standard output.
    pub stdout: Vec<u8>,
    /// Bytes written to standard error.
    pub stderr: Vec<u8>,
}

/// The absolute path of `powershell.exe` below the Windows directory
/// `system_root` (the value of `SystemRoot`, when it is set).
pub fn powershell_path(system_root: Option<String>) -> (r: String)
    ensures
        r@ == match system_root {
            Some(root) => root@,
            None => DEFAULT_SYSTEM_ROOT@,
        } + POWERSHELL_SUFFIX@,
{
    let mut path = match system_root {
        Some(root) => root,
        None => String::from_str(DEFAULT_SYSTEM_ROOT),
    };
    path.append(POWERSHELL_SUFFIX);
    path
}

/// The arguments PowerShell is started with to run `script`.
pub fn powershell_arguments<'a>(script: &'a str) -> (r: Vec<&'a str>)
    ensures
        r@ == seq![NO_PROFILE_FLAG, COMMAND_FLAG, script],
{
    let mut args: Vec<&'a str> = Vec::new();
    args.push(NO_PROFILE_FLAG);
    args.push(COMMAND_FLAG);
    args.push(script);
    args
}

/// The text that `String::from_utf8_lossy` makes of `bytes`.
pub uninterp spec fn lossy_utf8(bytes: Seq<u8>) -> Seq<char>;

/// Calls `String::from_utf8_lossy`: decodes `bytes` as UTF-8, putting
/// U+FFFD in place of invalid sequences. Stated: the result is
/// `lossy_utf8(bytes)`, and on valid UTF-8 it is exactly the decoded text.
#[verifier::external_body]
fn utf8_lossy(bytes: &[u8]) -> (r: String)
    ensures
        r@ == lossy_utf8(bytes@),
        valid_utf8(bytes@) ==> r@ == decode_utf8(bytes@),
{
    String::from_utf8_lossy(bytes).to_string()
}

/// Result of running a script: standard output on success, standard error
/// otherwise; when the process could not be started (`spawned` holds the
/// reason), a message saying so.
pub fn run_ps(spawned: Result<ProcessOutput, String>) -> (r: Result<String, String>)
    ensures
        match spawned {
            Err(e) => r matches Err(m) && m@ == SPAWN_FAILED@ + e@,
            Ok(out) => if out.success {
                r matches Ok(s) && s@ == lossy_utf8(out.stdout@)
            } else {
                r matches Err(s) && s@ == lossy_utf8(out.stderr@)
            },
        },
{
    match spawned {
        Err(e) => {
            let mut m = String::from_str(SPAWN_FAILED);
            m.append(e.as_str());
            Err(m)
        },
        Ok(out) => {
            if out.success {
                Ok(utf8_lossy(out.stdout.as_slice()))
            } else {
                Err(utf8_lossy(out.stderr.as_slice()))
            }
        },
    }
}

#[verifier::external_type_specification]
#[verifier::external_body]
pub struct ExJsonValue(serde_json::Value);

/// Top level of a JSON document: an array with its elements, `null`, or a
/// single other value.
pub enum JsonRoot {
    /// An array and its elements.
    Array(Vec<serde_json::Value>),
    /// `null`.
    Null,
    /// Any other value (object, string, number, boolean).
    Other(serde_json::Value),
}

/// What `serde_json::from_str::<serde_json::Value>` makes of `text`: the
/// document's top level (an array with its elements, `null`, or the single
/// other value), or the text of the error it reports.
pub uninterp spec fn json_document(text: Seq<char>) -> Result<JsonRoot, Seq<char>>;

/// Calls `serde_json::from_str::<serde_json::Value>` on `text` and tells the
/// top level apart (array, `null`, anything else); an error is turned into
/// its message. Stated: the top level, or the message, is
/// `json_document(text)`.
#[verifier::external_body]
fn parse_json_root(text: &str) -> (r: Result<JsonRoot, String>)
    ensures
        match r {
            Ok(root) => json_document(text@) == Ok::<JsonRoot, Seq<char>>(root),
            Err(m) => json_document(text@) == Err::<JsonRoot, Seq<char>>(m@),
        },
{
    match serde_json::from_str::<serde_json::Value>(text) {
        Ok(serde_json::Value::Null) => Ok(JsonRoot::Null),
        Ok(serde_json::Value::Array(items)) => Ok(JsonRoot::Array(items)),
        Ok(other) => Ok(JsonRoot::Other(other)),
        Err(e) => Err(e.to_string()),
    }
}

/// The list a JSON top level stands for: an array is its elements, `null`
/// is the empty list, any other value is a list of that one value.
pub open spec fn normalized(root: JsonRoot) -> Seq<serde_json::Value> {
    match root {
        JsonRoot::Array(items) => items@,
        JsonRoot::Null => Seq::empty(),
        JsonRoot::Other(v) => seq![v],
    }
}

/// The list of an array is all its elements in their order, whatever the
/// length; `null` stands for no value and any other value for itself alone.
pub proof fn lemma_normalized_keeps_every_element(
    items: Vec<serde_json::Value>,
    v: serde_json::Value,
)
    ensures
        normalized(JsonRoot::Array(items)) == items@,
        normalized(JsonRoot::Array(items)).len() == items@.len(),
        forall|k: int|
            0 <= k < items@.len() ==> #[trigger] normalized(JsonRoot::Array(items))[k] == items@[k],
        normalized(JsonRoot::Null).len() == 0,
        normalized(JsonRoot::Other(v)).len() == 1,
        normalized(JsonRoot::Other(v))[0] == v,
{
}

/// Turns a JSON top level into the list it stands for (`normalized`).
pub fn normalize_json_root(root: JsonRoot) -> (r: Vec<serde_json::Value>)
    ensures
        r@ == normalized(root),
{
    match root {
        JsonRoot::Array(items) => items,
        JsonRoot::Null => Vec::new(),
        JsonRoot::Other(v) => {
            let mut r = Vec::new();
            r.push(v);
            r
        },
    }
}

/// The message given when the (trimmed) output `text` is not JSON, with the
/// parser's error `err`.
pub fn unreadable_json_message(err: &str, text: &str) -> (r: String)
    ensures
        r@ == JSON_UNREADABLE@ + err@ + DETAIL_SEPARATOR@ + text@,
{
    let mut m = String::from_str(JSON_UNREADABLE);
    m.append(err);
    m.append(DETAIL_SEPARATOR);
    m.append(text);
    m
}

/// Result of running a script that prints JSON (`outcome` is what running
/// it gave), normalised to a list: empty output and `null` give the empty
/// list, an array its elements, any other value a list of that value. Output
/// that is not JSON gives an error naming the parser's message and the text.
pub fn run_ps_json(outcome: Result<String, String>) -> (r: Result<Vec<serde_json::Value>, String>)
    ensures
        match outcome {
            Err(e) => r == Err::<Vec<serde_json::Value>, String>(e),
            Ok(raw) => {
                let t = trimmed(raw@);
                if t.len() == 0 {
                    r matches Ok(v) && v@.len() == 0
                } else {
                    match json_document(t) {
                        Err(m) => r matches Err(msg) && msg@ == JSON_UNREADABLE@ + m + DETAIL_SEPARATOR@ + t,
                        Ok(root) => r matches Ok(v) && v@ == normalized(root),
                    }
                }
            },
        },
{
    let raw = match outcome {
        Ok(raw) => raw,
        Err(e) => return Err(e),
    };
    let t = trim_ws(raw.as_str());
    if t.unicode_len() == 0 {
        return Ok(Vec::new());
    }
    match parse_json_root(t) {
        Ok(root) => Ok(normalize_json_root(root)),
        Err(m) => Err(unreadable_json_message(m.as_str(), t)),
    }
}

} // verus!
