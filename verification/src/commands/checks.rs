//! The system checks that `init` and `doctor` report: the config and models directories and the
//! RTK binary. What the file system holds is looked up by the caller; these functions decide
//! what each check reports.
use vstd::prelude::*;

use crate::text::push_str;

verus! {

/// Result of a single system check.
pub struct Check {
    pub label: &'static str,
    pub ok: bool,
    pub message: String,
}

/// A directory check: the directory as displayed and whether it existed (it is created when
/// it did not), or why it could not be determined.
pub fn dir_check(label: &'static str, found: &Result<(String, bool), String>) -> (r: Check)
    ensures
        r.label == label,
        match found {
            Ok((p, true)) => r.ok && r.message@ == p@,
            Ok((p, false)) => r.ok && r.message@ == "created "@ + p@,
            Err(e) => !r.ok && r.message@ == e@,
        },
{
    match found {
        Ok((p, existed)) => {
            if *existed {
                Check { label, ok: true, message: p.clone() }
            } else {
                let mut m = "created ".to_string();
                push_str(&mut m, p.as_str());
                Check { label, ok: true, message: m }
            }
        },
        Err(e) => Check { label, ok: false, message: e.clone() },
    }
}

/// The config directory check; `None` when the platform has no config directory.
pub fn config_dir_check(found: &Option<(String, bool)>) -> (r: Check)
    ensures
        r.label@ == "Config directory"@,
        match found {
            Some((p, true)) => r.ok && r.message@ == p@,
            Some((p, false)) => r.ok && r.message@ == "created "@ + p@,
            None => !r.ok && r.message@ == "cannot determine config directory"@,
        },
{
    let f: Result<(String, bool), String> = match found {
        Some((p, e)) => Ok((p.clone(), *e)),
        None => Err("cannot determine config directory".to_string()),
    };
    dir_check("Config directory", &f)
}

/// The models directory check, given where the models directory is or why it is unknown.
pub fn models_dir_check(found: &Result<(String, bool), String>) -> (r: Check)
    ensures
        r.label@ == "Models directory"@,
        match found {
            Ok((p, true)) => r.ok && r.message@ == p@,
            Ok((p, false)) => r.ok && r.message@ == "created "@ + p@,
            Err(e) => !r.ok && r.message@ == e@,
        },
{
    dir_check("Models directory", found)
}

/// The RTK check: passes in every case, as RTK is fetched on first use; `found` is the binary's
/// path and whether it exists, when there is a data directory.
pub fn rtk_check(found: &Option<(String, bool)>) -> (r: Check)
    ensures
        r.label@ == "RTK"@,
        r.ok,
        match found {
            Some((p, true)) => r.message@ == "detected at "@ + p@,
            _ => r.message@ == "will be downloaded on first use"@,
        },
{
    match found {
        Some((p, true)) => {
            let mut m = "detected at ".to_string();
            push_str(&mut m, p.as_str());
            Check { label: "RTK", ok: true, message: m }
        },
        _ => Check { label: "RTK", ok: true, message: "will be downloaded on first use".to_string() },
    }
}

/// One line of the doctor report: a tick or a cross, the label and the message.
pub fn check_line(c: &Check) -> (r: String)
    ensures
        r@ == "  "@ + (if c.ok {
            "✓"@
        } else {
            "✗"@
        }) + " "@ + c.label@ + ": "@ + c.message@,
{
    let mut r = "  ".to_string();
    push_str(&mut r, if c.ok { "✓" } else { "✗" });
    push_str(&mut r, " ");
    push_str(&mut r, c.label);
    push_str(&mut r, ": ");
    push_str(&mut r, c.message.as_str());
    r
}

} // verus!
