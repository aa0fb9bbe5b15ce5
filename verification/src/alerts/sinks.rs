//! Rendering of alerts for the console sink. Writing the line to the log is done by the
//! sink implementations outside the library.
use vstd::prelude::*;

use crate::alerts::model::{severity_label, AlertRecord, AlertSeverity};
use crate::helpers::format::{decimal, push_decimal, push_str, to_string};

verus! {

/// The console line of an alert:
/// `[ALERT] [<severity>] [<category>] <title> | Proc: ProcKey(#<key>) | MITRE: <technique or N/A> | <description>`.
pub open spec fn console_text(a: AlertRecord) -> Seq<char> {
    "[ALERT] ["@ + severity_label(a.severity) + "] ["@ + a.category@ + "] "@ + a.title@
        + " | Proc: ProcKey(#"@ + decimal(a.triggering_process.0 as nat) + ") | MITRE: "@ + (
    match a.mitre_technique {
        Some(t) => t@,
        None => "N/A"@,
    }) + " | "@ + a.description@
}

/// The console line of an alert (see [`console_text`]).
pub fn console_line(alert: &AlertRecord) -> (s: String)
    ensures
        s@ == console_text(*alert),
{
    let mut v: Vec<char> = Vec::new();
    push_str(&mut v, "[ALERT] [");
    push_str(&mut v, alert.severity.as_str());
    push_str(&mut v, "] [");
    push_str(&mut v, alert.category.as_str());
    push_str(&mut v, "] ");
    push_str(&mut v, alert.title.as_str());
    push_str(&mut v, " | Proc: ProcKey(#");
    push_decimal(&mut v, alert.triggering_process.0);
    push_str(&mut v, ") | MITRE: ");
    match &alert.mitre_technique {
        Some(t) => push_str(&mut v, t.as_str()),
        None => push_str(&mut v, "N/A"),
    }
    push_str(&mut v, " | ");
    push_str(&mut v, alert.description.as_str());
    assert(v@ =~= console_text(*alert));
    to_string(&v)
}

/// The console logs the alert as a warning (any severity above informational); an
/// informational alert is logged as information.
pub fn logs_as_warning(alert: &AlertRecord) -> (b: bool)
    ensures
        b == !(alert.severity is Informational),
{
    match alert.severity {
        AlertSeverity::Informational => false,
        _ => true,
    }
}

} // verus!
