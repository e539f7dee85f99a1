//! Trusted boundary to the outside capabilities the dispatch path uses:
//! the native blocking dialog and the raw standard-error stream.  Both
//! are best-effort; nothing about their outcome is promised, and the
//! callers state what holds whatever comes back.

use vstd::prelude::*;
use std::io::Write;

verus! {

/// Relies on native_dialog: `MessageDialogBuilder` configured with the
/// given title, body and error severity, then `MessageAlert::show`,
/// which blocks until the dialog is dismissed.  Whether it succeeds
/// depends on the platform and the display environment, so nothing is
/// promised of the outcome; an error is handed back as its rendered
/// message for the caller to swallow.
#[verifier::external_body]
pub(crate) fn show_error_dialog(title: &str, body: &str) -> (r: Result<(), String>) {
    let shown = native_dialog::MessageDialogBuilder::default()
        .set_title(title)
        .set_text(body)
        .set_level(native_dialog::MessageLevel::Error)
        .alert()
        .show();
    match shown {
        Ok(()) => Ok(()),
        Err(e) => Err(format!("{e}")),
    }
}

/// Relies on std::io::stderr and `writeln!`: writes one line to the
/// process's standard error stream, ignoring any write error, so that
/// the failure-handling path can never fail while logging.
#[verifier::external_body]
pub(crate) fn write_stderr_line(text: &str) {
    let _ = writeln!(std::io::stderr(), "{}", text);
}

} // verus!
