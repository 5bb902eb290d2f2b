//! Failure escalation handler.
//!
//! Invoked only when the host runtime's run loop itself returns an error:
//! a failure no in-app recovery path could handle, and the UI may never
//! have rendered. The handler classifies the error's diagnostic text and
//! plans a native modal dialog — a remediation variant when the text
//! carries the signature of a corrupted web-rendering-engine dependency
//! on the platform where that failure mode is known, a generic variant
//! otherwise — always followed by abnormal process termination, so the
//! failure is never silently swallowed.

use vstd::prelude::*;

verus! {

/// `pattern` occurs in `text` starting at position `i`.
pub open spec fn match_at(text: Seq<char>, pattern: Seq<char>, i: int) -> bool {
    &&& 0 <= i
    &&& i + pattern.len() <= text.len()
    &&& forall|j: int| 0 <= j < pattern.len() ==> text[i + j] == pattern[j]
}

/// `pattern` occurs somewhere in `text`.
pub open spec fn contains_pattern(text: Seq<char>, pattern: Seq<char>) -> bool {
    exists|i: int| match_at(text, pattern, i)
}

/// Whether `pattern` occurs in `text` starting at position `i`.
fn matches_at(text: &str, pattern: &str, i: usize) -> (r: bool)
    requires
        i + pattern@.len() <= text@.len(),
        text@.len() <= usize::MAX,
    ensures
        r == match_at(text@, pattern@, i as int),
{
    let m = pattern.unicode_len();
    let mut j: usize = 0;
    while j < m
        invariant
            j <= m,
            m == pattern@.len(),
            i + m <= text@.len(),
            text@.len() <= usize::MAX,
            forall|t: int| 0 <= t < j ==> text@[i + t] == pattern@[t],
        decreases m - j,
    {
        if text.get_char(i + j) != pattern.get_char(j) {
            return false;
        }
        j = j + 1;
    }
    true
}

/// Whether `pattern` occurs anywhere in `text`.
pub fn find_pattern(text: &str, pattern: &str) -> (found: bool)
    ensures
        found == contains_pattern(text@, pattern@),
{
    let n = text.unicode_len();
    let m = pattern.unicode_len();
    if m > n {
        return false;
    }
    let mut i: usize = 0;
    while i <= n - m
        invariant
            m <= n,
            n == text@.len(),
            m == pattern@.len(),
            i <= n - m + 1,
            forall|k: int| 0 <= k < i ==> !match_at(text@, pattern@, k),
        decreases n - m - i + 1,
    {
        if matches_at(text, pattern, i) {
            return true;
        }
        i = i + 1;
    }
    false
}

/// The diagnostic signature of a corrupted web-rendering-engine
/// dependency: the run loop failed because the webview component could
/// not be created.
pub open spec fn spec_webview_corruption_signature() -> Seq<char> {
    "Runtime(CreateWebview(WebView2Error(WindowsError"@
}

/// Executable form of the corrupted-dependency signature.
pub fn webview_corruption_signature() -> (s: &'static str)
    ensures
        s@ == spec_webview_corruption_signature(),
{
    "Runtime(CreateWebview(WebView2Error(WindowsError"
}

/// Which modal dialog the user is shown before the process exits.
#[derive(Clone, Copy, PartialEq, Eq, Structural, Debug)]
pub enum DialogVariant {
    /// Platform-specific remediation instructions and a support link for
    /// the known corrupted web-rendering-engine dependency.
    WebviewRemediation,
    /// The error's full diagnostic representation.
    Generic,
}

/// The terminal plan for a fatal run-loop failure: one dialog, then
/// abnormal termination.
pub struct EscalationPlan {
    pub variant: DialogVariant,
    /// Always true: after the dialog the process exits abnormally, since
    /// continuing in an unknown run-loop-failed state is unsafe.
    pub abnormal_exit: bool,
}

/// A fatal run-loop failure warrants the remediation dialog exactly when
/// the platform knows the corrupted-dependency failure mode and the
/// diagnostic text carries its signature.
pub open spec fn remediation_applies(diagnostic: Seq<char>, platform_has_webview_dependency: bool) -> bool {
    platform_has_webview_dependency && contains_pattern(
        diagnostic,
        spec_webview_corruption_signature(),
    )
}

/// Classify a fatal run-loop failure from its diagnostic text and plan
/// the terminal dialog.
pub fn escalate_run_failure(diagnostic: &str, platform_has_webview_dependency: bool) -> (plan:
    EscalationPlan)
    ensures
        plan.abnormal_exit,
        plan.variant is WebviewRemediation <==> remediation_applies(
            diagnostic@,
            platform_has_webview_dependency,
        ),
{
    if platform_has_webview_dependency && find_pattern(
        diagnostic,
        webview_corruption_signature(),
    ) {
        EscalationPlan { variant: DialogVariant::WebviewRemediation, abnormal_exit: true }
    } else {
        EscalationPlan { variant: DialogVariant::Generic, abnormal_exit: true }
    }
}

/// How the process ends once the host runtime's run loop has returned.
pub struct Termination {
    /// The process exit code: zero for a normal exit, nonzero after a
    /// fatal run-loop failure.
    pub exit_code: u8,
    /// The dialog shown before an abnormal exit, if any.
    pub dialog: Option<EscalationPlan>,
}

/// Conclude the run loop: a clean return ends the process normally; an
/// error is escalated to a dialog and an abnormal exit.
pub fn conclude_run(run_error: Option<&str>, platform_has_webview_dependency: bool) -> (t:
    Termination)
    ensures
        run_error is None ==> t.exit_code == 0 && t.dialog is None,
        run_error matches Some(diagnostic) ==> t.exit_code != 0 && (t.dialog matches Some(plan)
            && plan.abnormal_exit && (plan.variant is WebviewRemediation <==> remediation_applies(
            diagnostic@,
            platform_has_webview_dependency,
        ))),
{
    match run_error {
        None => Termination { exit_code: 0, dialog: None },
        Some(diagnostic) => {
            let plan = escalate_run_failure(diagnostic, platform_has_webview_dependency);
            Termination { exit_code: 1, dialog: Some(plan) }
        },
    }
}

} // verus!
