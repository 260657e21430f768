//! The lines printed for a generated value: the value itself, when it is
//! shown, and the trailing clipboard status line.

use vstd::prelude::*;
use vstd::string::StringExecFns;

verus! {

/// What came of the single clipboard attempt. A clipboard problem is never
/// fatal: it only selects the trailing status line.
#[derive(Clone, Copy, PartialEq, Eq, Structural, Debug)]
pub enum ClipboardOutcome {
    /// The value was placed on the clipboard.
    Copied,
    /// The clipboard was reachable but the set-operation failed.
    Failed,
    /// No clipboard service is available on this OS or session.
    Unsupported,
}

/// The status line reported for each clipboard outcome.
pub open spec fn spec_status_line(outcome: ClipboardOutcome, is_password: bool) -> Seq<char> {
    match outcome {
        ClipboardOutcome::Copied => if is_password {
            "Password copied to clipboard."@
        } else {
            "Username copied to clipboard."@
        },
        ClipboardOutcome::Failed => "Unable to copy to clipboard."@,
        ClipboardOutcome::Unsupported =>
            "Unable to copy to clipboard because it is not supported by OS."@,
    }
}

/// The status line reported for one clipboard outcome.
pub fn status_line(outcome: ClipboardOutcome, is_password: bool) -> (r: String)
    ensures
        r@ == spec_status_line(outcome, is_password),
{
    match outcome {
        ClipboardOutcome::Copied => if is_password {
            String::from_str("Password copied to clipboard.")
        } else {
            String::from_str("Username copied to clipboard.")
        },
        ClipboardOutcome::Failed => String::from_str("Unable to copy to clipboard."),
        ClipboardOutcome::Unsupported => String::from_str(
            "Unable to copy to clipboard because it is not supported by OS.",
        ),
    }
}

/// The lines printed for one generated value: the value itself when it is
/// shown, then the status line of the clipboard outcome when a copy was
/// attempted.
pub open spec fn spec_report(
    value: Seq<char>,
    show_value: bool,
    outcome: Option<ClipboardOutcome>,
    is_password: bool,
) -> Seq<Seq<char>> {
    (if show_value {
        seq![value]
    } else {
        Seq::<Seq<char>>::empty()
    }) + (match outcome {
        Some(o) => seq![spec_status_line(o, is_password)],
        None => Seq::<Seq<char>>::empty(),
    })
}

/// Renders the lines to print for one generated value.
pub fn render_report(
    value: &String,
    show_value: bool,
    outcome: Option<ClipboardOutcome>,
    is_password: bool,
) -> (r: Vec<String>)
    ensures
        r.deep_view() == spec_report(value@, show_value, outcome, is_password),
{
    let mut lines: Vec<String> = Vec::new();
    if show_value {
        lines.push(value.clone());
    }
    match outcome {
        Some(o) => lines.push(status_line(o, is_password)),
        None => (),
    }
    proof {
        assert(lines.deep_view() =~= spec_report(value@, show_value, outcome, is_password));
    }
    lines
}

/// The clipboard outcome never alters the generated value that is printed:
/// all lines before the trailing status line are the same for every outcome,
/// and the first line is the value itself whenever it is shown.
pub proof fn lemma_clipboard_outcome_preserves_value(
    value: Seq<char>,
    show_value: bool,
    o1: ClipboardOutcome,
    o2: ClipboardOutcome,
    is_password: bool,
)
    ensures
        spec_report(value, show_value, Some(o1), is_password).drop_last() == spec_report(
            value,
            show_value,
            Some(o2),
            is_password,
        ).drop_last(),
        show_value ==> spec_report(value, show_value, Some(o1), is_password)[0] == value,
{
    assert(spec_report(value, show_value, Some(o1), is_password).drop_last() =~= spec_report(
        value,
        show_value,
        Some(o2),
        is_password,
    ).drop_last());
}

} // verus!
