//! Activation: what happens to configuration drift at start-up, and the texts
//! of the prompt that asks before applying it.

use vstd::prelude::*;
use crate::text::{chars_of, string_from, push_str, trim, trim_chars, to_ascii_lower, lower_chars, chars_eq};
use crate::drift::{ConfigDriftItem, DriftView, drift_views};
use crate::command::RunMode;

verus! {

/// What start-up does about drift.
#[derive(Debug, Clone, Copy, PartialEq, Eq, Structural)]
pub enum ActivationStep {
    /// No drift: nothing to do.
    Nothing,
    /// `--yes` was given: apply every item at once.
    ApplyAll,
    /// Interactive run: hand the items to the terminal interface's modal.
    Pending,
    /// Direct run: ask on the console.
    Prompt,
}

/// Decides what start-up does about `drift_count` drift items.
pub fn run_activation(drift_count: usize, yes: bool, run_mode: RunMode) -> (r: ActivationStep)
    ensures
        drift_count == 0 ==> r == ActivationStep::Nothing,
        drift_count > 0 && yes ==> r == ActivationStep::ApplyAll,
        drift_count > 0 && !yes && run_mode == RunMode::Interactive ==> r == ActivationStep::Pending,
        drift_count > 0 && !yes && run_mode == RunMode::Direct ==> r == ActivationStep::Prompt,
{
    if drift_count == 0 {
        ActivationStep::Nothing
    } else if yes {
        ActivationStep::ApplyAll
    } else {
        match run_mode {
            RunMode::Interactive => ActivationStep::Pending,
            RunMode::Direct => ActivationStep::Prompt,
        }
    }
}

/// The message lines for a list of drift items, from item `k` on.
pub open spec fn drift_lines(items: Seq<DriftView>) -> Seq<char>
    decreases items.len(),
{
    if items.len() == 0 {
        Seq::empty()
    } else {
        drift_lines(items.drop_last()) + "  - "@ + items.last().summary + "\n"@
    }
}

/// The error text when drift is found and nobody can be asked.
pub open spec fn non_interactive_message(items: Seq<DriftView>) -> Seq<char> {
    "configuration drift detected; pass --yes to apply without prompting:\n"@ + drift_lines(items)
}

/// The error text of a run without a terminal that finds drift.
pub fn non_interactive_drift_message(drifts: &Vec<ConfigDriftItem>) -> (r: String)
    ensures
        r@ == non_interactive_message(drift_views(drifts@)),
{
    let mut out: Vec<char> = Vec::new();
    push_str(&mut out, "configuration drift detected; pass --yes to apply without prompting:\n");
    let ghost head = out@;
    let mut i: usize = 0;
    while i < drifts.len()
        invariant
            i <= drifts@.len(),
            head == "configuration drift detected; pass --yes to apply without prompting:\n"@,
            out@ == head + drift_lines(drift_views(drifts@).take(i as int)),
        decreases drifts.len() - i,
    {
        let ghost before = drift_views(drifts@).take(i as int);
        let ghost after = drift_views(drifts@).take(i + 1);
        assert(after.drop_last() =~= before);
        push_str(&mut out, "  - ");
        push_str(&mut out, drifts[i].summary.as_str());
        push_str(&mut out, "\n");
        i = i + 1;
        assert(out@ =~= head + drift_lines(after));
    }
    assert(drift_views(drifts@).take(drifts@.len() as int) =~= drift_views(drifts@));
    string_from(out.as_slice())
}

/// The lines printed before the console prompt, one per drift item.
pub open spec fn prompt_text(items: Seq<DriftView>) -> Seq<char> {
    "Configuration drift detected (dhara.config.toml is truth):\n"@ + drift_lines(items)
        + "Apply changes? [y/N]: "@
}

/// The text the console prompt prints.
pub fn activation_prompt(drifts: &Vec<ConfigDriftItem>) -> (r: String)
    ensures
        r@ == prompt_text(drift_views(drifts@)),
{
    let mut out: Vec<char> = Vec::new();
    push_str(&mut out, "Configuration drift detected (dhara.config.toml is truth):\n");
    let ghost head = out@;
    let mut i: usize = 0;
    while i < drifts.len()
        invariant
            i <= drifts@.len(),
            head == "Configuration drift detected (dhara.config.toml is truth):\n"@,
            out@ == head + drift_lines(drift_views(drifts@).take(i as int)),
        decreases drifts.len() - i,
    {
        let ghost before = drift_views(drifts@).take(i as int);
        let ghost after = drift_views(drifts@).take(i + 1);
        assert(after.drop_last() =~= before);
        push_str(&mut out, "  - ");
        push_str(&mut out, drifts[i].summary.as_str());
        push_str(&mut out, "\n");
        i = i + 1;
        assert(out@ =~= head + drift_lines(after));
    }
    assert(drift_views(drifts@).take(drifts@.len() as int) =~= drift_views(drifts@));
    push_str(&mut out, "Apply changes? [y/N]: ");
    string_from(out.as_slice())
}

/// A console answer that accepts: `y` or `yes` in any ASCII case, with white
/// space around it ignored.
pub open spec fn accepts(answer: Seq<char>) -> bool {
    let a = to_ascii_lower(trim(answer));
    a == "y"@ || a == "yes"@
}

/// Whether a console answer accepts the drift updates.
pub fn accepts_activation_answer(answer: &str) -> (r: bool)
    ensures
        r == accepts(answer@),
{
    let c = chars_of(answer);
    let t = trim_chars(c.as_slice());
    let l = lower_chars(t.as_slice());
    let y = chars_of("y");
    let yes = chars_of("yes");
    chars_eq(l.as_slice(), y.as_slice()) || chars_eq(l.as_slice(), yes.as_slice())
}

/// The error of a declined prompt.
pub fn activation_declined_message() -> (r: String)
    ensures
        r@ == "activation declined; pass --yes to apply configuration drift without prompting"@,
{
    string_from(chars_of("activation declined; pass --yes to apply configuration drift without prompting").as_slice())
}

} // verus!
