use vstd::prelude::*;
use vstd::string::StringExecFns;

use crate::app::AppEvent;
use crate::sequence::SequenceEvent;
use crate::text::{cat3, decimal, decimal_string};

verus! {

/// How one run of a task ended.
pub enum RunOutcome {
    /// The process exited with status 0.
    Succeeded,
    /// The process exited otherwise, with this code if it had one.
    ExitedWith(Option<i32>),
    /// The process could not be started.
    SpawnFailed(String),
}

/// A signed integer in decimal.
pub open spec fn signed_decimal(c: int) -> Seq<char> {
    if c < 0 {
        seq!['-'] + decimal((-c) as nat)
    } else {
        decimal(c as nat)
    }
}

/// An optional exit code as written in the report: `Some(<code>)` or `None`.
pub open spec fn exit_code_text(code: Option<i32>) -> Seq<char> {
    match code {
        Some(c) => "Some("@ + signed_decimal(c as int) + ")"@,
        None => "None"@,
    }
}

/// The output line that reports how the run of `name` ended.
pub open spec fn outcome_line(name: Seq<char>, outcome: RunOutcome) -> Seq<char> {
    match outcome {
        RunOutcome::Succeeded => "Task '"@ + name + "' completed successfully"@,
        RunOutcome::ExitedWith(code) => "Task '"@ + name + "' failed with exit code: "@ + exit_code_text(code),
        RunOutcome::SpawnFailed(e) => "Task '"@ + name + "' failed: "@ + e@,
    }
}

fn exit_code_string(code: Option<i32>) -> (r: String)
    ensures
        r@ == exit_code_text(code),
{
    match code {
        Some(c) => {
            let mut out = String::from_str("Some(");
            if c < 0 {
                out.append("-");
                proof {
                    reveal_strlit("-");
                }
                let magnitude = (0i64 - c as i64) as u128;
                out.append(decimal_string(magnitude).as_str());
            } else {
                out.append(decimal_string(c as u128).as_str());
            }
            out.append(")");
            out
        },
        None => String::from_str("None"),
    }
}

/// The line that reports how the run of `task_name` ended.
pub fn outcome_report(task_name: &str, outcome: &RunOutcome) -> (r: String)
    ensures
        r@ == outcome_line(task_name@, *outcome),
{
    match outcome {
        RunOutcome::Succeeded => cat3("Task '", task_name, "' completed successfully"),
        RunOutcome::ExitedWith(code) => {
            let mut out = cat3("Task '", task_name, "' failed with exit code: ");
            let text = exit_code_string(*code);
            out.append(text.as_str());
            out
        },
        RunOutcome::SpawnFailed(e) => {
            let mut out = cat3("Task '", task_name, "' failed: ");
            out.append(e.as_str());
            out
        },
    }
}

/// The event that ends a sequence step: completion when every task of the
/// step succeeded, else failure of the sequence (no further step runs).
pub fn step_end_event(all_succeeded: bool) -> (r: AppEvent)
    ensures
        all_succeeded ==> r == AppEvent::Sequence(SequenceEvent::StepCompleted),
        !all_succeeded ==> (r matches AppEvent::Sequence(SequenceEvent::SequenceFailed(m)) && m@
            == "One or more tasks failed"@),
{
    if all_succeeded {
        AppEvent::Sequence(SequenceEvent::StepCompleted)
    } else {
        AppEvent::Sequence(SequenceEvent::SequenceFailed(String::from_str("One or more tasks failed")))
    }
}

/// Whether the step goes on to its next task after this outcome.
pub fn continues_step(outcome: &RunOutcome) -> (r: bool)
    ensures
        r == (*outcome is Succeeded),
{
    match outcome {
        RunOutcome::Succeeded => true,
        _ => false,
    }
}

} // verus!
