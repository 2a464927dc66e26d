//! Runs, cancellation, the sequence orchestrator, renaming, and the
//! outcomes of task-runner operations.

use vstd::prelude::*;
use vstd::string::{StrSliceExecFns, StringExecFns};

use crate::app::{keep_last, App, AppEvent, AppState, Effect, NUM_STEPS, OUTPUT_CAPACITY};
use crate::sequence::{no_steps, SequenceEvent, SequenceState};
use crate::task::MiseTaskInfo;
use crate::text::{cat2, cat3, cat4, join_with, joined, trim_text, trimmed};

verus! {

/// The effects that start step `step` of `seq`: a synthetic completion for
/// a step without a task, else a run of its task.
pub open spec fn step_effects(seq: SequenceState, step: int, effects: Seq<Effect>) -> bool {
    let tasks = seq.tasks_for_step(step);
    if tasks.len() == 0 {
        effects == seq![Effect::Post(AppEvent::Sequence(SequenceEvent::StepCompleted))]
    } else {
        effects.len() == 1 && (effects[0] matches Effect::RunStep(v) && v@.map_values(|s: String| s@) == tasks)
    }
}

/// `after` is `before` with one line whose text is `text` appended, the
/// oldest lines evicted beyond the capacity.
pub open spec fn line_appended(before: Seq<String>, after: Seq<String>, text: Seq<char>) -> bool {
    &&& after.len() > 0
    &&& after.last()@ == text
    &&& after.drop_last() == keep_last(before, (OUTPUT_CAPACITY - 1) as nat)
}

proof fn lemma_keep_last_push(s: Seq<String>, x: String)
    ensures
        line_appended(s, keep_last(s.push(x), OUTPUT_CAPACITY as nat), x@),
{
    let n = OUTPUT_CAPACITY as nat;
    let k = keep_last(s.push(x), n);
    assert(k.last() == x);
    assert(k.drop_last() =~= keep_last(s, (n - 1) as nat));
}

/// What one event of the sequence orchestrator does to the console state
/// and which effects it asks for.
pub open spec fn sequence_transition(pre: App, post: App, event: SequenceEvent, effects: Seq<Effect>) -> bool {
    match event {
        SequenceEvent::ToggleStep(name, step) => {
            &&& effects.len() == 0
            &&& post == (App { sequence_state: post.sequence_state, ..pre })
            &&& step < NUM_STEPS ==> forall|n: Seq<char>, s: int|
                0 <= s < NUM_STEPS ==> #[trigger] post.sequence_state.enabled(n, s) == if s == step {
                    if !pre.sequence_state.enabled(name@, s) {
                        n == name@
                    } else {
                        n != name@ && pre.sequence_state.enabled(n, s)
                    }
                } else {
                    pre.sequence_state.enabled(n, s)
                }
            &&& step >= NUM_STEPS ==> post.sequence_state.task_steps@ == pre.sequence_state.task_steps@
        },
        SequenceEvent::RunSequence => {
            &&& pre.sequence_state.is_running ==> post == pre && effects.len() == 0
            &&& !pre.sequence_state.is_running ==> {
                &&& post.sequence_state.is_running
                &&& post.sequence_state.current_step == Some(0usize)
                &&& post.sequence_state.completed_steps@ == no_steps(NUM_STEPS as nat)
                &&& post.sequence_state.task_steps == pre.sequence_state.task_steps
                &&& post.task_running
                &&& post.show_output_pane
                &&& post.task_output@.len() == 0
                &&& step_effects(post.sequence_state, 0, effects)
                &&& post == (App {
                    sequence_state: post.sequence_state,
                    task_output: post.task_output,
                    show_output_pane: true,
                    task_running: true,
                    has_running_handle: pre.has_running_handle || pre.sequence_state.tasks_for_step(0).len() > 0,
                    ..pre
                })
            }
        },
        SequenceEvent::AddAsTask => {
            match pre.sequence_state.sequence_command() {
                Some(c) => effects.len() == 1 && (effects[0] matches Effect::AddSequenceTask(cmd) && cmd@ == c)
                    && post == pre,
                None => effects.len() == 0 && texts(post.task_output@) == seq![
                    "No tasks enabled in sequence. Enable some tasks first!"@] && post == (App {
                    task_output: post.task_output,
                    show_output_pane: true,
                    task_running: false,
                    ..pre
                }),
            }
        },
        SequenceEvent::ClearSequence => {
            &&& effects.len() == 0
            &&& post == (App { sequence_state: post.sequence_state, ..pre })
            &&& post.sequence_state.idle()
            &&& post.sequence_state.task_steps@.len() == pre.sequence_state.task_steps@.len()
            &&& forall|n: Seq<char>, s: int| !#[trigger] post.sequence_state.enabled(n, s)
        },
        SequenceEvent::StepCompleted => {
            &&& !pre.sequence_state.is_running ==> post == pre && effects.len() == 0
            &&& pre.sequence_state.is_running && pre.sequence_state.current_step is Some ==> {
                let c = pre.sequence_state.current_step->0;
                &&& post.sequence_state.completed_steps@ == pre.sequence_state.completed_steps@.update(c as int, true)
                &&& post.sequence_state.task_steps == pre.sequence_state.task_steps
                &&& post == (App {
                    sequence_state: post.sequence_state,
                    has_running_handle: pre.has_running_handle || (c + 1 < NUM_STEPS
                        && pre.sequence_state.tasks_for_step(c + 1).len() > 0),
                    ..pre
                })
                &&& c + 1 < NUM_STEPS ==> post.sequence_state.current_step == Some((c + 1) as usize)
                    && post.sequence_state.is_running
                    && step_effects(post.sequence_state, c + 1, effects)
                &&& c + 1 >= NUM_STEPS ==> !post.sequence_state.is_running
                    && post.sequence_state.current_step is None
                    && effects == seq![Effect::Post(AppEvent::Sequence(SequenceEvent::SequenceCompleted))]
            }
        },
        SequenceEvent::SequenceCompleted => {
            &&& effects.len() == 0
            &&& post.sequence_state == (SequenceState { current_step: None, is_running: false, ..pre.sequence_state })
            &&& post == (App {
                sequence_state: post.sequence_state,
                task_running: false,
                has_running_handle: false,
                ..pre
            })
        },
        SequenceEvent::SequenceFailed(error) => {
            &&& effects.len() == 0
            &&& !pre.sequence_state.is_running ==> post == pre
            &&& pre.sequence_state.is_running ==> {
                &&& line_appended(pre.task_output@, post.task_output@, "Sequence failed: "@ + error@)
                &&& post.sequence_state.idle()
                &&& post.sequence_state.task_steps == pre.sequence_state.task_steps
                &&& post == (App {
                    sequence_state: post.sequence_state,
                    task_output: post.task_output,
                    output_scroll_offset: post.output_scroll_offset,
                    task_running: false,
                    has_running_handle: false,
                    ..pre
                })
            }
        },
    }
}

/// Cancelling. A run is tracked when a handle is held or a sequence is in
/// progress (an empty step holds no handle). Then the handle is torn down at
/// once, the run and the sequence stop, and one cancellation line is
/// appended; later completion or failure signals find nothing running. With
/// nothing tracked nothing happens.
pub open spec fn cancel_transition(pre: App, post: App, effects: Seq<Effect>) -> bool {
    if !pre.has_running_handle && !pre.sequence_state.is_running {
        post == pre && effects.len() == 0
    } else {
        &&& effects == if pre.has_running_handle {
            seq![Effect::AbortRun]
        } else {
            seq![]
        }
        &&& post == (App {
            task_output: post.task_output,
            output_scroll_offset: post.output_scroll_offset,
            task_running: false,
            running_task_name: None,
            has_running_handle: false,
            sequence_state: post.sequence_state,
            ..pre
        })
        &&& !post.sequence_state.is_running
        &&& pre.sequence_state.is_running ==> post.sequence_state.idle()
            && post.sequence_state.task_steps == pre.sequence_state.task_steps
        &&& !pre.sequence_state.is_running ==> post.sequence_state == pre.sequence_state
        &&& line_appended(pre.task_output@, post.task_output@, "Task cancelled by user"@)
    }
}

/// Confirming the rename input: rename mode ends, and a rename to the
/// trimmed input is asked for when it is not empty and differs from the
/// original name.
pub open spec fn rename_saved(pre: App, post: App, effects: Seq<Effect>) -> bool {
    &&& post == (App {
        state: AppState::SequenceBuilder,
        rename_input: None,
        original_task_name: None,
        ..pre
    })
    &&& pre.rename_input is None ==> effects.len() == 0
    &&& pre.rename_input matches Some(input) ==> match pre.original_task_name {
        Some(o) => if trimmed(input@).len() > 0 && trimmed(input@) != o@ {
            effects.len() == 1 && (effects[0] matches Effect::RenameTask { old_name, new_name }
                && old_name@ == o@ && new_name@ == trimmed(input@))
        } else {
            effects.len() == 0
        },
        None => effects.len() == 0
    }
}

/// The text of each string.
pub open spec fn texts(v: Seq<String>) -> Seq<Seq<char>> {
    v.map_values(|s: String| s@)
}

/// The lines that describe a task: its name, then its description, file,
/// run configuration and dependencies where it has them.
pub open spec fn content_lines(name: Seq<char>, info: MiseTaskInfo) -> Seq<Seq<char>> {
    seq!["=== Task: "@ + name + " ==="@] + (if info.description@.len() > 0 {
        seq!["Description: "@ + info.description@]
    } else {
        seq![]
    }) + (match info.file {
        Some(f) => seq!["File: "@ + f@],
        None => seq![],
    }) + (if info.run@.len() > 0 {
        seq!["Run configuration:"@, joined(texts(info.run@), " "@)]
    } else {
        seq![]
    }) + (if info.depends@.len() > 0 {
        seq!["Dependencies: "@ + joined(texts(info.depends@), ", "@)]
    } else {
        seq![]
    })
}

/// The message that reports a rename.
pub open spec fn rename_message(original: Seq<char>, requested: Seq<char>, stored: Seq<char>) -> Seq<char> {
    if stored != requested {
        "Task '"@ + original + "' renamed to '"@ + stored + "' (name adjusted to avoid conflicts)"@
    } else {
        "Task '"@ + original + "' renamed to '"@ + stored + "'"@
    }
}

/// The lines of the task description shown in the output pane.
pub fn task_content_lines(task_name: &str, info: &MiseTaskInfo) -> (r: Vec<String>)
    ensures
        texts(r@) == content_lines(task_name@, *info),
        r@.len() <= 6,
{
    let mut lines: Vec<String> = Vec::new();
    lines.push(cat3("=== Task: ", task_name, " ==="));
    if info.description.as_str().unicode_len() > 0 {
        lines.push(cat2("Description: ", info.description.as_str()));
    }
    match &info.file {
        Some(f) => lines.push(cat2("File: ", f.as_str())),
        None => {},
    }
    if info.run.len() > 0 {
        lines.push(String::from_str("Run configuration:"));
        lines.push(join_with(&info.run, " "));
    }
    if info.depends.len() > 0 {
        let deps = join_with(&info.depends, ", ");
        lines.push(cat2("Dependencies: ", deps.as_str()));
    }
    assert(texts(lines@) =~= content_lines(task_name@, *info));
    lines
}

impl App {
    /// Replaces the output with `lines` and shows the pane, not running.
    pub(crate) fn replace_output(&mut self, lines: Vec<String>)
        requires
            lines@.len() <= OUTPUT_CAPACITY,
        ensures
            texts(final(self).task_output@) == texts(lines@),
            *final(self) == (App {
                task_output: final(self).task_output,
                show_output_pane: true,
                task_running: false,
                ..*old(self)
            }),
    {
        self.task_output.clear();
        self.show_output_pane = true;
        self.task_running = false;
        let ghost before = *self;
        let mut i: usize = 0;
        while i < lines.len()
            invariant
                i <= lines@.len() <= OUTPUT_CAPACITY,
                self.task_output@ == lines@.take(i as int),
                *self == (App { task_output: self.task_output, ..before }),
                !self.task_running,
            decreases lines@.len() - i,
        {
            self.push_output(lines[i].clone());
            assert(self.task_output@ =~= lines@.take(i + 1));
            i += 1;
        }
        assert(lines@.take(lines@.len() as int) =~= lines@);
    }

    /// Appends a message line to the output.
    pub(crate) fn push_message(&mut self, text: String)
        ensures
            line_appended(old(self).task_output@, final(self).task_output@, text@),
            *final(self) == (App {
                task_output: final(self).task_output,
                output_scroll_offset: final(self).output_scroll_offset,
                ..*old(self)
            }),
    {
        proof {
            lemma_keep_last_push(self.task_output@, text);
        }
        self.push_output(text);
    }

    /// Effects that start the current step of the sequence.
    fn execute_current_step(&mut self) -> (effects: Vec<Effect>)
        requires
            old(self).wf(),
            old(self).sequence_state.current_step is Some,
        ensures
            step_effects(
                old(self).sequence_state,
                old(self).sequence_state.current_step->0 as int,
                effects@,
            ),
            *final(self) == (App {
                has_running_handle: old(self).has_running_handle || old(self).sequence_state.tasks_for_step(
                    old(self).sequence_state.current_step->0 as int,
                ).len() > 0,
                ..*old(self)
            }),
    {
        let step = match self.sequence_state.current_step {
            Some(s) => s,
            None => 0,
        };
        let tasks = self.sequence_state.get_tasks_for_step(step);
        if tasks.len() == 0 {
            let r = vec![Effect::Post(AppEvent::Sequence(SequenceEvent::StepCompleted))];
            assert(r@ =~= seq![Effect::Post(AppEvent::Sequence(SequenceEvent::StepCompleted))]);
            r
        } else {
            self.has_running_handle = true;
            vec![Effect::RunStep(tasks)]
        }
    }

    /// Starts the sequence at step 0 unless it is running.
    fn start_sequence_execution(&mut self) -> (effects: Vec<Effect>)
        requires
            old(self).wf(),
        ensures
            final(self).wf(),
            old(self).sequence_state.is_running ==> *final(self) == *old(self) && effects@.len() == 0,
            !old(self).sequence_state.is_running ==> {
                &&& final(self).sequence_state == (SequenceState {
                    current_step: Some(0usize),
                    is_running: true,
                    completed_steps: final(self).sequence_state.completed_steps,
                    ..old(self).sequence_state
                })
                &&& final(self).sequence_state.completed_steps@ == no_steps(NUM_STEPS as nat)
                &&& final(self).task_output@.len() == 0
                &&& final(self).show_output_pane
                &&& final(self).task_running
                &&& step_effects(final(self).sequence_state, 0, effects@)
                &&& *final(self) == (App {
                    sequence_state: final(self).sequence_state,
                    task_output: final(self).task_output,
                    show_output_pane: true,
                    task_running: true,
                    has_running_handle: old(self).has_running_handle
                        || old(self).sequence_state.tasks_for_step(0).len() > 0,
                    ..*old(self)
                })
            },
    {
        if self.sequence_state.is_running {
            return Vec::new();
        }
        self.sequence_state.start_execution();
        self.task_output.clear();
        self.show_output_pane = true;
        self.task_running = true;
        self.execute_current_step()
    }

    /// Applies one event of the sequence orchestrator.
    pub fn handle_sequence_event(&mut self, event: SequenceEvent) -> (effects: Vec<Effect>)
        requires
            old(self).wf(),
        ensures
            final(self).wf(),
            sequence_transition(*old(self), *final(self), event, effects@),
    {
        match event {
            SequenceEvent::ToggleStep(task_name, step) => {
                let current = self.sequence_state.is_task_enabled_for_step(task_name.as_str(), step);
                self.sequence_state.set_task_step(task_name.as_str(), step, !current);
                Vec::new()
            },
            SequenceEvent::RunSequence => self.start_sequence_execution(),
            SequenceEvent::AddAsTask => {
                match self.sequence_state.generate_mise_task_command() {
                    Some(command) => vec![Effect::AddSequenceTask(command)],
                    None => {
                        let lines = vec![String::from_str("No tasks enabled in sequence. Enable some tasks first!")];
                        assert(texts(lines@) =~= seq!["No tasks enabled in sequence. Enable some tasks first!"@]);
                        self.replace_output(lines);
                        Vec::new()
                    },
                }
            },
            SequenceEvent::ClearSequence => {
                self.sequence_state.clear_all();
                proof {
                    assert forall|n: Seq<char>, s: int| !#[trigger] self.sequence_state.enabled(n, s) by {
                        if self.sequence_state.enabled(n, s) {
                            let i = choose|i: int|
                                0 <= i < self.sequence_state.task_steps@.len()
                                    && #[trigger] self.sequence_state.entry_name(i) == n && 0 <= s
                                    < self.sequence_state.entry_steps(i).len()
                                    && self.sequence_state.entry_steps(i)[s];
                            assert(self.sequence_state.entry_name(i) == n);
                        }
                    }
                }
                Vec::new()
            },
            SequenceEvent::StepCompleted => {
                if !self.sequence_state.is_running {
                    return Vec::new();
                }
                if self.sequence_state.advance_step() {
                    self.execute_current_step()
                } else {
                    let r = vec![Effect::Post(AppEvent::Sequence(SequenceEvent::SequenceCompleted))];
                    assert(r@ =~= seq![Effect::Post(AppEvent::Sequence(SequenceEvent::SequenceCompleted))]);
                    r
                }
            },
            SequenceEvent::SequenceCompleted => {
                self.sequence_state.finish_execution();
                self.task_running = false;
                self.has_running_handle = false;
                Vec::new()
            },
            SequenceEvent::SequenceFailed(error) => {
                if !self.sequence_state.is_running {
                    return Vec::new();
                }
                let text = cat2("Sequence failed: ", error.as_str());
                self.push_message(text);
                self.sequence_state.reset_execution();
                self.task_running = false;
                self.has_running_handle = false;
                Vec::new()
            },
        }
    }

    /// Tears down the run in flight: the handle is dropped at once, the run
    /// and the sequence stop, and one cancellation line is appended. With no
    /// handle tracked, nothing happens.
    pub fn cancel_running_task(&mut self) -> (effects: Vec<Effect>)
        requires
            old(self).wf(),
        ensures
            final(self).wf(),
            cancel_transition(*old(self), *final(self), effects@),
    {
        if !self.has_running_handle && !self.sequence_state.is_running {
            return Vec::new();
        }
        let had_handle = self.has_running_handle;
        self.has_running_handle = false;
        self.task_running = false;
        self.running_task_name = None;
        if self.sequence_state.is_running {
            self.sequence_state.reset_execution();
        }
        self.push_message(String::from_str("Task cancelled by user"));
        if had_handle {
            let r = vec![Effect::AbortRun];
            assert(r@ =~= seq![Effect::AbortRun]);
            r
        } else {
            Vec::new()
        }
    }

    /// Runs the selected task, unless something is running already.
    pub fn run_current_task(&mut self) -> (effects: Vec<Effect>)
        ensures
            old(self).selected_task >= old(self).tasks@.len() || old(self).task_running
                || old(self).sequence_state.is_running ==> *final(self) == *old(self) && effects@.len() == 0,
            old(self).selected_task < old(self).tasks@.len() && !old(self).task_running
                && !old(self).sequence_state.is_running ==> {
                let name = old(self).tasks@[old(self).selected_task as int].name;
                &&& effects@.len() == 1 && (effects@[0] matches Effect::RunTask(n) && n@ == name@)
                &&& *final(self) == (App {
                    task_output: final(self).task_output,
                    show_output_pane: true,
                    task_running: true,
                    running_task_name: final(self).running_task_name,
                    has_running_handle: true,
                    ..*old(self)
                })
                &&& final(self).task_output@.len() == 0
                &&& final(self).running_task_name matches Some(n) && n@ == name@
            },
    {
        if self.selected_task >= self.tasks.len() || self.task_running || self.sequence_state.is_running {
            return Vec::new();
        }
        let name = self.tasks[self.selected_task].name.clone();
        self.task_output.clear();
        self.show_output_pane = true;
        self.task_running = true;
        self.running_task_name = Some(name.clone());
        self.has_running_handle = true;
        vec![Effect::RunTask(name)]
    }

    /// Runs the selected task from its detail view and shows it running.
    pub fn run_selected_task(&mut self) -> (effects: Vec<Effect>)
        ensures
            final(self).sequence_state == old(self).sequence_state,
            old(self).selected_task >= old(self).tasks@.len() || old(self).task_running
                || old(self).sequence_state.is_running ==> *final(self) == *old(self) && effects@.len() == 0,
            old(self).selected_task < old(self).tasks@.len() && !old(self).task_running
                && !old(self).sequence_state.is_running ==> {
                let name = old(self).tasks@[old(self).selected_task as int].name;
                &&& effects@.len() == 1 && (effects@[0] matches Effect::RunTask(n) && n@ == name@)
                &&& final(self).state matches AppState::Running(n) && n@ == name@
                &&& final(self).task_running && final(self).has_running_handle
            },
    {
        let effects = self.run_current_task();
        if effects.len() > 0 {
            let name = self.tasks[self.selected_task].name.clone();
            self.state = AppState::Running(name);
        }
        effects
    }

    /// Toggles step `step` for the selected task.
    pub fn toggle_current_task_step(&mut self, step: usize) -> (effects: Vec<Effect>)
        requires
            old(self).wf(),
        ensures
            final(self).wf(),
            effects@.len() == 0,
            *final(self) == (App { sequence_state: final(self).sequence_state, ..*old(self) }),
            old(self).selected_task >= old(self).tasks@.len() ==> *final(self) == *old(self),
            old(self).selected_task < old(self).tasks@.len() && step < NUM_STEPS ==> {
                let name = old(self).tasks@[old(self).selected_task as int].name@;
                forall|n: Seq<char>, s: int|
                    0 <= s < NUM_STEPS ==> #[trigger] final(self).sequence_state.enabled(n, s) == if s == step {
                        if !old(self).sequence_state.enabled(name, s) {
                            n == name
                        } else {
                            n != name && old(self).sequence_state.enabled(n, s)
                        }
                    } else {
                        old(self).sequence_state.enabled(n, s)
                    }
            },
    {
        if self.selected_task >= self.tasks.len() {
            return Vec::new();
        }
        let name = self.tasks[self.selected_task].name.clone();
        self.handle_sequence_event(SequenceEvent::ToggleStep(name, step))
    }

    /// Enters rename mode for the selected task.
    pub fn start_rename_task(&mut self)
        ensures
            old(self).selected_task >= old(self).tasks@.len() ==> *final(self) == *old(self),
            old(self).selected_task < old(self).tasks@.len() ==> {
                let name = old(self).tasks@[old(self).selected_task as int].name@;
                &&& final(self).state matches AppState::Renaming(n) && n@ == name
                &&& final(self).original_task_name matches Some(n) && n@ == name
                &&& final(self).rename_input matches Some(n) && n@ == name
                &&& *final(self) == (App {
                    state: final(self).state,
                    original_task_name: final(self).original_task_name,
                    rename_input: final(self).rename_input,
                    ..*old(self)
                })
            },
    {
        if self.selected_task >= self.tasks.len() {
            return ;
        }
        let name = self.tasks[self.selected_task].name.clone();
        self.state = AppState::Renaming(name.clone());
        self.original_task_name = Some(name.clone());
        self.rename_input = Some(name);
    }

    /// Leaves rename mode, asking for a rename to `new_name` (already
    /// trimmed) when it is not empty and differs from the original name.
    pub fn apply_rename(&mut self, new_name: String) -> (effects: Vec<Effect>)
        ensures
            *final(self) == (App {
                state: AppState::SequenceBuilder,
                rename_input: None,
                original_task_name: None,
                ..*old(self)
            }),
            match old(self).original_task_name {
                Some(o) => if new_name@.len() > 0 && new_name@ != o@ {
                    effects@.len() == 1 && (effects@[0] matches Effect::RenameTask { old_name, new_name: n }
                        && old_name@ == o@ && n@ == new_name@)
                } else {
                    effects@.len() == 0
                },
                None => effects@.len() == 0,
            },
    {
        let mut effects: Vec<Effect> = Vec::new();
        if new_name.as_str().unicode_len() > 0 {
            match &self.original_task_name {
                Some(original) => {
                    if !(new_name == *original) {
                        effects.push(Effect::RenameTask { old_name: original.clone(), new_name });
                    }
                },
                None => {},
            }
        }
        self.cancel_rename();
        effects
    }

    /// Confirms the rename input: its text without surrounding white space
    /// becomes the requested name (see `apply_rename`).
    pub fn save_rename(&mut self) -> (effects: Vec<Effect>)
        ensures
            rename_saved(*old(self), *final(self), effects@),
    {
        let new_name = match &self.rename_input {
            Some(input) => trim_text(input.as_str()),
            None => {
                self.cancel_rename();
                return Vec::new();
            },
        };
        self.apply_rename(new_name)
    }

    /// Records the outcome of a delete.
    pub fn on_task_deleted(&mut self, task_name: String, error: Option<String>) -> (effects: Vec<Effect>)
        requires
            old(self).wf(),
        ensures
            final(self).wf(),
            final(self).show_output_pane,
            match error {
                None => {
                    &&& effects@.len() == 1 && effects@[0] is RefreshTasks
                    &&& !final(self).sequence_state.has_entry(task_name@)
                    &&& forall|n: Seq<char>, s: int| #[trigger] final(self).sequence_state.enabled(n, s)
                        == (n != task_name@ && old(self).sequence_state.enabled(n, s))
                    &&& line_appended(old(self).task_output@, final(self).task_output@,
                        "Task '"@ + task_name@ + "' deleted successfully. Remember to keep your mise tasks under version control."@)
                },
                Some(e) => {
                    &&& effects@.len() == 0
                    &&& final(self).sequence_state == old(self).sequence_state
                    &&& line_appended(old(self).task_output@, final(self).task_output@,
                        "Failed to delete task '"@ + task_name@ + "': "@ + e@)
                },
            },
    {
        self.show_output_pane = true;
        match error {
            None => {
                self.sequence_state.remove_task(task_name.as_str());
                let text = cat3("Task '", task_name.as_str(), "' deleted successfully. Remember to keep your mise tasks under version control.");
                self.push_message(text);
                vec![Effect::RefreshTasks]
            },
            Some(e) => {
                let text = cat4("Failed to delete task '", task_name.as_str(), "': ", e.as_str());
                self.push_message(text);
                Vec::new()
            },
        }
    }

    /// Records the outcome of a rename.
    pub fn on_task_renamed(&mut self, original: String, requested: String, outcome: Result<String, String>) -> (effects: Vec<Effect>)
        ensures
            final(self).show_output_pane,
            final(self).sequence_state == old(self).sequence_state,
            match outcome {
                Ok(stored) => effects@.len() == 1 && effects@[0] is RefreshTasks
                    && line_appended(old(self).task_output@, final(self).task_output@,
                        rename_message(original@, requested@, stored@)),
                Err(e) => effects@.len() == 0 && line_appended(old(self).task_output@, final(self).task_output@,
                    "Failed to rename task '"@ + original@ + "': "@ + e@),
            },
    {
        self.show_output_pane = true;
        match outcome {
            Ok(stored) => {
                let mut text = cat4("Task '", original.as_str(), "' renamed to '", stored.as_str());
                if !(stored == requested) {
                    text.append("' (name adjusted to avoid conflicts)");
                } else {
                    text.append("'");
                }
                self.push_message(text);
                vec![Effect::RefreshTasks]
            },
            Err(e) => {
                let text = cat4("Failed to rename task '", original.as_str(), "': ", e.as_str());
                self.push_message(text);
                Vec::new()
            },
        }
    }

    /// Shows the extended record of a task, or why it could not be had.
    pub fn on_task_info(&mut self, task_name: String, info: Result<MiseTaskInfo, String>)
        ensures
            final(self).show_output_pane,
            !final(self).task_running,
            final(self).sequence_state == old(self).sequence_state,
            match info {
                Ok(i) => texts(final(self).task_output@) == content_lines(task_name@, i),
                Err(e) => texts(final(self).task_output@) == seq!["Failed to get task info: "@ + e@],
            },
    {
        match info {
            Ok(i) => {
                let lines = task_content_lines(task_name.as_str(), &i);
                self.replace_output(lines);
            },
            Err(e) => {
                let lines = vec![cat2("Failed to get task info: ", e.as_str())];
                self.replace_output(lines);
            },
        }
    }

    /// Reports the task that stores the sequence, or why it was not stored.
    pub fn on_sequence_task_added(&mut self, task_name: String, command: String, error: Option<String>) -> (effects: Vec<Effect>)
        ensures
            final(self).show_output_pane,
            !final(self).task_running,
            final(self).sequence_state == old(self).sequence_state,
            match error {
                None => effects@.len() == 1 && effects@[0] is RefreshTasks && texts(final(self).task_output@) == seq![
                    "✓ Created task '"@ + task_name@ + "' successfully!"@,
                    "Command: "@ + command@,
                ],
                Some(e) => effects@.len() == 0 && texts(final(self).task_output@) == seq![
                    "✗ Error adding task to mise.toml: "@ + e@],
            },
    {
        match error {
            None => {
                let lines = vec![
                    cat3("✓ Created task '", task_name.as_str(), "' successfully!"),
                    cat2("Command: ", command.as_str()),
                ];
                self.replace_output(lines);
                vec![Effect::RefreshTasks]
            },
            Some(e) => {
                let lines = vec![cat2("✗ Error adding task to mise.toml: ", e.as_str())];
                self.replace_output(lines);
                Vec::new()
            },
        }
    }
}

} // verus!
