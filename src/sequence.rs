use vstd::prelude::*;
use vstd::string::StringExecFns;

use crate::text::{join_with, joined};

verus! {

/// Assignment of tasks to the steps of a sequence, together with the
/// progress of a sequence run.
///
/// `task_steps` maps a task name to one flag per step; each name occurs once.
pub struct SequenceState {
    pub task_steps: Vec<(String, Vec<bool>)>,
    pub num_steps: usize,
    pub current_step: Option<usize>,
    pub is_running: bool,
    pub completed_steps: Vec<bool>,
}

/// Events that drive the sequence orchestrator.
pub enum SequenceEvent {
    ToggleStep(String, usize),
    RunSequence,
    AddAsTask,
    ClearSequence,
    StepCompleted,
    SequenceCompleted,
    SequenceFailed(String),
}

/// Flag vectors have one slot per step, names are unique, and each step
/// has at most one enabled task.
pub open spec fn entries_wf(entries: Seq<(String, Vec<bool>)>, num_steps: nat) -> bool {
    &&& forall|i: int| 0 <= i < entries.len() ==> (#[trigger] entries[i]).1@.len() == num_steps
    &&& forall|i: int, j: int|
        0 <= i < entries.len() && 0 <= j < entries.len() && i != j ==> (#[trigger] entries[i]).0@
            != (#[trigger] entries[j]).0@
    &&& forall|i: int, j: int, s: int|
        0 <= i < entries.len() && 0 <= j < entries.len() && i != j && 0 <= s < num_steps
            && #[trigger] entries[i].1@[s] ==> !#[trigger] entries[j].1@[s]
}

/// The names of the tasks bound to `step`, in the order of `entries`.
pub open spec fn tasks_in(entries: Seq<(String, Vec<bool>)>, step: int) -> Seq<Seq<char>>
    decreases entries.len(),
{
    if entries.len() == 0 {
        seq![]
    } else {
        let rest = tasks_in(entries.drop_last(), step);
        let e = entries.last();
        if 0 <= step < e.1@.len() && e.1@[step] {
            rest.push(e.0@)
        } else {
            rest
        }
    }
}

/// The command that runs one task.
pub open spec fn run_command(name: Seq<char>) -> Seq<char> {
    "mise run "@ + name
}

/// All `false`, one flag per step.
pub open spec fn no_steps(n: nat) -> Seq<bool> {
    Seq::new(n, |i: int| false)
}

impl SequenceState {
    pub open spec fn entry_name(self, i: int) -> Seq<char> {
        self.task_steps@[i].0@
    }

    pub open spec fn entry_steps(self, i: int) -> Seq<bool> {
        self.task_steps@[i].1@
    }

    /// Whether the task named `name` is bound to `step`.
    pub open spec fn enabled(self, name: Seq<char>, step: int) -> bool {
        exists|i: int|
            0 <= i < self.task_steps@.len() && #[trigger] self.entry_name(i) == name && 0 <= step
                < self.entry_steps(i).len() && self.entry_steps(i)[step]
    }

    /// Whether some entry is named `name`.
    pub open spec fn has_entry(self, name: Seq<char>) -> bool {
        exists|i: int| 0 <= i < self.task_steps@.len() && #[trigger] self.entry_name(i) == name
    }

    /// The names bound to `step`.
    pub open spec fn tasks_for_step(self, step: int) -> Seq<Seq<char>> {
        tasks_in(self.task_steps@, step)
    }

    /// Commands of the steps `0..k` that have a task, in step order.
    pub open spec fn commands_upto(self, k: int) -> Seq<Seq<char>>
        decreases k,
    {
        if k <= 0 {
            seq![]
        } else {
            let rest = self.commands_upto(k - 1);
            let tasks = self.tasks_for_step(k - 1);
            if tasks.len() > 0 {
                rest.push(run_command(tasks[0]))
            } else {
                rest
            }
        }
    }

    /// The command line that runs the whole sequence, if any step has a task.
    pub open spec fn sequence_command(self) -> Option<Seq<char>> {
        let parts = self.commands_upto(self.num_steps as int);
        if parts.len() == 0 {
            None
        } else {
            Some(joined(parts, " && "@))
        }
    }

    /// Well-formedness: one completion flag per step, a current step inside
    /// the sequence, and well-formed entries.
    pub open spec fn wf(self) -> bool {
        &&& self.completed_steps@.len() == self.num_steps
        &&& (self.current_step matches Some(c) ==> c < self.num_steps)
        &&& entries_wf(self.task_steps@, self.num_steps as nat)
    }

    /// The execution fields are idle.
    pub open spec fn idle(self) -> bool {
        &&& self.current_step is None
        &&& !self.is_running
        &&& self.completed_steps@ == no_steps(self.num_steps as nat)
    }

    pub fn new(num_steps: usize) -> (r: Self)
        ensures
            r.wf(),
            r.num_steps == num_steps,
            r.task_steps@.len() == 0,
            r.idle(),
    {
        SequenceState {
            task_steps: Vec::new(),
            num_steps,
            current_step: None,
            is_running: false,
            completed_steps: all_false(num_steps),
        }
    }

    /// Binds (`enabled`) or unbinds the task `task_name` for `step`.
    /// Binding first clears `step` for every other task. A step outside the
    /// sequence changes nothing.
    pub fn set_task_step(&mut self, task_name: &str, step: usize, enabled: bool)
        requires
            old(self).wf(),
        ensures
            final(self).wf(),
            final(self).num_steps == old(self).num_steps,
            final(self).current_step == old(self).current_step,
            final(self).is_running == old(self).is_running,
            final(self).completed_steps@ == old(self).completed_steps@,
            step >= old(self).num_steps ==> final(self).task_steps@ == old(self).task_steps@,
            step < old(self).num_steps ==> set_step_relation(*old(self), *final(self), task_name@, step as int, enabled),
            step < old(self).num_steps ==> forall|n: Seq<char>, s: int|
                0 <= s < old(self).num_steps ==> #[trigger] final(self).enabled(n, s) == if s
                    == step {
                    if enabled {
                        n == task_name@
                    } else {
                        n != task_name@ && old(self).enabled(n, s)
                    }
                } else {
                    old(self).enabled(n, s)
                },
    {
        if step >= self.num_steps {
            return ;
        }
        let ghost pre = *self;
        let len = self.task_steps.len();
        if enabled {
            let mut i: usize = 0;
            while i < len
                invariant
                    pre.wf(),
                    step < pre.num_steps,
                    len == pre.task_steps@.len(),
                    self.task_steps@.len() == len,
                    self.num_steps == pre.num_steps,
                    self.current_step == pre.current_step,
                    self.is_running == pre.is_running,
                    self.completed_steps@ == pre.completed_steps@,
                    i <= len,
                    forall|k: int|
                        #![trigger self.task_steps@[k]]
                        0 <= k < len ==> self.entry_name(k) == pre.entry_name(k),
                    forall|k: int|
                        #![trigger self.task_steps@[k]]
                        0 <= k < i ==> self.entry_steps(k) == pre.entry_steps(k).update(
                            step as int,
                            false,
                        ),
                    forall|k: int|
                        #![trigger self.task_steps@[k]]
                        i <= k < len ==> self.entry_steps(k) == pre.entry_steps(k),
                decreases len - i,
            {
                assert(self.entry_steps(i as int) == pre.entry_steps(i as int));
                set_flag(&mut self.task_steps, i, step, false);
                i += 1;
            }
        }
        let ghost cleared = *self;
        assert forall|k: int| 0 <= k < len implies #[trigger] cleared.entry_name(k) == pre.entry_name(k) by {
            if enabled {
            }
        }
        let key = task_name.to_owned();
        let mut found: Option<usize> = None;
        let mut j: usize = 0;
        while j < len
            invariant
                len == self.task_steps@.len(),
                j <= len,
                key@ == task_name@,
                *self == cleared,
                found is None ==> forall|k: int|
                    0 <= k < j ==> #[trigger] self.entry_name(k) != task_name@,
                found matches Some(f) ==> f < len && self.entry_name(f as int) == task_name@,
            decreases len - j,
        {
            if found.is_none() && self.task_steps[j].0 == key {
                found = Some(j);
            }
            j += 1;
        }
        match found {
            Some(f) => {
                assert(cleared.entry_name(f as int) == pre.entry_name(f as int));
                assert(cleared.entry_steps(f as int).len() == pre.num_steps) by {
                    if enabled {
                        assert(cleared.entry_steps(f as int) == pre.entry_steps(f as int).update(step as int, false));
                    }
                }
                set_flag(&mut self.task_steps, f, step, enabled);
                assert(old(self).has_entry(task_name@));
                assert forall|k: int| 0 <= k < len implies #[trigger] self.entry_name(k) == pre.entry_name(k) && self.entry_steps(k) == if pre.entry_name(k) == task_name@ {
                    pre.entry_steps(k).update(step as int, enabled)
                } else if enabled {
                    pre.entry_steps(k).update(step as int, false)
                } else {
                    pre.entry_steps(k)
                } by {
                    assert(cleared.entry_name(k) == pre.entry_name(k));
                    if k == f {
                        assert(self.entry_steps(k) =~= pre.entry_steps(k).update(step as int, enabled));
                    } else {
                        assert(self.task_steps@[k] == cleared.task_steps@[k]);
                        assert(pre.entry_name(k) != pre.entry_name(f as int));
                    }
                }
            },
            None => {
                let mut flags = all_false(self.num_steps);
                flags.set(step, enabled);
                self.task_steps.push((key, flags));
                assert(!old(self).has_entry(task_name@)) by {
                    if old(self).has_entry(task_name@) {
                        let i = choose|i: int|
                            0 <= i < pre.task_steps@.len() && #[trigger] pre.entry_name(i)
                                == task_name@;
                        assert(cleared.entry_name(i) == pre.entry_name(i));
                    }
                }
                assert forall|k: int| 0 <= k < len implies #[trigger] self.entry_name(k) == pre.entry_name(k) && self.entry_steps(k) == if pre.entry_name(k) == task_name@ {
                    pre.entry_steps(k).update(step as int, enabled)
                } else if enabled {
                    pre.entry_steps(k).update(step as int, false)
                } else {
                    pre.entry_steps(k)
                } by {
                    assert(self.task_steps@[k] == cleared.task_steps@[k]);
                    assert(cleared.entry_name(k) == pre.entry_name(k));
                    assert(cleared.entry_name(k) != task_name@);
                }
            },
        }
        proof {
            lemma_set_step(pre, *self, task_name@, step as int, enabled);
        }
    }

    /// Whether the task `task_name` is bound to `step`.
    pub fn is_task_enabled_for_step(&self, task_name: &str, step: usize) -> (r: bool)
        requires
            self.wf(),
        ensures
            r == self.enabled(task_name@, step as int),
    {
        let key = task_name.to_owned();
        let mut j: usize = 0;
        while j < self.task_steps.len()
            invariant
                self.wf(),
                key@ == task_name@,
                j <= self.task_steps@.len(),
                forall|k: int| 0 <= k < j ==> #[trigger] self.entry_name(k) != task_name@,
            decreases self.task_steps@.len() - j,
        {
            if self.task_steps[j].0 == key {
                assert(self.entry_name(j as int) == task_name@);
                let steps = &self.task_steps[j].1;
                let r = step < steps.len() && steps[step];
                proof {
                    if self.enabled(task_name@, step as int) {
                        let i = choose|i: int|
                            0 <= i < self.task_steps@.len() && #[trigger] self.entry_name(i)
                                == task_name@ && 0 <= step < self.entry_steps(i).len()
                                && self.entry_steps(i)[step as int];
                        assert(i == j);
                    }
                }
                return r;
            }
            j += 1;
        }
        false
    }

    /// The names of the tasks bound to `step`, in entry order.
    pub fn get_tasks_for_step(&self, step: usize) -> (r: Vec<String>)
        ensures
            r@.map_values(|s: String| s@) == self.tasks_for_step(step as int),
    {
        let mut out: Vec<String> = Vec::new();
        let mut j: usize = 0;
        while j < self.task_steps.len()
            invariant
                j <= self.task_steps@.len(),
                out@.map_values(|s: String| s@) == tasks_in(self.task_steps@.take(j as int), step as int),
            decreases self.task_steps@.len() - j,
        {
            let ghost before = out@;
            assert(self.task_steps@.take(j + 1).drop_last() =~= self.task_steps@.take(j as int));
            let steps = &self.task_steps[j].1;
            if step < steps.len() && steps[step] {
                out.push(self.task_steps[j].0.clone());
                assert(out@.map_values(|s: String| s@) =~= before.map_values(|s: String| s@).push(
                    self.task_steps@[j as int].0@,
                ));
            }
            j += 1;
        }
        assert(self.task_steps@.take(self.task_steps@.len() as int) =~= self.task_steps@);
        out
    }

    /// Unbinds every task from every step and resets the run.
    pub fn clear_all(&mut self)
        requires
            old(self).wf(),
        ensures
            final(self).wf(),
            final(self).idle(),
            final(self).num_steps == old(self).num_steps,
            final(self).task_steps@.len() == old(self).task_steps@.len(),
            forall|k: int|
                0 <= k < old(self).task_steps@.len() ==> #[trigger] final(self).entry_name(k)
                    == old(self).entry_name(k) && final(self).entry_steps(k) == no_steps(
                    old(self).num_steps as nat,
                ),
    {
        let ghost pre = *self;
        let len = self.task_steps.len();
        let mut i: usize = 0;
        while i < len
            invariant
                pre.wf(),
                len == pre.task_steps@.len(),
                self.task_steps@.len() == len,
                self.num_steps == pre.num_steps,
                self.current_step == pre.current_step,
                self.completed_steps@ == pre.completed_steps@,
                i <= len,
                forall|k: int|
                    #![trigger self.task_steps@[k]]
                    0 <= k < len ==> self.entry_name(k) == pre.entry_name(k),
                forall|k: int|
                    #![trigger self.task_steps@[k]]
                    0 <= k < i ==> self.entry_steps(k) == no_steps(pre.num_steps as nat),
                forall|k: int|
                    #![trigger self.task_steps@[k]]
                    i <= k < len ==> self.entry_steps(k) == pre.entry_steps(k),
            decreases len - i,
        {
            assert(self.entry_steps(i as int) == pre.entry_steps(i as int));
            let flags = all_false(self.num_steps);
            replace_flags(&mut self.task_steps, i, flags);
            i += 1;
        }
        self.reset_execution();
    }

    /// Drops the task `task_name` from every step.
    pub fn remove_task(&mut self, task_name: &str)
        requires
            old(self).wf(),
        ensures
            final(self).wf(),
            final(self).num_steps == old(self).num_steps,
            final(self).current_step == old(self).current_step,
            final(self).is_running == old(self).is_running,
            final(self).completed_steps@ == old(self).completed_steps@,
            !final(self).has_entry(task_name@),
            forall|n: Seq<char>| n != task_name@ ==> (#[trigger] final(self).has_entry(n) == old(self).has_entry(n)),
            forall|n: Seq<char>, s: int|
                #[trigger] final(self).enabled(n, s) == (n != task_name@ && old(self).enabled(n, s)),
    {
        let ghost pre = *self;
        let key = task_name.to_owned();
        let len = self.task_steps.len();
        let mut j: usize = 0;
        while j < len
            invariant
                len == self.task_steps@.len(),
                j <= len,
                key@ == task_name@,
                *self == pre,
                pre == *old(self),
                pre.wf(),
                forall|k: int| 0 <= k < j ==> #[trigger] pre.entry_name(k) != task_name@,
            decreases len - j,
        {
            if self.task_steps[j].0 == key {
                assert(self.entry_name(j as int) == task_name@);
                let _ = self.task_steps.remove(j);
                proof {
                    lemma_remove_entry(pre, *self, j as int, task_name@);
                }
                return ;
            }
            j += 1;
        }
        assert forall|n: Seq<char>, s: int|
            #[trigger] self.enabled(n, s) == (n != task_name@ && pre.enabled(n, s)) by {
            if self.enabled(n, s) {
                let i = choose|i: int|
                    0 <= i < self.task_steps@.len() && #[trigger] self.entry_name(i) == n
                        && 0 <= s < self.entry_steps(i).len() && self.entry_steps(i)[s];
                assert(self.entry_name(i) != task_name@);
            }
        }
    }

    /// The command line that runs the bound task of each step in step
    /// order, joined by ` && `; `None` when no step has a task.
    pub fn generate_mise_task_command(&self) -> (r: Option<String>)
        ensures
            match r {
                None => self.sequence_command() is None,
                Some(c) => self.sequence_command() == Some(c@),
            },
    {
        let mut commands: Vec<String> = Vec::new();
        let mut step: usize = 0;
        while step < self.num_steps
            invariant
                step <= self.num_steps,
                commands@.map_values(|c: String| c@) == self.commands_upto(step as int),
            decreases self.num_steps - step,
        {
            let tasks = self.get_tasks_for_step(step);
            let ghost before = commands@;
            if tasks.len() > 0 {
                let mut cmd = String::from_str("mise run ");
                cmd.append(tasks[0].as_str());
                assert(tasks@.map_values(|s: String| s@)[0] == tasks@[0]@);
                commands.push(cmd);
                assert(commands@.map_values(|c: String| c@) =~= before.map_values(|c: String| c@).push(cmd@));
            }
            step += 1;
        }
        if commands.len() == 0 {
            None
        } else {
            Some(join_with(&commands, " && "))
        }
    }

    /// Returns to idle: no current step, not running, no step completed.
    pub fn reset_execution(&mut self)
        requires
            old(self).completed_steps@.len() == old(self).num_steps,
        ensures
            final(self).idle(),
            final(self).task_steps == old(self).task_steps,
            final(self).num_steps == old(self).num_steps,
    {
        self.current_step = None;
        self.is_running = false;
        self.completed_steps = all_false(self.num_steps);
    }

    /// Ends a run that went through every step: no current step, not
    /// running, the completion flags kept as the record of the run.
    pub fn finish_execution(&mut self)
        requires
            old(self).wf(),
        ensures
            final(self).wf(),
            *final(self) == (SequenceState { current_step: None, is_running: false, ..*old(self) }),
    {
        self.current_step = None;
        self.is_running = false;
    }

    /// Starts a run at step 0 with no step completed.
    pub fn start_execution(&mut self)
        requires
            old(self).wf(),
            old(self).num_steps > 0,
        ensures
            final(self).wf(),
            final(self).current_step == Some(0usize),
            final(self).is_running,
            final(self).completed_steps@ == no_steps(old(self).num_steps as nat),
            final(self).task_steps == old(self).task_steps,
            final(self).num_steps == old(self).num_steps,
    {
        self.current_step = Some(0);
        self.is_running = true;
        self.completed_steps = all_false(self.num_steps);
    }

    /// Marks the current step completed and moves to the next one. Returns
    /// whether a next step exists; after the last step the run ends.
    pub fn advance_step(&mut self) -> (more: bool)
        requires
            old(self).wf(),
        ensures
            final(self).wf(),
            final(self).task_steps == old(self).task_steps,
            final(self).num_steps == old(self).num_steps,
            match old(self).current_step {
                None => !more && *final(self) == *old(self),
                Some(c) => {
                    &&& final(self).completed_steps@ == old(self).completed_steps@.update(c as int, true)
                    &&& more == (c + 1 < old(self).num_steps)
                    &&& more ==> final(self).current_step == Some((c + 1) as usize) && final(self).is_running == old(self).is_running
                    &&& !more ==> final(self).current_step is None && !final(self).is_running
                },
            },
    {
        match self.current_step {
            Some(current) => {
                self.completed_steps.set(current, true);
                if current + 1 < self.num_steps {
                    self.current_step = Some(current + 1);
                    true
                } else {
                    self.current_step = None;
                    self.is_running = false;
                    false
                }
            },
            None => false,
        }
    }
}

/// The entries of `post` are those of `pre` after binding (`enabled`) or
/// unbinding `name` for `step`.
pub open spec fn set_step_relation(
    pre: SequenceState,
    post: SequenceState,
    name: Seq<char>,
    step: int,
    enabled: bool,
) -> bool {
    &&& post.num_steps == pre.num_steps
    &&& post.completed_steps@ == pre.completed_steps@
    &&& post.current_step == pre.current_step
    &&& post.task_steps@.len() == pre.task_steps@.len() + (if pre.has_entry(name) {
        0int
    } else {
        1int
    })
    &&& forall|k: int|
        0 <= k < pre.task_steps@.len() ==> {
            &&& #[trigger] post.entry_name(k) == pre.entry_name(k)
            &&& post.entry_steps(k) == if pre.entry_name(k) == name {
                pre.entry_steps(k).update(step, enabled)
            } else if enabled {
                pre.entry_steps(k).update(step, false)
            } else {
                pre.entry_steps(k)
            }
        }
    &&& !pre.has_entry(name) ==> {
        let k = pre.task_steps@.len() as int;
        &&& post.entry_name(k) == name
        &&& post.entry_steps(k) == no_steps(pre.num_steps as nat).update(step, enabled)
    }
}

proof fn lemma_set_step(
    pre: SequenceState,
    post: SequenceState,
    name: Seq<char>,
    step: int,
    enabled: bool,
)
    requires
        pre.wf(),
        0 <= step < pre.num_steps,
        set_step_relation(pre, post, name, step, enabled),
    ensures
        post.wf(),
        forall|n: Seq<char>, s: int|
            0 <= s < pre.num_steps ==> #[trigger] post.enabled(n, s) == if s == step {
                if enabled {
                    n == name
                } else {
                    n != name && pre.enabled(n, s)
                }
            } else {
                pre.enabled(n, s)
            },
{
    let len = pre.task_steps@.len() as int;
    let plen = post.task_steps@.len() as int;
    let pe = pre.task_steps@;
    let qe = post.task_steps@;
    assert forall|k: int| 0 <= k < plen implies (#[trigger] qe[k]).1@.len() == post.num_steps by {
        if k < len {
            assert(post.entry_name(k) == pre.entry_name(k));
            assert(pe[k].1@.len() == pre.num_steps);
        }
    }
    assert forall|a: int, b: int|
        0 <= a < plen && 0 <= b < plen && a != b implies (#[trigger] qe[a]).0@
        != (#[trigger] qe[b]).0@ by {
        if a < len && b < len {
            assert(post.entry_name(a) == pre.entry_name(a));
            assert(post.entry_name(b) == pre.entry_name(b));
            assert(pe[a].0@ != pe[b].0@);
        } else if a < len {
            assert(post.entry_name(a) == pre.entry_name(a));
            assert(pre.entry_name(a) != name);
        } else {
            assert(post.entry_name(b) == pre.entry_name(b));
            assert(pre.entry_name(b) != name);
        }
    }
    assert forall|a: int, b: int, s: int|
        0 <= a < plen && 0 <= b < plen && a != b && 0 <= s < post.num_steps && #[trigger] qe[a].1@[s]
            implies !#[trigger] qe[b].1@[s] by {
        if a < len {
            assert(post.entry_name(a) == pre.entry_name(a));
            assert(pe[a].1@.len() == pre.num_steps);
        }
        if b < len {
            assert(post.entry_name(b) == pre.entry_name(b));
            assert(pe[b].1@.len() == pre.num_steps);
        }
        if a < len && b < len {
            if s != step {
                assert(pe[a].1@[s]);
            } else if !enabled {
                assert(pe[a].1@[s]);
            } else {
                assert(pe[a].0@ != pe[b].0@);
            }
        }
    }
    assert forall|n: Seq<char>, s: int|
        0 <= s < pre.num_steps implies #[trigger] post.enabled(n, s) == if s == step {
            if enabled {
                n == name
            } else {
                n != name && pre.enabled(n, s)
            }
        } else {
            pre.enabled(n, s)
        } by {
        if post.enabled(n, s) {
            let i = choose|i: int|
                0 <= i < plen && #[trigger] post.entry_name(i) == n && 0 <= s
                    < post.entry_steps(i).len() && post.entry_steps(i)[s];
            if i < len {
                assert(pre.entry_name(i) == n);
            }
        }
        if (s != step || !enabled) && pre.enabled(n, s) {
            let i = choose|i: int|
                0 <= i < len && #[trigger] pre.entry_name(i) == n && 0 <= s
                    < pre.entry_steps(i).len() && pre.entry_steps(i)[s];
            assert(post.entry_name(i) == n);
        }
        if s == step && n == name && enabled {
            if pre.has_entry(name) {
                let i = choose|i: int| 0 <= i < len && #[trigger] pre.entry_name(i) == name;
                assert(post.entry_name(i) == n);
                assert(pre.entry_steps(i).len() == pre.num_steps);
            } else {
                assert(post.entry_name(len) == n);
            }
        }
    }
}

/// Binding task `a` and then task `b` to a step leaves only `b` bound to
/// it; unbinding `b` afterwards leaves the step without a task.
pub proof fn lemma_step_exclusive(
    s0: SequenceState,
    s1: SequenceState,
    s2: SequenceState,
    s3: SequenceState,
    a: Seq<char>,
    b: Seq<char>,
    step: int,
)
    requires
        s0.wf(),
        0 <= step < s0.num_steps,
        set_step_relation(s0, s1, a, step, true),
        set_step_relation(s1, s2, b, step, true),
        set_step_relation(s2, s3, b, step, false),
    ensures
        forall|n: Seq<char>| #[trigger] s2.enabled(n, step) <==> n == b,
        forall|n: Seq<char>| !#[trigger] s3.enabled(n, step),
{
    lemma_set_step(s0, s1, a, step, true);
    lemma_set_step(s1, s2, b, step, true);
    lemma_set_step(s2, s3, b, step, false);
    assert forall|n: Seq<char>| !#[trigger] s3.enabled(n, step) by {
        assert(s3.enabled(n, step) == (n != b && s2.enabled(n, step)));
    }
}

proof fn lemma_remove_entry(pre: SequenceState, post: SequenceState, j: int, name: Seq<char>)
    requires
        pre.wf(),
        0 <= j < pre.task_steps@.len(),
        pre.entry_name(j) == name,
        post.task_steps@ == pre.task_steps@.remove(j),
        post.num_steps == pre.num_steps,
        post.completed_steps@ == pre.completed_steps@,
        post.current_step == pre.current_step,
    ensures
        post.wf(),
        !post.has_entry(name),
        forall|n: Seq<char>| n != name ==> (#[trigger] post.has_entry(n) == pre.has_entry(n)),
        forall|n: Seq<char>, s: int|
            #[trigger] post.enabled(n, s) == (n != name && pre.enabled(n, s)),
{
    let pe = pre.task_steps@;
    let qe = post.task_steps@;
    assert(qe.len() == pe.len() - 1);
    assert forall|k: int| 0 <= k < qe.len() implies #[trigger] qe[k] == pe[if k < j { k } else { k + 1 }] by {}
    assert forall|k: int| 0 <= k < qe.len() implies (#[trigger] qe[k]).1@.len() == post.num_steps by {
        let k1 = if k < j { k } else { k + 1 };
        assert(qe[k] == pe[k1]);
    }
    assert forall|a: int, b: int|
        0 <= a < qe.len() && 0 <= b < qe.len() && a != b implies (#[trigger] qe[a]).0@
        != (#[trigger] qe[b]).0@ by {
        let a1 = if a < j { a } else { a + 1 };
        let b1 = if b < j { b } else { b + 1 };
        assert(qe[a] == pe[a1]);
        assert(qe[b] == pe[b1]);
    }
    assert forall|a: int, b: int, s: int|
        0 <= a < qe.len() && 0 <= b < qe.len() && a != b && 0 <= s < post.num_steps && #[trigger] qe[a].1@[s]
            implies !#[trigger] qe[b].1@[s] by {
        let a1 = if a < j { a } else { a + 1 };
        let b1 = if b < j { b } else { b + 1 };
        assert(qe[a] == pe[a1]);
        assert(qe[b] == pe[b1]);
    }
    assert forall|i: int| 0 <= i < qe.len() implies #[trigger] post.entry_name(i) != name by {
        let i1 = if i < j { i } else { i + 1 };
        assert(qe[i] == pe[i1]);
        assert(pe[i1].0@ != pe[j].0@);
    }
    assert forall|n: Seq<char>| n != name implies (#[trigger] post.has_entry(n) == pre.has_entry(n)) by {
        if pre.has_entry(n) {
            let i = choose|i: int| 0 <= i < pe.len() && #[trigger] pre.entry_name(i) == n;
            let i0 = if i < j { i } else { i - 1 };
            assert(qe[i0] == pe[i]);
            assert(post.entry_name(i0) == n);
        }
        if post.has_entry(n) {
            let i = choose|i: int| 0 <= i < qe.len() && #[trigger] post.entry_name(i) == n;
            let i1 = if i < j { i } else { i + 1 };
            assert(qe[i] == pe[i1]);
            assert(pre.entry_name(i1) == n);
        }
    }
    assert forall|n: Seq<char>, s: int|
        #[trigger] post.enabled(n, s) == (n != name && pre.enabled(n, s)) by {
        if pre.enabled(n, s) && n != name {
            let i = choose|i: int|
                0 <= i < pe.len() && #[trigger] pre.entry_name(i) == n && 0 <= s
                    < pre.entry_steps(i).len() && pre.entry_steps(i)[s];
            let i0 = if i < j { i } else { i - 1 };
            assert(qe[i0] == pe[i]);
            assert(post.entry_name(i0) == n);
        }
        if post.enabled(n, s) {
            let i = choose|i: int|
                0 <= i < qe.len() && #[trigger] post.entry_name(i) == n && 0 <= s
                    < post.entry_steps(i).len() && post.entry_steps(i)[s];
            let i1 = if i < j { i } else { i + 1 };
            assert(qe[i] == pe[i1]);
            assert(pre.entry_name(i1) == n);
        }
    }
}

/// Sets flag `step` of entry `i`.
fn set_flag(entries: &mut Vec<(String, Vec<bool>)>, i: usize, step: usize, v: bool)
    requires
        i < old(entries)@.len(),
        step < old(entries)@[i as int].1@.len(),
    ensures
        final(entries)@.len() == old(entries)@.len(),
        forall|k: int|
            0 <= k < old(entries)@.len() && k != i ==> #[trigger] final(entries)@[k] == old(
                entries,
            )@[k],
        final(entries)@[i as int].0 == old(entries)@[i as int].0,
        final(entries)@[i as int].1@ == old(entries)@[i as int].1@.update(step as int, v),
{
    entries[i].1.set(step, v);
}

/// Replaces the flags of entry `i`.
fn replace_flags(entries: &mut Vec<(String, Vec<bool>)>, i: usize, flags: Vec<bool>)
    requires
        i < old(entries)@.len(),
    ensures
        final(entries)@.len() == old(entries)@.len(),
        forall|k: int|
            0 <= k < old(entries)@.len() && k != i ==> #[trigger] final(entries)@[k] == old(
                entries,
            )@[k],
        final(entries)@[i as int].0 == old(entries)@[i as int].0,
        final(entries)@[i as int].1 == flags,
{
    entries[i].1 = flags;
}

/// A vector of `n` flags, all `false`.
fn all_false(n: usize) -> (r: Vec<bool>)
    ensures
        r@ == no_steps(n as nat),
{
    let mut v: Vec<bool> = Vec::new();
    let mut i: usize = 0;
    while i < n
        invariant
            i <= n,
            v@ == no_steps(i as nat),
        decreases n - i,
    {
        v.push(false);
        i += 1;
        assert(v@ =~= no_steps(i as nat));
    }
    v
}

} // verus!
