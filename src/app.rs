//! The console's state and events, with the task-list viewport and the
//! output pane.

use std::collections::VecDeque;
use vstd::prelude::*;

use crate::button_layout::{ButtonHoverState, Rect};
use crate::client::MiseClient;
use crate::layout::TableLayout;
use crate::sequence::{SequenceEvent, SequenceState};
use crate::task::{MiseTask, MiseTaskInfo};
use crate::viewport::{
    ensure_visible, lemma_selection_wraparound, max_scroll, next_index, next_selection, next_times,
    prev_index, previous_selection, scroll_down_offset, scroll_up_offset, scrolled_down,
    scrolled_up, visible_offset,
};

verus! {

/// The screen the console shows.
#[derive(Debug, PartialEq, Eq)]
pub enum AppState {
    Detail(String),
    Running(String),
    SequenceBuilder,
    Renaming(String),
}

#[derive(Clone, Copy, Debug, PartialEq, Eq, Structural)]
pub enum ScrollDirection {
    Up,
    Down,
}

#[derive(Clone, Copy, Debug, PartialEq, Eq, Structural)]
pub enum MouseButton {
    Left,
    Right,
    Middle,
}

/// The keys the console reacts to.
#[derive(Clone, Copy, Debug, PartialEq, Eq, Structural)]
pub enum KeyCode {
    Char(char),
    Up,
    Down,
    PageUp,
    PageDown,
    Enter,
    Esc,
    Tab,
    Backspace,
    Delete,
    Left,
    Right,
    Home,
    End,
    Other,
}

/// A key press with the modifiers the console distinguishes.
#[derive(Clone, Copy, Debug, PartialEq, Eq, Structural)]
pub struct KeyInput {
    pub code: KeyCode,
    pub shift: bool,
    pub control: bool,
}

/// One event of the single ordered event stream.
pub enum AppEvent {
    Quit,
    KeyPress(KeyInput),
    MouseClick { button: MouseButton, row: u16, col: u16 },
    MouseScroll { direction: ScrollDirection, row: u16, col: u16 },
    MouseMove { row: u16, col: u16 },
    TasksRefreshed(Vec<MiseTask>),
    TaskOutput(String),
    TaskCompleted,
    TaskCancelled,
    Tick,
    Sequence(SequenceEvent),
    DeleteTask(String),
    /// The task runner finished deleting a task; `error` when it failed.
    TaskDeleted { task_name: String, error: Option<String> },
    /// The task runner finished a rename; `Ok` holds the name it stored.
    TaskRenamed { original: String, requested: String, outcome: Result<String, String> },
    /// The extended record of a task, or why it could not be had.
    TaskInfoLoaded { task_name: String, info: Result<MiseTaskInfo, String> },
    /// The sequence was stored as a new task; `error` when that failed.
    SequenceTaskAdded { task_name: String, command: String, error: Option<String> },
    /// The rename input now holds this text.
    RenameInputChanged(String),
}

/// Work that the event loop performs for the state machine. Results come
/// back as events.
pub enum Effect {
    /// List the tasks again; answered by `TasksRefreshed`.
    RefreshTasks,
    /// Run one task, streaming its output; answered by `TaskOutput` lines and
    /// `TaskCompleted`.
    RunTask(String),
    /// Run the tasks of the current sequence step in order; answered by
    /// `TaskOutput` lines and `Sequence(StepCompleted)` or
    /// `Sequence(SequenceFailed(..))`.
    RunStep(Vec<String>),
    /// Tear down the in-flight run at once.
    AbortRun,
    /// Queue this event behind the current one.
    Post(AppEvent),
    /// Delete a task; answered by `TaskDeleted`.
    DeleteTask(String),
    /// Rename a task; answered by `TaskRenamed`.
    RenameTask { old_name: String, new_name: String },
    /// Open the task's definition in an editor.
    EditTask(String),
    /// Fetch the extended record of a task; answered by `TaskInfoLoaded`.
    ShowTaskInfo(String),
    /// Store a new task that runs `command`; answered by `SequenceTaskAdded`.
    AddSequenceTask(String),
    /// Hand the key to the rename input; answered by `RenameInputChanged`.
    EditRenameInput(KeyInput),
}

/// Number of steps of the sequence.
pub const NUM_STEPS: usize = 3;

/// Lines of task output that are kept.
pub const OUTPUT_CAPACITY: usize = 100;

/// Rows scrolled by the mouse wheel.
pub const WHEEL_SCROLL_LINES: usize = 3;

/// Window height assumed for wheel scrolling before the first render.
pub const DEFAULT_SCROLL_AMT: usize = 10;

/// The last `n` items of `s`.
pub open spec fn keep_last<T>(s: Seq<T>, n: nat) -> Seq<T> {
    if s.len() > n {
        s.subrange(s.len() - n, s.len() as int)
    } else {
        s
    }
}

/// Appending to a buffer that keeps the newest `n` items, one item at a
/// time, keeps the newest `n` items of everything appended, in the order
/// they came.
pub proof fn lemma_bounded_append<T>(history: Seq<T>, x: T, n: nat)
    requires
        n > 0,
    ensures
        keep_last(keep_last(history, n).push(x), n) == keep_last(history.push(x), n),
{
    let lhs = keep_last(keep_last(history, n).push(x), n);
    let rhs = keep_last(history.push(x), n);
    assert(lhs =~= rhs);
}

/// `post` is `pre` after one output line: only the newest `OUTPUT_CAPACITY`
/// lines are kept, the offset moves up with each evicted line, and in follow
/// mode, while a visible pane shows a running task, the offset is pinned to
/// the bottom.
pub open spec fn output_pushed(pre: App, post: App, line: String) -> bool {
    let evicted = pre.task_output@.len() + 1 - post.task_output@.len();
    let shifted = if pre.output_scroll_offset > evicted {
        pre.output_scroll_offset - evicted
    } else {
        0
    };
    let follow = pre.show_output_pane && pre.task_running && pre.output_follow_mode
        && pre.current_output_visible_height > 0;
    &&& post.task_output@ == keep_last(pre.task_output@.push(line), OUTPUT_CAPACITY as nat)
    &&& post == (App {
        task_output: post.task_output,
        output_scroll_offset: if follow {
            post.output_bottom() as usize
        } else {
            shifted as usize
        },
        ..pre
    })
}

/// The console's state: the task list and its viewport, the output pane,
/// the sequence, the run handle and the transient gates.
pub struct App {
    pub client: MiseClient,
    pub tasks: Vec<MiseTask>,
    pub selected_task: usize,
    pub scroll_offset: usize,
    pub state: AppState,
    pub task_info: Option<MiseTaskInfo>,
    pub task_output: VecDeque<String>,
    pub should_quit: bool,
    pub sequence_state: SequenceState,
    pub table_layout: Option<TableLayout>,
    pub show_output_pane: bool,
    pub task_running: bool,
    pub running_task_name: Option<String>,
    /// An execution handle is tracked (the event loop holds it).
    pub has_running_handle: bool,
    pub button_hover_state: Option<ButtonHoverState>,
    pub current_visible_height: usize,
    pub output_scroll_offset: usize,
    pub current_output_visible_height: usize,
    pub output_follow_mode: bool,
    pub pending_delete_task: Option<String>,
    pub delete_dialog_area: Option<Rect>,
    pub rename_input: Option<String>,
    pub original_task_name: Option<String>,
}

impl App {
    pub open spec fn wf(self) -> bool {
        self.sequence_state.wf() && self.sequence_state.num_steps == NUM_STEPS
    }

    pub fn new() -> (r: Self)
        ensures
            r.wf(),
            r.tasks@.len() == 0,
            r.selected_task == 0,
            r.scroll_offset == 0,
            r.state == AppState::SequenceBuilder,
            r.task_info is None,
            r.task_output@.len() == 0,
            !r.should_quit,
            r.sequence_state.task_steps@.len() == 0,
            r.sequence_state.idle(),
            r.table_layout is None,
            !r.show_output_pane,
            !r.task_running,
            r.running_task_name is None,
            !r.has_running_handle,
            r.button_hover_state is None,
            r.current_visible_height == 0,
            r.output_scroll_offset == 0,
            r.current_output_visible_height == 0,
            r.output_follow_mode,
            r.pending_delete_task is None,
            r.delete_dialog_area is None,
            r.rename_input is None,
            r.original_task_name is None,
    {
        App {
            client: MiseClient::new(),
            tasks: Vec::new(),
            selected_task: 0,
            scroll_offset: 0,
            state: AppState::SequenceBuilder,
            task_info: None,
            task_output: VecDeque::new(),
            should_quit: false,
            sequence_state: SequenceState::new(NUM_STEPS),
            table_layout: None,
            show_output_pane: false,
            task_running: false,
            running_task_name: None,
            has_running_handle: false,
            button_hover_state: None,
            current_visible_height: 0,
            output_scroll_offset: 0,
            current_output_visible_height: 0,
            output_follow_mode: true,
            pending_delete_task: None,
            delete_dialog_area: None,
            rename_input: None,
            original_task_name: None,
        }
    }

    pub fn should_quit(&self) -> (r: bool)
        ensures
            r == self.should_quit,
    {
        self.should_quit
    }

    /// Moves the selection one row down, wrapping to the first row.
    pub fn select_next(&mut self)
        ensures
            final(self).selected_task as int == next_index(old(self).selected_task as int, old(self).tasks@.len() as int),
            selected_next(*old(self), *final(self)),
    {
        self.selected_task = next_selection(self.selected_task, self.tasks.len());
    }

    /// Moves the selection one row up, wrapping to the last row.
    pub fn select_previous(&mut self)
        ensures
            final(self).selected_task as int == prev_index(old(self).selected_task as int, old(self).tasks@.len() as int),
            *final(self) == (App {
                selected_task: prev_index(old(self).selected_task as int, old(self).tasks@.len() as int) as usize,
                ..*old(self)
            }),
    {
        self.selected_task = previous_selection(self.selected_task, self.tasks.len());
    }

    /// Scrolls the task list so that the selected row is visible in a
    /// window of `visible_height` rows.
    pub fn ensure_selected_task_visible(&mut self, visible_height: usize)
        ensures
            old(self).tasks@.len() == 0 || visible_height == 0 ==> *final(self) == *old(self),
            old(self).tasks@.len() > 0 && visible_height > 0 ==> *final(self) == (App {
                scroll_offset: visible_offset(
                    old(self).selected_task as int,
                    old(self).scroll_offset as int,
                    visible_height as int,
                ) as usize,
                ..*old(self)
            }),
            old(self).tasks@.len() > 0 && visible_height > 0 ==> final(self).scroll_offset
                <= final(self).selected_task < final(self).scroll_offset + visible_height,
    {
        if self.tasks.len() == 0 || visible_height == 0 {
            return ;
        }
        self.scroll_offset = ensure_visible(self.selected_task, self.scroll_offset, visible_height);
    }

    /// Scrolls the task list up by `lines` rows, leaving the selection.
    pub fn scroll_up(&mut self, lines: usize)
        ensures
            final(self).scroll_offset as int == scrolled_up(old(self).scroll_offset as int, lines as int),
            *final(self) == (App {
                scroll_offset: scrolled_up(old(self).scroll_offset as int, lines as int) as usize,
                ..*old(self)
            }),
    {
        self.scroll_offset = scroll_up_offset(self.scroll_offset, lines);
    }

    /// Scrolls the task list down by `lines` rows, no further than the
    /// last full window of `visible_height` rows.
    pub fn scroll_down(&mut self, lines: usize, visible_height: usize)
        ensures
            old(self).tasks@.len() > 0 ==> final(self).scroll_offset as int == scrolled_down(
                old(self).scroll_offset as int,
                lines as int,
                old(self).tasks@.len() as int,
                visible_height as int,
            ),
            old(self).tasks@.len() == 0 ==> *final(self) == *old(self),
            old(self).tasks@.len() > 0 ==> *final(self) == (App {
                scroll_offset: scrolled_down(
                    old(self).scroll_offset as int,
                    lines as int,
                    old(self).tasks@.len() as int,
                    visible_height as int,
                ) as usize,
                ..*old(self)
            }),
    {
        if self.tasks.len() == 0 {
            return ;
        }
        self.scroll_offset = scroll_down_offset(self.scroll_offset, lines, self.tasks.len(), visible_height);
    }

    /// The tasks in the window of `visible_height` rows from the scroll
    /// offset, and the selected row's place in that window (0 when the
    /// selection is outside it).
    pub fn get_visible_tasks(&self, visible_height: usize) -> (r: (Vec<&MiseTask>, usize))
        ensures
            ({
                let start = self.scroll_offset as int;
                let end = if start + visible_height < self.tasks@.len() {
                    start + visible_height
                } else {
                    self.tasks@.len() as int
                };
                &&& r.0@.len() == if end > start { end - start } else { 0 }
                &&& forall|i: int| 0 <= i < r.0@.len() ==> *#[trigger] r.0@[i] == self.tasks@[start + i]
                &&& r.1 == if start <= self.selected_task < start + visible_height {
                    self.selected_task - start
                } else {
                    0
                }
            }),
    {
        let mut visible: Vec<&MiseTask> = Vec::new();
        let len = self.tasks.len();
        let start = self.scroll_offset;
        let end: usize = if start < len && visible_height < len - start {
            start + visible_height
        } else {
            len
        };
        let mut i: usize = start;
        while i < end
            invariant
                start <= i <= end || (end <= start && i == start),
                end <= len,
                len == self.tasks@.len(),
                visible@.len() == i - start,
                forall|k: int| 0 <= k < visible@.len() ==> *#[trigger] visible@[k] == self.tasks@[start + k],
            decreases end - i,
        {
            visible.push(&self.tasks[i]);
            i += 1;
        }
        let selected = self.selected_task;
        let in_window = selected >= start && selected - start < visible_height;
        (visible, if in_window { selected - start } else { 0 })
    }

    /// Leaves a detail or running view for the sequence builder, dropping
    /// the output, the run handle, the hover state and the viewports.
    pub fn back_to_list(&mut self)
        ensures
            *final(self) == (App {
                state: AppState::SequenceBuilder,
                task_info: None,
                task_output: final(self).task_output,
                show_output_pane: false,
                task_running: false,
                running_task_name: None,
                has_running_handle: false,
                button_hover_state: None,
                current_visible_height: 0,
                output_scroll_offset: 0,
                current_output_visible_height: 0,
                output_follow_mode: true,
                rename_input: None,
                original_task_name: None,
                ..*old(self)
            }),
            final(self).task_output@.len() == 0,
    {
        self.state = AppState::SequenceBuilder;
        self.task_info = None;
        self.task_output.clear();
        self.show_output_pane = false;
        self.task_running = false;
        self.running_task_name = None;
        self.has_running_handle = false;
        self.button_hover_state = None;
        self.current_visible_height = 0;
        self.output_scroll_offset = 0;
        self.current_output_visible_height = 0;
        self.output_follow_mode = true;
        self.rename_input = None;
        self.original_task_name = None;
    }

    /// The largest offset of the output pane for its current height.
    pub open spec fn output_bottom(self) -> int {
        if self.current_output_visible_height > 0 {
            max_scroll(self.task_output@.len() as int, self.current_output_visible_height as int)
        } else {
            0
        }
    }

    pub fn scroll_output_up(&mut self, lines: usize)
        ensures
            *final(self) == (App {
                output_scroll_offset: scrolled_up(old(self).output_scroll_offset as int, lines as int) as usize,
                ..*old(self)
            }),
    {
        self.output_scroll_offset = scroll_up_offset(self.output_scroll_offset, lines);
    }

    /// Scrolls the output down by `lines`, no further than the bottom; an
    /// output that fits its pane does not scroll.
    pub fn scroll_output_down(&mut self, lines: usize)
        ensures
            ({
                let h = old(self).current_output_visible_height as int;
                let n = old(self).task_output@.len() as int;
                if n <= h || h == 0 {
                    *final(self) == *old(self)
                } else {
                    *final(self) == (App {
                        output_scroll_offset: scrolled_down(old(self).output_scroll_offset as int, lines as int, n, h) as usize,
                        ..*old(self)
                    })
                }
            }),
    {
        let visible_height = self.current_output_visible_height;
        if self.task_output.len() <= visible_height || visible_height == 0 {
            return ;
        }
        self.output_scroll_offset = scroll_down_offset(
            self.output_scroll_offset,
            lines,
            self.task_output.len(),
            visible_height,
        );
    }

    /// Half the output pane's height, at least one line.
    pub open spec fn half_page(self) -> int {
        if self.current_output_visible_height / 2 > 1 {
            (self.current_output_visible_height / 2) as int
        } else {
            1
        }
    }

    pub fn scroll_output_half_page_up(&mut self)
        ensures
            *final(self) == (App {
                output_scroll_offset: scrolled_up(old(self).output_scroll_offset as int, old(self).half_page()) as usize,
                ..*old(self)
            }),
    {
        let half = self.current_output_visible_height / 2;
        self.scroll_output_up(if half > 1 { half } else { 1 });
    }

    pub fn scroll_output_half_page_down(&mut self)
        ensures
            ({
                let h = old(self).current_output_visible_height as int;
                let n = old(self).task_output@.len() as int;
                if n <= h || h == 0 {
                    *final(self) == *old(self)
                } else {
                    *final(self) == (App {
                        output_scroll_offset: scrolled_down(old(self).output_scroll_offset as int, old(self).half_page(), n, h) as usize,
                        ..*old(self)
                    })
                }
            }),
    {
        let half = self.current_output_visible_height / 2;
        self.scroll_output_down(if half > 1 { half } else { 1 });
    }

    /// Pins the output pane to its newest lines.
    pub fn auto_scroll_output_to_bottom(&mut self)
        ensures
            *final(self) == (App { output_scroll_offset: old(self).output_bottom() as usize, ..*old(self) }),
    {
        let visible_height = self.current_output_visible_height;
        if self.task_output.len() > visible_height && visible_height > 0 {
            self.output_scroll_offset = self.task_output.len() - visible_height;
        } else {
            self.output_scroll_offset = 0;
        }
    }

    pub fn scroll_output_to_top(&mut self)
        ensures
            *final(self) == (App { output_scroll_offset: 0, ..*old(self) }),
    {
        self.output_scroll_offset = 0;
    }

    pub fn scroll_output_to_bottom(&mut self)
        ensures
            *final(self) == (App { output_scroll_offset: old(self).output_bottom() as usize, ..*old(self) }),
    {
        self.auto_scroll_output_to_bottom();
    }

    /// Turns follow mode on or off; turning it on jumps to the bottom, turning
    /// it off freezes the offset.
    pub fn toggle_output_follow_mode(&mut self)
        ensures
            final(self).output_follow_mode == !old(self).output_follow_mode,
            *final(self) == (App {
                output_follow_mode: !old(self).output_follow_mode,
                output_scroll_offset: if old(self).output_follow_mode {
                    old(self).output_scroll_offset
                } else {
                    old(self).output_bottom() as usize
                },
                ..*old(self)
            }),
    {
        self.output_follow_mode = !self.output_follow_mode;
        if self.output_follow_mode {
            self.auto_scroll_output_to_bottom();
        }
    }

    /// Appends one line of task output. Only the newest `OUTPUT_CAPACITY`
    /// lines are kept; the offset moves up with each evicted line, and in
    /// follow mode, while a visible pane shows a running task, it is pinned
    /// to the bottom.
    pub fn push_output(&mut self, line: String)
        ensures
            output_pushed(*old(self), *final(self), line),
    {
        let ghost pushed = self.task_output@.push(line);
        let ghost start_offset = self.output_scroll_offset;
        self.task_output.push_back(line);
        let ghost mut evicted: int = 0;
        let ghost before = *self;
        while self.task_output.len() > OUTPUT_CAPACITY
            invariant
                pushed.len() >= self.task_output@.len(),
                evicted == pushed.len() - self.task_output@.len(),
                self.task_output@ == pushed.subrange(evicted, pushed.len() as int),
                evicted > 0 ==> self.task_output@.len() >= OUTPUT_CAPACITY,
                *self == (App { task_output: self.task_output, output_scroll_offset: self.output_scroll_offset, ..before }),
                self.output_scroll_offset == if start_offset > evicted {
                    start_offset - evicted
                } else {
                    0
                },
            decreases self.task_output@.len(),
        {
            let _ = self.task_output.pop_front();
            if self.output_scroll_offset > 0 {
                self.output_scroll_offset = self.output_scroll_offset - 1;
            }
            proof {
                evicted = evicted + 1;
            }
        }
        assert(self.task_output@ =~= keep_last(pushed, OUTPUT_CAPACITY as nat));
        if self.show_output_pane && self.task_running && self.output_follow_mode
            && self.current_output_visible_height > 0 {
            self.auto_scroll_output_to_bottom();
        }
    }

    /// Leaves rename mode without renaming.
    pub fn cancel_rename(&mut self)
        ensures
            *final(self) == (App {
                state: AppState::SequenceBuilder,
                rename_input: None,
                original_task_name: None,
                ..*old(self)
            }),
    {
        self.state = AppState::SequenceBuilder;
        self.rename_input = None;
        self.original_task_name = None;
    }

    /// Whether the single-task run in flight is the task `task_name`.
    pub fn is_task_running(&self, task_name: &str) -> (r: bool)
        ensures
            r == (self.running_task_name matches Some(n) && n@ == task_name@),
    {
        match &self.running_task_name {
            Some(name) => {
                let key = task_name.to_owned();
                *name == key
            },
            None => false,
        }
    }

    /// Whether a single task or a sequence is running.
    pub fn is_any_task_running(&self) -> (r: bool)
        ensures
            r == (self.task_running || self.sequence_state.is_running),
    {
        self.task_running || self.sequence_state.is_running
    }
}

/// `post` is `pre` after one `select_next`.
pub open spec fn selected_next(pre: App, post: App) -> bool {
    post == (App {
        selected_task: next_index(pre.selected_task as int, pre.tasks@.len() as int) as usize,
        ..pre
    })
}

/// `states` are successive states, each after one `select_next` on the one
/// before it.
pub open spec fn select_next_chain(states: Seq<App>) -> bool {
    forall|i: int| 1 <= i < states.len() ==> #[trigger] selected_next(states[i - 1], states[i])
}

proof fn lemma_select_next_prefix(states: Seq<App>, k: int)
    requires
        states.len() > 0,
        select_next_chain(states),
        states[0].selected_task < states[0].tasks@.len(),
        0 <= k < states.len(),
    ensures
        states[k].tasks == states[0].tasks,
        states[k].selected_task as int == next_times(
            states[0].selected_task as int,
            states[0].tasks@.len() as int,
            k as nat,
        ),
    decreases k,
{
    if k > 0 {
        lemma_select_next_prefix(states, k - 1);
        let prev = states[k - 1];
        assert(selected_next(prev, states[k]));
        assert(prev.tasks.len() == prev.tasks@.len());
        assert(states[0].tasks.len() == states[0].tasks@.len());
        if prev.tasks@.len() > 0 {
            vstd::arithmetic::div_mod::lemma_mod_bound(
                prev.selected_task as int + 1,
                prev.tasks@.len() as int,
            );
        }
    }
}

/// Selecting the next task as many times as there are tasks comes back to
/// the task selected first, and the task list stays as it was.
pub proof fn lemma_select_next_cycle(states: Seq<App>)
    requires
        states.len() > 0,
        states.len() == states[0].tasks@.len() + 1,
        states[0].selected_task < states[0].tasks@.len(),
        select_next_chain(states),
    ensures
        states.last().selected_task == states[0].selected_task,
        states.last().tasks == states[0].tasks,
{
    let n = states[0].tasks@.len() as int;
    lemma_select_next_prefix(states, n);
    lemma_selection_wraparound(states[0].selected_task as int, n);
}

/// `states` are successive states, each after the output line `lines[i - 1]`
/// arrived in the one before it.
pub open spec fn output_chain(states: Seq<App>, lines: Seq<String>) -> bool {
    &&& states.len() == lines.len() + 1
    &&& forall|i: int| 1 <= i < states.len() ==> output_pushed(states[i - 1], #[trigger] states[i], lines[i - 1])
}

proof fn lemma_output_prefix(states: Seq<App>, lines: Seq<String>, k: int)
    requires
        output_chain(states, lines),
        states[0].task_output@.len() <= OUTPUT_CAPACITY,
        0 <= k < states.len(),
    ensures
        states[k].task_output@ == keep_last(states[0].task_output@ + lines.take(k), OUTPUT_CAPACITY as nat),
    decreases k,
{
    let start = states[0].task_output@;
    if k == 0 {
        assert(start + lines.take(0) =~= start);
    } else {
        lemma_output_prefix(states, lines, k - 1);
        assert(output_pushed(states[k - 1], states[k], lines[k - 1]));
        lemma_bounded_append(start + lines.take(k - 1), lines[k - 1], OUTPUT_CAPACITY as nat);
        assert((start + lines.take(k - 1)).push(lines[k - 1]) =~= start + lines.take(k));
    }
}

/// However many lines arrive, the output holds the newest `OUTPUT_CAPACITY`
/// of everything it held and received, in the order they came.
pub proof fn lemma_output_keeps_newest(states: Seq<App>, lines: Seq<String>)
    requires
        output_chain(states, lines),
        states[0].task_output@.len() <= OUTPUT_CAPACITY,
    ensures
        states.last().task_output@ == keep_last(states[0].task_output@ + lines, OUTPUT_CAPACITY as nat),
{
    lemma_output_prefix(states, lines, lines.len() as int);
    assert(lines.take(lines.len() as int) =~= lines);
}

} // verus!
