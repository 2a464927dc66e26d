//! Input handling: key presses, clicks, hover and wheel scrolling, and the
//! dispatcher that applies every event of the stream.

use vstd::prelude::*;
use vstd::string::StringExecFns;

use crate::app::{
    output_pushed, App, AppEvent, AppState, Effect, KeyCode, KeyInput, MouseButton, ScrollDirection,
    DEFAULT_SCROLL_AMT, NUM_STEPS, OUTPUT_CAPACITY, WHEEL_SCROLL_LINES,
};
use crate::button_layout::{ActionButton, ButtonHoverState, ButtonType, DialogButton, SequenceButton};
use crate::orchestrator::{
    rename_saved, cancel_transition, content_lines, line_appended, rename_message, sequence_transition, texts,
};
use crate::sequence::SequenceEvent;
use crate::viewport::{max_scroll, next_index, prev_index, scrolled_down, scrolled_up};

verus! {

/// Whether the key is the character `c`.
pub open spec fn is_char(key: KeyInput, c: char) -> bool {
    key.code == KeyCode::Char(c)
}

/// The effect of a key press in the sequence builder, with no confirmation
/// pending (the bindings that reach the task list, the steps, the runs and
/// the sequence).
pub open spec fn builder_key_transition(pre: App, post: App, key: KeyInput, effects: Seq<Effect>) -> bool {
    let sel = pre.selected_task as int;
    let has_sel = sel < pre.tasks@.len();
    let pane = pre.show_output_pane;
    let n = pre.task_output@.len() as int;
    let h = pre.current_output_visible_height as int;
    let page: int = if pre.current_visible_height > 1 {
        pre.current_visible_height as int
    } else {
        1
    };
    &&& post.wf()
    &&& pane && key.shift && key.code == KeyCode::Up ==> effects.len() == 0 && post == (App {
        output_scroll_offset: scrolled_up(pre.output_scroll_offset as int, 3) as usize,
        ..pre
    })
    &&& pane && key.shift && key.code == KeyCode::Down ==> effects.len() == 0 && if n <= h || h == 0 {
        post == pre
    } else {
        post == (App {
            output_scroll_offset: scrolled_down(pre.output_scroll_offset as int, 3, n, h) as usize,
            ..pre
        })
    }
    &&& pane && is_char(key, 'u') ==> effects.len() == 0 && post == (App {
        output_scroll_offset: scrolled_up(pre.output_scroll_offset as int, pre.half_page()) as usize,
        ..pre
    })
    &&& pane && is_char(key, 'd') ==> effects.len() == 0 && if n <= h || h == 0 {
        post == pre
    } else {
        post == (App {
            output_scroll_offset: scrolled_down(pre.output_scroll_offset as int, pre.half_page(), n, h) as usize,
            ..pre
        })
    }
    &&& pane && is_char(key, 'g') ==> effects.len() == 0 && post == (App { output_scroll_offset: 0, ..pre })
    &&& pane && is_char(key, 'G') ==> effects.len() == 0 && post == (App {
        output_scroll_offset: pre.output_bottom() as usize,
        ..pre
    })
    &&& pane && is_char(key, 'F') ==> effects.len() == 0 && post == (App {
        output_follow_mode: !pre.output_follow_mode,
        output_scroll_offset: if pre.output_follow_mode {
            pre.output_scroll_offset
        } else {
            pre.output_bottom() as usize
        },
        ..pre
    })
    &&& (is_char(key, '1') || is_char(key, '2') || is_char(key, '3')) ==> {
        &&& effects.len() == 0
        &&& post == (App { sequence_state: post.sequence_state, ..pre })
        &&& App::toggled(
            pre,
            post,
            if is_char(key, '1') {
                0int
            } else if is_char(key, '2') {
                1int
            } else {
                2int
            },
        )
    }
    &&& (is_char(key, 'j') || (key.code == KeyCode::Down && !(key.shift && pane))) ==> {
        &&& post == (App { selected_task: post.selected_task, scroll_offset: post.scroll_offset, ..pre })
        &&& post.selected_task == next_index(sel, pre.tasks@.len() as int)
        &&& pre.tasks@.len() > 0 && pre.current_visible_height > 0 ==> post.scroll_offset
            <= post.selected_task < post.scroll_offset + pre.current_visible_height
        &&& effects.len() == 0
    }
    &&& (is_char(key, 'k') || (key.code == KeyCode::Up && !(key.shift && pane))) ==> {
        &&& post == (App { selected_task: post.selected_task, scroll_offset: post.scroll_offset, ..pre })
        &&& post.selected_task == prev_index(sel, pre.tasks@.len() as int)
        &&& pre.tasks@.len() > 0 && pre.current_visible_height > 0 ==> post.scroll_offset
            <= post.selected_task < post.scroll_offset + pre.current_visible_height
        &&& effects.len() == 0
    }
    &&& key.code == KeyCode::Enter ==> post == pre && effects == seq![
        Effect::Post(AppEvent::Sequence(SequenceEvent::RunSequence))]
    &&& is_char(key, 'a') ==> post == pre && effects == seq![
        Effect::Post(AppEvent::Sequence(SequenceEvent::AddAsTask))]
    &&& is_char(key, 'l') && key.control ==> post == pre && effects == seq![
        Effect::Post(AppEvent::Sequence(SequenceEvent::ClearSequence))]
    &&& is_char(key, 'x') ==> if has_sel && !pre.task_running && !pre.sequence_state.is_running {
        &&& effects.len() == 1 && (effects[0] matches Effect::RunTask(n) && n@ == pre.tasks@[sel].name@)
        &&& post == (App {
            task_output: post.task_output,
            show_output_pane: true,
            task_running: true,
            running_task_name: post.running_task_name,
            has_running_handle: true,
            ..pre
        })
        &&& post.task_output@.len() == 0
        &&& post.running_task_name matches Some(n) && n@ == pre.tasks@[sel].name@
    } else {
        post == pre && effects.len() == 0
    }
    &&& is_char(key, 'e') ==> post == pre && if has_sel {
        effects.len() == 1 && (effects[0] matches Effect::EditTask(n) && n@ == pre.tasks@[sel].name@)
    } else {
        effects.len() == 0
    }
    &&& is_char(key, 'D') ==> post == pre && if has_sel {
        effects.len() == 1 && (effects[0] matches Effect::Post(AppEvent::DeleteTask(n)) && n@ == pre.tasks@[sel].name@)
    } else {
        effects.len() == 0
    }
    &&& key.code == KeyCode::Tab ==> post == pre && if has_sel {
        effects.len() == 1 && (effects[0] matches Effect::ShowTaskInfo(n) && n@ == pre.tasks@[sel].name@)
    } else {
        effects.len() == 0
    }
    &&& is_char(key, 'c') ==> effects.len() == 0 && if has_sel {
        &&& post == (App {
            state: post.state,
            original_task_name: post.original_task_name,
            rename_input: post.rename_input,
            ..pre
        })
        &&& post.state matches AppState::Renaming(n) && n@ == pre.tasks@[sel].name@
        &&& post.original_task_name matches Some(n) && n@ == pre.tasks@[sel].name@
        &&& post.rename_input matches Some(n) && n@ == pre.tasks@[sel].name@
    } else {
        post == pre
    }
    &&& key.code == KeyCode::PageDown ==> effects.len() == 0 && if pre.tasks@.len() > 0 {
        post == (App {
            scroll_offset: scrolled_down(pre.scroll_offset as int, page, pre.tasks@.len() as int, page) as usize,
            ..pre
        })
    } else {
        post == pre
    }
    &&& key.code == KeyCode::PageUp ==> effects.len() == 0 && post == (App {
        scroll_offset: scrolled_up(pre.scroll_offset as int, page) as usize,
        ..pre
    })
    &&& (key.code == KeyCode::Esc || is_char(key, 'b')) ==> effects.len() == 0 && if pane && !pre.task_running {
        &&& post == (App {
            show_output_pane: false,
            task_output: post.task_output,
            output_scroll_offset: 0,
            ..pre
        })
        &&& post.task_output@.len() == 0
    } else {
        post == pre
    }
}

/// A left click in the sequence builder or rename mode, resolved by
/// hit-testing the cell (`col`, `row`).
pub open spec fn click_transition(pre: App, post: App, row: u16, col: u16, effects: Seq<Effect>) -> bool {
    match pre.pending_delete_task {
        Some(p) => match pre.hit(row as int, col as int) {
            Some(ButtonType::Dialog(DialogButton::Delete)) => {
                &&& post == (App { pending_delete_task: None, delete_dialog_area: None, ..pre })
                &&& effects.len() == 1 && (effects[0] matches Effect::DeleteTask(n) && n@ == p@)
            },
            Some(ButtonType::Dialog(DialogButton::Cancel)) => {
                &&& post == (App { pending_delete_task: None, delete_dialog_area: None, ..pre })
                &&& effects.len() == 0
            },
            _ => post == pre && effects.len() == 0,
        },
        None => {
            let on = |k: usize| App { selected_task: k, ..pre };
            match pre.hit(row as int, col as int) {
                None => effects.len() == 0 && post == (App {
                    selected_task: match pre.table_layout {
                        Some(l) => match pre.task_row(l, row as int) {
                            Some(k) => k as usize,
                            None => pre.selected_task,
                        },
                        None => pre.selected_task,
                    },
                    ..pre
                }),
                Some(ButtonType::Step { step_index, task_index }) => {
                    &&& post == (App { sequence_state: post.sequence_state, ..on(task_index) })
                    &&& App::toggled(on(task_index), post, step_index as int)
                    &&& effects.len() == 0
                },
                Some(ButtonType::Action { button: ActionButton::Cat, task_index }) => {
                    &&& post == on(task_index)
                    &&& effects.len() == 1 && (effects[0] matches Effect::ShowTaskInfo(n) && n@
                        == pre.tasks@[task_index as int].name@)
                },
                Some(ButtonType::Action { button: ActionButton::Edit, task_index }) => {
                    &&& post == on(task_index)
                    &&& effects.len() == 1 && (effects[0] matches Effect::EditTask(n) && n@
                        == pre.tasks@[task_index as int].name@)
                },
                Some(ButtonType::Action { button: ActionButton::Delete, task_index }) => {
                    &&& post == on(task_index)
                    &&& effects.len() == 1 && (effects[0] matches Effect::Post(AppEvent::DeleteTask(n)) && n@
                        == pre.tasks@[task_index as int].name@)
                },
                Some(ButtonType::Action { button: ActionButton::Run, task_index }) => {
                    let name = pre.tasks@[task_index as int].name@;
                    if pre.running_task_name matches Some(n) && n@ == name {
                        cancel_transition(on(task_index), post, effects)
                    } else if !pre.task_running && !pre.sequence_state.is_running {
                        &&& effects.len() == 1 && (effects[0] matches Effect::RunTask(n) && n@ == name)
                        &&& post == (App {
                            task_output: post.task_output,
                            show_output_pane: true,
                            task_running: true,
                            running_task_name: post.running_task_name,
                            has_running_handle: true,
                            ..on(task_index)
                        })
                        &&& post.task_output@.len() == 0
                        &&& post.running_task_name matches Some(n) && n@ == name
                    } else {
                        post == on(task_index) && effects.len() == 0
                    }
                },
                Some(ButtonType::Action { button: ActionButton::Rename, task_index }) => {
                    &&& effects.len() == 0
                    &&& post == (App {
                        state: post.state,
                        original_task_name: post.original_task_name,
                        rename_input: post.rename_input,
                        ..on(task_index)
                    })
                    &&& post.state matches AppState::Renaming(n) && n@ == pre.tasks@[task_index as int].name@
                    &&& post.original_task_name matches Some(n) && n@ == pre.tasks@[task_index as int].name@
                    &&& post.rename_input matches Some(n) && n@ == pre.tasks@[task_index as int].name@
                },
                Some(ButtonType::Action { button: ActionButton::Save, task_index }) => rename_saved(
                    on(task_index),
                    post,
                    effects,
                ),
                Some(ButtonType::Action { button: ActionButton::Cancel, task_index }) => {
                    &&& effects.len() == 0
                    &&& post == (App {
                        state: AppState::SequenceBuilder,
                        rename_input: None,
                        original_task_name: None,
                        ..on(task_index)
                    })
                },
                Some(ButtonType::Sequence(SequenceButton::RunSequence)) => if pre.sequence_state.is_running {
                    cancel_transition(pre, post, effects)
                } else {
                    post == pre && effects == seq![Effect::Post(AppEvent::Sequence(SequenceEvent::RunSequence))]
                },
                Some(ButtonType::Sequence(SequenceButton::AddAsTask)) => post == pre && effects == seq![
                    Effect::Post(AppEvent::Sequence(SequenceEvent::AddAsTask))],
                Some(ButtonType::Sequence(SequenceButton::Clear)) => post == pre && effects == seq![
                    Effect::Post(AppEvent::Sequence(SequenceEvent::ClearSequence))],
                Some(ButtonType::Dialog(_)) => effects.len() == 0,
            }
        },
    }
}

/// A mouse click: a left click in the sequence builder or in rename mode
/// acts on the button under it (see `click_transition`); any other click
/// changes nothing.
pub open spec fn mouse_click_transition(
    pre: App,
    post: App,
    button: MouseButton,
    row: u16,
    col: u16,
    effects: Seq<Effect>,
) -> bool {
    if button == MouseButton::Left && (pre.state is SequenceBuilder || pre.state is Renaming) {
        click_transition(pre, post, row, col, effects)
    } else {
        post == pre && effects.len() == 0
    }
}

/// Wheel scrolling of the task list, three rows at a time.
pub open spec fn scroll_transition(pre: App, post: App, direction: ScrollDirection) -> bool {
    &&& post == (App { scroll_offset: post.scroll_offset, ..pre })
    &&& !(pre.state is SequenceBuilder) ==> post == pre
    &&& pre.state is SequenceBuilder && direction == ScrollDirection::Up ==> post == (App {
        scroll_offset: scrolled_up(pre.scroll_offset as int, WHEEL_SCROLL_LINES as int) as usize,
        ..pre
    })
    &&& pre.state is SequenceBuilder && direction == ScrollDirection::Down && pre.tasks@.len() > 0
        ==> post == (App {
        scroll_offset: scrolled_down(
            pre.scroll_offset as int,
            WHEEL_SCROLL_LINES as int,
            pre.tasks@.len() as int,
            if pre.current_visible_height > 0 {
                pre.current_visible_height as int
            } else {
                DEFAULT_SCROLL_AMT as int
            },
        ) as usize,
        ..pre
    })
}

/// A key press. A pending delete confirmation takes every key first;
/// rename mode takes keys next; then the screen's bindings apply.
pub open spec fn key_transition(pre: App, post: App, key: KeyInput, effects: Seq<Effect>) -> bool {
    &&& pre.pending_delete_task matches Some(p) ==> {
        &&& post == (App { pending_delete_task: None, delete_dialog_area: None, ..pre })
        &&& if is_char(key, 'y') || is_char(key, 'Y') {
            effects.len() == 1 && (effects[0] matches Effect::DeleteTask(n) && n@ == p@)
        } else {
            effects.len() == 0
        }
    }
    &&& pre.pending_delete_task is None && pre.state is Renaming ==> {
        if key.code == KeyCode::Esc {
            effects.len() == 0 && post == (App {
                state: AppState::SequenceBuilder,
                rename_input: None,
                original_task_name: None,
                ..pre
            })
        } else if key.code == KeyCode::Enter {
            rename_saved(pre, post, effects)
        } else {
            post == pre && effects == seq![Effect::EditRenameInput(key)]
        }
    }
    &&& pre.pending_delete_task is None && !(pre.state is Renaming) && is_char(key, 'q')
        ==> post == (App { should_quit: true, ..pre }) && effects.len() == 0
    &&& pre.pending_delete_task is None && !(pre.state is Renaming) && is_char(key, 'r')
        ==> post == pre && effects.len() == 1 && effects[0] is RefreshTasks
    &&& pre.pending_delete_task is None && !(pre.state is Renaming) && is_char(key, 'c')
        && pre.task_running ==> cancel_transition(pre, post, effects)
    &&& pre.pending_delete_task is None && (pre.state is Detail || pre.state is Running)
        && !is_char(key, 'q') && !is_char(key, 'r') && !(is_char(key, 'c') && pre.task_running)
        && (key.code == KeyCode::Esc || is_char(key, 'b')) ==> post.state == AppState::SequenceBuilder
        && post.task_output@.len() == 0 && !post.show_output_pane
        && !post.has_running_handle && effects == if pre.has_running_handle {
        seq![Effect::AbortRun]
    } else {
        seq![]
    }
    &&& pre.pending_delete_task is None && pre.state is SequenceBuilder && !is_char(key, 'q')
        && !is_char(key, 'r') && !(is_char(key, 'c') && pre.task_running) ==> builder_key_transition(
        pre,
        post,
        key,
        effects
    )
}

impl App {
    /// The name of the selected task, if the selection is on a task.
    pub open spec fn selected_name(self) -> Option<Seq<char>> {
        if self.selected_task < self.tasks@.len() {
            Some(self.tasks@[self.selected_task as int].name@)
        } else {
            None
        }
    }

    /// The step bindings after toggling `step` for the selected task.
    pub open spec fn toggled(pre: App, post: App, step: int) -> bool {
        match pre.selected_name() {
            None => post.sequence_state == pre.sequence_state,
            Some(name) => forall|n: Seq<char>, s: int|
                0 <= s < NUM_STEPS ==> #[trigger] post.sequence_state.enabled(n, s) == if s == step {
                    if !pre.sequence_state.enabled(name, s) {
                        n == name
                    } else {
                        n != name && pre.sequence_state.enabled(n, s)
                    }
                } else {
                    pre.sequence_state.enabled(n, s)
                },
        }
    }

    /// Copy of the pending confirmation's task name.
    fn pending_name(&self) -> (r: Option<String>)
        ensures
            match self.pending_delete_task {
                Some(p) => r matches Some(n) && n@ == p@,
                None => r is None,
            },
    {
        match &self.pending_delete_task {
            Some(n) => Some(n.clone()),
            None => None,
        }
    }

    /// Name of the task at `index`.
    fn task_name_at(&self, index: usize) -> (r: String)
        requires
            index < self.tasks@.len(),
        ensures
            r@ == self.tasks@[index as int].name@,
    {
        self.tasks[index].name.clone()
    }

    /// A left click in the sequence builder.
    pub fn handle_sequence_builder_click(&mut self, row: u16, col: u16) -> (effects: Vec<Effect>)
        requires
            old(self).wf(),
        ensures
            final(self).wf(),
            click_transition(*old(self), *final(self), row, col, effects@),
    {
        let hit = self.button_at(row, col);
        match self.pending_name() {
            Some(name) => {
                return match hit {
                    Some(ButtonType::Dialog(DialogButton::Delete)) => {
                        self.pending_delete_task = None;
                        self.delete_dialog_area = None;
                        vec![Effect::DeleteTask(name)]
                    },
                    Some(ButtonType::Dialog(DialogButton::Cancel)) => {
                        self.pending_delete_task = None;
                        self.delete_dialog_area = None;
                        Vec::new()
                    },
                    _ => Vec::new(),
                };
            },
            None => {},
        }
        let row_task = match &self.table_layout {
            Some(l) => self.task_at_row(l, row),
            None => None,
        };
        match row_task {
            Some(k) => {
                self.selected_task = k;
            },
            None => {},
        }
        match hit {
            None => Vec::new(),
            Some(ButtonType::Dialog(_)) => Vec::new(),
            Some(ButtonType::Step { step_index, task_index }) => {
                self.selected_task = task_index;
                self.toggle_current_task_step(step_index)
            },
            Some(ButtonType::Action { button, task_index }) => {
                assert(task_index < self.tasks@.len());
                self.selected_task = task_index;
                let name = self.task_name_at(task_index);
                match button {
                    ActionButton::Run => {
                        if self.is_task_running(name.as_str()) {
                            self.cancel_running_task()
                        } else if !self.is_any_task_running() {
                            self.run_current_task()
                        } else {
                            Vec::new()
                        }
                    },
                    ActionButton::Cat => vec![Effect::ShowTaskInfo(name)],
                    ActionButton::Edit => vec![Effect::EditTask(name)],
                    ActionButton::Rename => {
                        self.start_rename_task();
                        Vec::new()
                    },
                    ActionButton::Delete => vec![Effect::Post(AppEvent::DeleteTask(name))],
                    ActionButton::Save => self.save_rename(),
                    ActionButton::Cancel => {
                        self.cancel_rename();
                        Vec::new()
                    },
                }
            },
            Some(ButtonType::Sequence(button)) => match button {
                SequenceButton::RunSequence => {
                    if self.sequence_state.is_running {
                        self.cancel_running_task()
                    } else {
                        let r = vec![Effect::Post(AppEvent::Sequence(SequenceEvent::RunSequence))];
                        assert(r@ =~= seq![Effect::Post(AppEvent::Sequence(SequenceEvent::RunSequence))]);
                        r
                    }
                },
                SequenceButton::AddAsTask => {
                    let r = vec![Effect::Post(AppEvent::Sequence(SequenceEvent::AddAsTask))];
                    assert(r@ =~= seq![Effect::Post(AppEvent::Sequence(SequenceEvent::AddAsTask))]);
                    r
                },
                SequenceButton::Clear => {
                    let r = vec![Effect::Post(AppEvent::Sequence(SequenceEvent::ClearSequence))];
                    assert(r@ =~= seq![Effect::Post(AppEvent::Sequence(SequenceEvent::ClearSequence))]);
                    r
                },
            },
        }
    }

    /// A mouse click; only left clicks in the sequence builder or rename
    /// mode do anything.
    pub fn handle_mouse_click(&mut self, button: MouseButton, row: u16, col: u16) -> (effects: Vec<Effect>)
        requires
            old(self).wf(),
        ensures
            final(self).wf(),
            mouse_click_transition(*old(self), *final(self), button, row, col, effects@),
    {
        if button != MouseButton::Left {
            return Vec::new();
        }
        match self.state {
            AppState::SequenceBuilder | AppState::Renaming(_) => self.handle_sequence_builder_click(row, col),
            _ => Vec::new(),
        }
    }

    /// The mouse moved: the hover state becomes the button under it.
    pub fn handle_mouse_move(&mut self, row: u16, col: u16)
        ensures
            *final(self) == (App {
                button_hover_state: if old(self).state is SequenceBuilder || old(self).state is Renaming {
                    match old(self).hit(row as int, col as int) {
                        Some(b) => Some(ButtonHoverState { button_type: b, row, col }),
                        None => None,
                    }
                } else {
                    None
                },
                ..*old(self)
            }),
    {
        let hover = match self.state {
            AppState::SequenceBuilder | AppState::Renaming(_) => match self.button_at(row, col) {
                Some(b) => Some(ButtonHoverState::new(b, row, col)),
                None => None,
            },
            _ => None,
        };
        self.button_hover_state = hover;
    }

    /// Wheel scrolling of the task list, three rows at a time.
    pub fn handle_mouse_scroll(&mut self, direction: ScrollDirection)
        ensures
            scroll_transition(*old(self), *final(self), direction),
    {
        match self.state {
            AppState::SequenceBuilder => {
                let visible_height = if self.current_visible_height > 0 {
                    self.current_visible_height
                } else {
                    DEFAULT_SCROLL_AMT
                };
                match direction {
                    ScrollDirection::Up => self.scroll_up(WHEEL_SCROLL_LINES),
                    ScrollDirection::Down => self.scroll_down(WHEEL_SCROLL_LINES, visible_height),
                }
            },
            _ => {},
        }
    }

    /// A key press. A pending delete confirmation takes every key first
    /// (`y`/`Y` confirms, anything else cancels); rename mode takes keys
    /// next; then the screen's bindings apply.
    pub fn handle_key(&mut self, key: KeyInput) -> (effects: Vec<Effect>)
        requires
            old(self).wf(),
        ensures
            final(self).wf(),
            key_transition(*old(self), *final(self), key, effects@),
    {
        match self.pending_name() {
            Some(name) => {
                self.pending_delete_task = None;
                self.delete_dialog_area = None;
                if key.code == KeyCode::Char('y') || key.code == KeyCode::Char('Y') {
                    return vec![Effect::DeleteTask(name)];
                }
                return Vec::new();
            },
            None => {},
        }
        if let AppState::Renaming(_) = self.state {
            if key.code == KeyCode::Enter {
                return self.save_rename();
            }
            if key.code == KeyCode::Esc {
                self.cancel_rename();
                return Vec::new();
            }
            let r = vec![Effect::EditRenameInput(key)];
            assert(r@ =~= seq![Effect::EditRenameInput(key)]);
            return r;
        }
        if key.code == KeyCode::Char('q') {
            self.should_quit = true;
            return Vec::new();
        }
        if key.code == KeyCode::Char('r') {
            return vec![Effect::RefreshTasks];
        }
        if key.code == KeyCode::Char('c') && self.task_running {
            return self.cancel_running_task();
        }
        let back = key.code == KeyCode::Esc || key.code == KeyCode::Char('b');
        match self.state {
            AppState::Detail(_) => {
                if back {
                    self.leave_for_list()
                } else if key.code == KeyCode::Char('x') {
                    self.run_selected_task()
                } else {
                    Vec::new()
                }
            },
            AppState::Running(_) => {
                if back {
                    self.leave_for_list()
                } else {
                    Vec::new()
                }
            },
            AppState::Renaming(_) => Vec::new(),
            AppState::SequenceBuilder => self.handle_builder_key(key),
        }
    }

    /// Leaves a detail or running view for the task list; a run that is
    /// still tracked is torn down, so that its output does not reach the
    /// cleared pane.
    fn leave_for_list(&mut self) -> (effects: Vec<Effect>)
        requires
            old(self).wf(),
        ensures
            final(self).wf(),
            final(self).state == AppState::SequenceBuilder,
            final(self).task_output@.len() == 0,
            !final(self).show_output_pane,
            !final(self).has_running_handle,
            !final(self).task_running,
            effects@ == if old(self).has_running_handle {
                seq![Effect::AbortRun]
            } else {
                seq![]
            },
    {
        let had_handle = self.has_running_handle;
        self.back_to_list();
        if had_handle {
            let r = vec![Effect::AbortRun];
            assert(r@ =~= seq![Effect::AbortRun]);
            r
        } else {
            Vec::new()
        }
    }

    /// Key bindings of the sequence builder.
    fn handle_builder_key(&mut self, key: KeyInput) -> (effects: Vec<Effect>)
        requires
            old(self).wf(),
            old(self).state is SequenceBuilder,
        ensures
            builder_key_transition(*old(self), *final(self), key, effects@),
    {
        let pane = self.show_output_pane;
        let code = key.code;
        if pane && key.shift && code == KeyCode::Up {
            self.scroll_output_up(3);
            return Vec::new();
        }
        if pane && key.shift && code == KeyCode::Down {
            self.scroll_output_down(3);
            return Vec::new();
        }
        if pane && code == KeyCode::Char('u') {
            self.scroll_output_half_page_up();
            return Vec::new();
        }
        if pane && code == KeyCode::Char('d') {
            self.scroll_output_half_page_down();
            return Vec::new();
        }
        if pane && code == KeyCode::Char('g') {
            self.scroll_output_to_top();
            return Vec::new();
        }
        if pane && code == KeyCode::Char('G') {
            self.scroll_output_to_bottom();
            return Vec::new();
        }
        if pane && code == KeyCode::Char('F') {
            self.toggle_output_follow_mode();
            return Vec::new();
        }
        if code == KeyCode::Down || code == KeyCode::Char('j') {
            self.select_next();
            self.ensure_selected_task_visible(self.current_visible_height);
            return Vec::new();
        }
        if code == KeyCode::Up || code == KeyCode::Char('k') {
            self.select_previous();
            self.ensure_selected_task_visible(self.current_visible_height);
            return Vec::new();
        }
        let page: usize = if self.current_visible_height > 1 {
            self.current_visible_height
        } else {
            1
        };
        if code == KeyCode::PageDown {
            self.scroll_down(page, page);
            return Vec::new();
        }
        if code == KeyCode::PageUp {
            self.scroll_up(page);
            return Vec::new();
        }
        if code == KeyCode::Char('1') {
            return self.toggle_current_task_step(0);
        }
        if code == KeyCode::Char('2') {
            return self.toggle_current_task_step(1);
        }
        if code == KeyCode::Char('3') {
            return self.toggle_current_task_step(2);
        }
        if code == KeyCode::Enter {
            let r = vec![Effect::Post(AppEvent::Sequence(SequenceEvent::RunSequence))];
            assert(r@ =~= seq![Effect::Post(AppEvent::Sequence(SequenceEvent::RunSequence))]);
            return r;
        }
        if code == KeyCode::Char('l') && key.control {
            let r = vec![Effect::Post(AppEvent::Sequence(SequenceEvent::ClearSequence))];
            assert(r@ =~= seq![Effect::Post(AppEvent::Sequence(SequenceEvent::ClearSequence))]);
            return r;
        }
        if code == KeyCode::Char('c') {
            self.start_rename_task();
            return Vec::new();
        }
        if code == KeyCode::Char('a') {
            let r = vec![Effect::Post(AppEvent::Sequence(SequenceEvent::AddAsTask))];
            assert(r@ =~= seq![Effect::Post(AppEvent::Sequence(SequenceEvent::AddAsTask))]);
            return r;
        }
        if code == KeyCode::Char('x') {
            return self.run_current_task();
        }
        let selected = self.selected_task;
        if code == KeyCode::Char('e') || code == KeyCode::Char('D') || code == KeyCode::Tab {
            if selected >= self.tasks.len() {
                return Vec::new();
            }
            let name = self.task_name_at(selected);
            return if code == KeyCode::Char('e') {
                vec![Effect::EditTask(name)]
            } else if code == KeyCode::Char('D') {
                vec![Effect::Post(AppEvent::DeleteTask(name))]
            } else {
                vec![Effect::ShowTaskInfo(name)]
            };
        }
        if code == KeyCode::Esc || code == KeyCode::Char('b') {
            if pane && !self.task_running {
                self.show_output_pane = false;
                self.task_output.clear();
                self.output_scroll_offset = 0;
            }
        }
        Vec::new()
    }

    /// Applies one event and returns the work it asks for.
    pub fn handle_event(&mut self, event: AppEvent) -> (effects: Vec<Effect>)
        requires
            old(self).wf(),
        ensures
            final(self).wf(),
            match event {
                AppEvent::Quit => *final(self) == (App { should_quit: true, ..*old(self) }) && effects@.len() == 0,
                AppEvent::TasksRefreshed(tasks) => effects@.len() == 0 && *final(self) == (App {
                    tasks,
                    selected_task: if tasks@.len() > 0 && old(self).selected_task >= tasks@.len() {
                        (tasks@.len() - 1) as usize
                    } else {
                        old(self).selected_task
                    },
                    scroll_offset: if old(self).scroll_offset > max_scroll(
                        tasks@.len() as int,
                        old(self).current_visible_height as int,
                    ) {
                        max_scroll(tasks@.len() as int, old(self).current_visible_height as int) as usize
                    } else {
                        old(self).scroll_offset
                    },
                    ..*old(self)
                }),
                AppEvent::TaskOutput(line) => output_pushed(*old(self), *final(self), line) && effects@.len() == 0,
                AppEvent::TaskCompleted => *final(self) == (App {
                    task_running: false,
                    running_task_name: None,
                    has_running_handle: false,
                    ..*old(self)
                }) && effects@.len() == 0,
                AppEvent::TaskCancelled => {
                    &&& effects@.len() == 0
                    &&& !old(self).task_running && !old(self).has_running_handle ==> *final(self) == *old(self)
                    &&& old(self).task_running || old(self).has_running_handle ==> {
                        &&& !final(self).task_running && !final(self).has_running_handle
                        &&& final(self).running_task_name is None
                        &&& line_appended(old(self).task_output@, final(self).task_output@, "Task cancelled by user"@)
                    }
                },
                AppEvent::Tick => *final(self) == *old(self) && effects@.len() == 0,
                AppEvent::Sequence(e) => sequence_transition(*old(self), *final(self), e, effects@),
                AppEvent::DeleteTask(name) => *final(self) == (App {
                    pending_delete_task: Some(name),
                    ..*old(self)
                }) && effects@.len() == 0,
                AppEvent::RenameInputChanged(text) => effects@.len() == 0 && *final(self) == (App {
                    rename_input: if old(self).rename_input is Some {
                        Some(text)
                    } else {
                        None
                    },
                    ..*old(self)
                }),
                AppEvent::KeyPress(key) => key_transition(*old(self), *final(self), key, effects@),
                AppEvent::MouseClick { button, row, col } => mouse_click_transition(
                    *old(self),
                    *final(self),
                    button,
                    row,
                    col,
                    effects@,
                ),
                AppEvent::MouseScroll { direction, row: _, col: _ } => effects@.len() == 0 && scroll_transition(
                    *old(self),
                    *final(self),
                    direction,
                ),
                AppEvent::MouseMove { row, col } => effects@.len() == 0 && *final(self) == (App {
                    button_hover_state: if old(self).state is SequenceBuilder || old(self).state is Renaming {
                        match old(self).hit(row as int, col as int) {
                            Some(b) => Some(ButtonHoverState { button_type: b, row, col }),
                            None => None,
                        }
                    } else {
                        None
                    },
                    ..*old(self)
                }),
                AppEvent::TaskDeleted { task_name, error } => match error {
                    None => {
                        &&& effects@.len() == 1 && effects@[0] is RefreshTasks
                        &&& forall|n: Seq<char>, s: int| #[trigger] final(self).sequence_state.enabled(n, s)
                            == (n != task_name@ && old(self).sequence_state.enabled(n, s))
                        &&& line_appended(old(self).task_output@, final(self).task_output@,
                            "Task '"@ + task_name@ + "' deleted successfully. Remember to keep your mise tasks under version control."@)
                    },
                    Some(e) => effects@.len() == 0 && line_appended(old(self).task_output@, final(self).task_output@,
                        "Failed to delete task '"@ + task_name@ + "': "@ + e@),
                },
                AppEvent::TaskRenamed { original, requested, outcome } => match outcome {
                    Ok(stored) => effects@.len() == 1 && effects@[0] is RefreshTasks
                        && line_appended(old(self).task_output@, final(self).task_output@,
                            rename_message(original@, requested@, stored@)),
                    Err(e) => effects@.len() == 0 && line_appended(old(self).task_output@, final(self).task_output@,
                        "Failed to rename task '"@ + original@ + "': "@ + e@),
                },
                AppEvent::TaskInfoLoaded { task_name, info } => effects@.len() == 0 && final(self).show_output_pane
                    && match info {
                    Ok(i) => texts(final(self).task_output@) == content_lines(task_name@, i),
                    Err(e) => texts(final(self).task_output@) == seq!["Failed to get task info: "@ + e@],
                },
                AppEvent::SequenceTaskAdded { task_name, command, error } => final(self).show_output_pane
                    && match error {
                    None => effects@.len() == 1 && effects@[0] is RefreshTasks && texts(final(self).task_output@)
                        == seq!["✓ Created task '"@ + task_name@ + "' successfully!"@, "Command: "@ + command@],
                    Some(e) => effects@.len() == 0 && texts(final(self).task_output@) == seq![
                        "✗ Error adding task to mise.toml: "@ + e@],
                },
            },
    {
        match event {
            AppEvent::Quit => {
                self.should_quit = true;
                Vec::new()
            },
            AppEvent::KeyPress(key) => self.handle_key(key),
            AppEvent::MouseClick { button, row, col } => self.handle_mouse_click(button, row, col),
            AppEvent::MouseScroll { direction, row: _, col: _ } => {
                self.handle_mouse_scroll(direction);
                Vec::new()
            },
            AppEvent::MouseMove { row, col } => {
                self.handle_mouse_move(row, col);
                Vec::new()
            },
            AppEvent::TasksRefreshed(tasks) => {
                let len = tasks.len();
                self.tasks = tasks;
                if len > 0 && self.selected_task >= len {
                    self.selected_task = len - 1;
                }
                let bottom: usize = if len > self.current_visible_height {
                    len - self.current_visible_height
                } else {
                    0
                };
                if self.scroll_offset > bottom {
                    self.scroll_offset = bottom;
                }
                Vec::new()
            },
            AppEvent::TaskOutput(line) => {
                self.push_output(line);
                Vec::new()
            },
            AppEvent::TaskCompleted => {
                self.task_running = false;
                self.running_task_name = None;
                self.has_running_handle = false;
                Vec::new()
            },
            AppEvent::TaskCancelled => {
                if self.task_running || self.has_running_handle {
                    self.task_running = false;
                    self.running_task_name = None;
                    self.has_running_handle = false;
                    self.push_message(String::from_str("Task cancelled by user"));
                }
                Vec::new()
            },
            AppEvent::Tick => Vec::new(),
            AppEvent::Sequence(e) => self.handle_sequence_event(e),
            AppEvent::DeleteTask(name) => {
                self.pending_delete_task = Some(name);
                Vec::new()
            },
            AppEvent::TaskDeleted { task_name, error } => self.on_task_deleted(task_name, error),
            AppEvent::TaskRenamed { original, requested, outcome } => self.on_task_renamed(original, requested, outcome),
            AppEvent::TaskInfoLoaded { task_name, info } => {
                self.on_task_info(task_name, info);
                Vec::new()
            },
            AppEvent::SequenceTaskAdded { task_name, command, error } => self.on_sequence_task_added(
                task_name,
                command,
                error,
            ),
            AppEvent::RenameInputChanged(text) => {
                if self.rename_input.is_some() {
                    self.rename_input = Some(text);
                }
                Vec::new()
            },
        }
    }
}

/// Drops mouse moves that do not change the position, so that consecutive
/// moves reach the state machine only when the mouse went somewhere new.
pub struct MoveFilter {
    pub last: (u16, u16),
}

impl MoveFilter {
    pub fn new() -> (r: Self)
        ensures
            r.last == (0u16, 0u16),
    {
        MoveFilter { last: (0, 0) }
    }

    /// Whether a move to (`row`, `col`) is passed on; the position is
    /// remembered when it is.
    pub fn accept(&mut self, row: u16, col: u16) -> (r: bool)
        ensures
            r == (old(self).last != (row, col)),
            final(self).last == (row, col),
    {
        let changed = self.last.0 != row || self.last.1 != col;
        self.last = (row, col);
        changed
    }
}

} // verus!
