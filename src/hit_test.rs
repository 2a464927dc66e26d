//! Hit-testing: which button lies under a screen cell, in the layout
//! snapshot of the last render; and the geometry that rendering records for it.

use vstd::prelude::*;
use vstd::string::{StrSliceExecFns, StringExecFns};

use crate::app::{App, AppState, NUM_STEPS};
use crate::button_layout::{
    action_button_at, dialog_button_at, get_dialog_button_at_position, sequence_button_at,
    step_button_at, ActionButtonLayout, ButtonType, Rect, SequenceButtonLayout, StepButtonLayout,
};
use crate::constants::{ADD_AS_TASK_BUTTON_TEXT, APP_TITLE, CLEAR_BUTTON_TEXT, RUN_SEQUENCE_BUTTON_TEXT};
use crate::layout::{calculate_table_layout, TableLayout};
use crate::text::{decimal, decimal_string};

verus! {

/// Width of the sequence controls `[Run sequence] [Add as task] [Clear]`.
pub const CONTROLS_WIDTH: u16 = 36;

/// The column `c` lies inside the rectangle's columns.
pub open spec fn in_column(r: Rect, col: int) -> bool {
    r.x <= col < r.x + r.width
}

/// The step whose toggle lies under column `col`: the first step column
/// (columns 1 to 3) holding `col` within its toggle's cells.
pub open spec fn step_at(cols: Seq<Rect>, col: int) -> Option<usize> {
    if cols.len() > 1 && in_column(cols[1], col) && step_button_at(3, 0, col - cols[1].x) is Some {
        Some(0usize)
    } else if cols.len() > 2 && in_column(cols[2], col) && step_button_at(3, 1, col - cols[2].x) is Some {
        Some(1usize)
    } else if cols.len() > 3 && in_column(cols[3], col) && step_button_at(3, 2, col - cols[3].x) is Some {
        Some(2usize)
    } else {
        None
    }
}

impl App {
    /// The task shown on screen row `row` of the table, if any: data rows
    /// start two rows below the table's top border.
    pub open spec fn task_row(self, l: TableLayout, row: int) -> Option<int> {
        let top = l.table_area.y as int;
        if row >= top + 2 && self.scroll_offset + (row - top - 2) < self.tasks@.len() {
            Some(self.scroll_offset + (row - top - 2))
        } else {
            None
        }
    }

    /// Length of the table title: the application title and, when the list
    /// does not fit, ` (first-last/total)`.
    pub open spec fn title_len(self) -> int {
        let n = self.tasks@.len() as int;
        let h = self.current_visible_height as int;
        if n > h {
            let first = self.scroll_offset + 1;
            let last = if self.scroll_offset + h < n {
                self.scroll_offset + h
            } else {
                n
            };
            (22 + 5 + decimal(first as nat).len() + decimal(last as nat).len() + decimal(n as nat).len()) as int
        } else {
            22
        }
    }

    /// The table title: the application title and, when the list does not
    /// fit, ` (first-last/total)` of the visible rows, counted from 1.
    pub open spec fn title_text(self) -> Seq<char> {
        let n = self.tasks@.len() as int;
        let h = self.current_visible_height as int;
        if n > h {
            let first = self.scroll_offset + 1;
            let last = if self.scroll_offset + h < n {
                self.scroll_offset + h
            } else {
                n
            };
            APP_TITLE@ + " ("@ + decimal(first as nat) + "-"@ + decimal(last as nat) + "/"@ + decimal(
                n as nat,
            ) + ")"@
        } else {
            APP_TITLE@
        }
    }

    /// First column of the sequence controls in the title row of a table
    /// drawn in `area`: right-aligned when the title leaves room, else right
    /// after the title; `None` when they do not fit.
    pub open spec fn controls_start(self, area: Rect) -> Option<int> {
        let w = CONTROLS_WIDTH as int;
        let title_offset = 3 + self.title_len();
        let start = if title_offset + w + 2 <= area.width {
            area.width - w - 2
        } else {
            title_offset + 2
        };
        let col = area.x + start;
        if col + w <= area.x + area.width && col <= u16::MAX {
            Some(col)
        } else {
            None
        }
    }

    /// The button under the cell (`col`, `row`) in the layout snapshot of
    /// the last render. A pending confirmation leaves only its dialog's
    /// buttons; rename mode leaves only Save and Cancel of the renamed
    /// task; otherwise step toggles, then actions of the task rows, and the
    /// sequence controls of the title row.
    pub open spec fn hit(self, row: int, col: int) -> Option<ButtonType> {
        if self.pending_delete_task is Some {
            match self.delete_dialog_area {
                Some(a) => match dialog_button_at(a, row, col) {
                    Some(b) => Some(ButtonType::Dialog(b)),
                    None => None,
                },
                None => None,
            }
        } else {
            match self.table_layout {
                None => None,
                Some(l) => {
                    let cols = l.column_rects@;
                    match self.state {
                        AppState::Renaming(name) => match self.task_row(l, row) {
                            Some(k) => if self.tasks@[k].name@ == name@ && cols.len() > 0 && in_column(
                                cols.last(),
                                col,
                            ) {
                                match action_button_at(true, col - cols.last().x) {
                                    Some(b) => Some(ButtonType::Action { button: b, task_index: k as usize }),
                                    None => None,
                                }
                            } else {
                                None
                            },
                            None => None,
                        },
                        _ => if row == l.table_area.y {
                            match self.controls_start(l.table_area) {
                                Some(c) => if c <= col < c + CONTROLS_WIDTH {
                                    match sequence_button_at(col - c) {
                                        Some(b) => Some(ButtonType::Sequence(b)),
                                        None => None,
                                    }
                                } else {
                                    None
                                },
                                None => None,
                            }
                        } else {
                            match self.task_row(l, row) {
                                Some(k) => match step_at(cols, col) {
                                    Some(s) => Some(ButtonType::Step { step_index: s, task_index: k as usize }),
                                    None => if cols.len() > 0 && in_column(cols.last(), col) {
                                        match action_button_at(false, col - cols.last().x) {
                                            Some(b) => Some(ButtonType::Action { button: b, task_index: k as usize }),
                                            None => None,
                                        }
                                    } else {
                                        None
                                    },
                                },
                                None => None,
                            }
                        },
                    }
                },
            }
        }
    }

    /// The cell (`col`, `row`) lies inside the on-screen region of `b`.
    pub open spec fn in_region(self, b: ButtonType, row: int, col: int) -> bool {
        match b {
            ButtonType::Dialog(_) => self.delete_dialog_area matches Some(a) && a.contains(row, col),
            ButtonType::Sequence(s) => self.table_layout matches Some(l) && row == l.table_area.y
                && (self.controls_start(l.table_area) matches Some(c) && c <= col < c + CONTROLS_WIDTH),
            ButtonType::Step { step_index, task_index } => self.table_layout matches Some(l)
                && self.task_row(l, row) == Some(task_index as int) && step_index < 3
                && step_index + 1 < l.column_rects@.len()
                && in_column(l.column_rects@[step_index + 1], col),
            ButtonType::Action { button, task_index } => self.table_layout matches Some(l)
                && self.task_row(l, row) == Some(task_index as int) && l.column_rects@.len() > 0
                && in_column(l.column_rects@.last(), col),
        }
    }

    /// Length of the table title (see `title_len`).
    fn title_length(&self) -> (r: u128)
        ensures
            r == self.title_len(),
            r < 0x1_0000_0000_0000_0000_0000,
    {
        proof {
            reveal_strlit("Mise Command Sequencer");
        }
        let title = APP_TITLE.unicode_len() as u128;
        let n = self.tasks.len() as u128;
        let h = self.current_visible_height as u128;
        if n > h {
            let first = self.scroll_offset as u128 + 1;
            let last = if self.scroll_offset as u128 + h < n {
                self.scroll_offset as u128 + h
            } else {
                n
            };
            let a = decimal_string(first).unicode_len() as u128;
            let b = decimal_string(last).unicode_len() as u128;
            let c = decimal_string(n).unicode_len() as u128;
            title + 5 + a + b + c
        } else {
            title
        }
    }

    /// Where the sequence controls start in the title row, and their width.
    pub fn calculate_sequence_controls_position(&self, table_area: &TableLayout) -> (r: Option<(u16, usize)>)
        ensures
            match self.controls_start(table_area.table_area) {
                Some(c) => r == Some((c as u16, CONTROLS_WIDTH as usize)),
                None => r is None,
            },
    {
        proof {
            reveal_strlit("[Run sequence]");
            reveal_strlit("[Add as task]");
            reveal_strlit("[Clear]");
        }
        let controls_width = (RUN_SEQUENCE_BUTTON_TEXT.unicode_len() + 1 + ADD_AS_TASK_BUTTON_TEXT.unicode_len() + 1
            + CLEAR_BUTTON_TEXT.unicode_len()) as u128;
        let title_offset = 3 + self.title_length();
        let area = table_area.table_area;
        let available = area.width as u128;
        let start = if title_offset + controls_width + 2 <= available {
            available - controls_width - 2
        } else {
            title_offset + 2
        };
        let col = area.x as u128 + start;
        if col + controls_width <= area.x as u128 + available && col <= u16::MAX as u128 {
            Some((col as u16, controls_width as usize))
        } else {
            None
        }
    }

    /// The task shown on screen row `row` (see `task_row`).
    pub(crate) fn task_at_row(&self, l: &TableLayout, row: u16) -> (r: Option<usize>)
        ensures
            match r {
                Some(k) => self.task_row(*l, row as int) == Some(k as int),
                None => self.task_row(*l, row as int) is None,
            },
    {
        let top = l.table_area.y as u32;
        if (row as u32) < top + 2 {
            return None;
        }
        let rel = (row as u32 - top - 2) as usize;
        if rel < self.tasks.len() && self.scroll_offset < self.tasks.len() - rel {
            Some(self.scroll_offset + rel)
        } else {
            None
        }
    }

    /// Resolves the cell (`col`, `row`) to the button under it (see `hit`).
    #[verifier::loop_isolation(false)]
    pub fn button_at(&self, row: u16, col: u16) -> (r: Option<ButtonType>)
        ensures
            r == self.hit(row as int, col as int),
    {
        if self.pending_delete_task.is_some() {
            return match self.delete_dialog_area {
                Some(area) => match get_dialog_button_at_position(area, row, col) {
                    Some(b) => Some(ButtonType::Dialog(b)),
                    None => None,
                },
                None => None,
            };
        }
        let l = match &self.table_layout {
            Some(l) => l,
            None => {
                return None;
            },
        };
        let ncols = l.column_rects.len();
        let c = col as u32;
        match &self.state {
            AppState::Renaming(name) => {
                match self.task_at_row(l, row) {
                    Some(k) => {
                        if ncols == 0 || !(self.tasks[k].name == *name) {
                            return None;
                        }
                        let actions = l.column_rects[ncols - 1];
                        if c < actions.x as u32 || c >= actions.x as u32 + actions.width as u32 {
                            return None;
                        }
                        let layout = ActionButtonLayout::new_with_mode(&actions, true);
                        match layout.get_button_at_position(col - actions.x) {
                            Some(b) => Some(ButtonType::Action { button: b, task_index: k }),
                            None => None,
                        }
                    },
                    None => None,
                }
            },
            _ => {
                if row == l.table_area.y {
                    return match self.calculate_sequence_controls_position(l) {
                        Some((start, width)) => {
                            if col >= start && (col as usize) < start as usize + width {
                                let layout = SequenceButtonLayout::new(0);
                                match layout.get_button_at_position(col - start) {
                                    Some(b) => Some(ButtonType::Sequence(b)),
                                    None => None,
                                }
                            } else {
                                None
                            }
                        },
                        None => None,
                    };
                }
                let k = match self.task_at_row(l, row) {
                    Some(k) => k,
                    None => {
                        return None;
                    },
                };
                let mut step: usize = 0;
                while step < 3
                    invariant
                        step <= 3,
                        ncols == l.column_rects@.len(),
                        c == col as u32,
                        forall|j: int| 1 <= j <= step ==> !(j < ncols && in_column(#[trigger] l.column_rects@[j], col as int)
                            && step_button_at(3, j - 1, col - l.column_rects@[j].x) is Some),
                    decreases 3 - step,
                {
                    if step + 1 < ncols {
                        let rect = l.column_rects[step + 1];
                        if c >= rect.x as u32 && c < rect.x as u32 + rect.width as u32 {
                            let layout = StepButtonLayout::new(&rect);
                            if layout.get_step_button_at_position(step, col - rect.x).is_some() {
                                assert(step_at(l.column_rects@, col as int) == Some(step));
                                return Some(ButtonType::Step { step_index: step, task_index: k });
                            }
                        }
                    }
                    step += 1;
                }
                assert(step_at(l.column_rects@, col as int) is None);
                if ncols == 0 {
                    return None;
                }
                let actions = l.column_rects[ncols - 1];
                if c < actions.x as u32 || c >= actions.x as u32 + actions.width as u32 {
                    return None;
                }
                let layout = ActionButtonLayout::new_with_mode(&actions, false);
                match layout.get_button_at_position(col - actions.x) {
                    Some(b) => Some(ButtonType::Action { button: b, task_index: k }),
                    None => None,
                }
            },
        }
    }
}

/// Hit-testing is exact: a cell that resolves to a button lies inside that
/// button's region, so a cell outside every region resolves to no button.
pub proof fn lemma_hit_in_region(app: App, row: int, col: int)
    ensures
        app.hit(row, col) matches Some(b) ==> app.in_region(b, row, col),
{
    assert(app.tasks.len() == app.tasks@.len());
}

/// Rows of the task table taken by its borders and header.
pub const TABLE_CHROME_ROWS: u16 = 3;

/// Width of the delete confirmation dialog on a wide screen.
pub const DIALOG_WIDTH: u16 = 60;

/// Height of the delete confirmation dialog.
pub const DIALOG_HEIGHT: u16 = 11;

/// Where the delete confirmation dialog is drawn on a screen of `screen`
/// size: centred, 60 cells wide (less on a narrow screen), 11 rows high.
pub fn dialog_area(screen: Rect) -> (r: Rect)
    ensures
        r.width == if screen.width >= 64 { 60 } else if screen.width >= 4 { screen.width - 4 } else { 0 },
        r.height == DIALOG_HEIGHT,
        r.x == (screen.width - r.width) / 2,
        r.y == if screen.height >= DIALOG_HEIGHT { (screen.height - DIALOG_HEIGHT) / 2 } else { 0 },
{
    let narrow: u16 = if screen.width >= 4 { screen.width - 4 } else { 0 };
    let width: u16 = if narrow < DIALOG_WIDTH { narrow } else { DIALOG_WIDTH };
    let y: u16 = if screen.height >= DIALOG_HEIGHT { (screen.height - DIALOG_HEIGHT) / 2 } else { 0 };
    Rect { x: (screen.width - width) / 2, y, width, height: DIALOG_HEIGHT }
}

impl App {
    /// Records the geometry of the task table drawn in `area`: the layout
    /// snapshot for hit-testing and the number of visible rows.
    pub fn update_table_layout(&mut self, area: Rect)
        ensures
            final(self).table_layout matches Some(l) && l.table_area == area
                && l.column_rects@.len() == NUM_STEPS + 2
                && (forall|i: int| 0 <= i < l.column_rects@.len() ==> #[trigger] l.column_rects@[i].y == area.y)
                && (forall|i: int|
                0 <= i < l.column_rects@.len() ==> area.x <= #[trigger] l.column_rects@[i].x
                    && l.column_rects@[i].x + l.column_rects@[i].width <= area.x + area.width),
            final(self).current_visible_height == if area.height >= TABLE_CHROME_ROWS {
                area.height - TABLE_CHROME_ROWS
            } else {
                0
            },
            *final(self) == (App {
                table_layout: final(self).table_layout,
                current_visible_height: final(self).current_visible_height,
                ..*old(self)
            }),
    {
        self.table_layout = Some(calculate_table_layout(area, NUM_STEPS));
        self.current_visible_height = if area.height >= TABLE_CHROME_ROWS {
            (area.height - TABLE_CHROME_ROWS) as usize
        } else {
            0
        };
    }

    /// Records that the output pane shows `available_height` lines, keeps
    /// the offset within the output, and returns the range of lines shown.
    pub fn visible_output_range(&mut self, available_height: usize) -> (r: (usize, usize))
        ensures
            final(self).current_output_visible_height == available_height,
            final(self).output_scroll_offset == if old(self).output_scroll_offset < max_scroll_of(
                old(self).task_output@.len() as int,
                available_height as int,
            ) {
                old(self).output_scroll_offset as int
            } else {
                max_scroll_of(old(self).task_output@.len() as int, available_height as int)
            },
            r.0 == final(self).output_scroll_offset,
            r.1 == if r.0 + available_height < old(self).task_output@.len() {
                r.0 + available_height
            } else {
                old(self).task_output@.len() as int
            },
            *final(self) == (App {
                current_output_visible_height: available_height,
                output_scroll_offset: final(self).output_scroll_offset,
                ..*old(self)
            }),
    {
        self.current_output_visible_height = available_height;
        let total = self.task_output.len();
        let max: usize = if total > available_height && available_height > 0 {
            total - available_height
        } else {
            0
        };
        if self.output_scroll_offset > max {
            self.output_scroll_offset = max;
        }
        let start = self.output_scroll_offset;
        let end = if available_height < total - start {
            start + available_height
        } else {
            total
        };
        (start, end)
    }

    /// The title of the task table: the application title and, when the
    /// list does not fit, the visible range ` (first-last/total)`.
    pub fn table_title(&self) -> (r: String)
        ensures
            r@ == self.title_text(),
            r@.len() == self.title_len(),
    {
        proof {
            reveal_strlit("Mise Command Sequencer");
            reveal_strlit(" (");
            reveal_strlit("-");
            reveal_strlit("/");
            reveal_strlit(")");
        }
        let mut title = String::from_str(APP_TITLE);
        let n = self.tasks.len() as u128;
        let h = self.current_visible_height as u128;
        if n > h {
            let first = self.scroll_offset as u128 + 1;
            let last = if self.scroll_offset as u128 + h < n {
                self.scroll_offset as u128 + h
            } else {
                n
            };
            title.append(" (");
            title.append(decimal_string(first).as_str());
            title.append("-");
            title.append(decimal_string(last).as_str());
            title.append("/");
            title.append(decimal_string(n).as_str());
            title.append(")");
        }
        title
    }
}

/// The largest output offset for a pane of `height` lines (0 for a pane
/// without lines).
pub open spec fn max_scroll_of(len: int, height: int) -> int {
    if len > height && height > 0 {
        len - height
    } else {
        0
    }
}


/// No two columns share a screen column.
pub open spec fn columns_disjoint(cols: Seq<Rect>) -> bool {
    forall|i: int, j: int|
        0 <= i < cols.len() && 0 <= j < cols.len() && i != j ==> #[trigger] cols[i].x + cols[i].width
            <= #[trigger] cols[j].x || cols[j].x + cols[j].width <= cols[i].x
}

/// With columns that do not overlap, the cell just right of a step toggle
/// (inside its step column) resolves to no button.
pub proof fn lemma_past_step_toggle_inert(app: App, row: int, col: int, k: int)
    requires
        app.pending_delete_task is None,
        !(app.state is Renaming),
        app.table_layout matches Some(l) && {
            &&& l.column_rects@.len() == NUM_STEPS + 2
            &&& columns_disjoint(l.column_rects@)
            &&& 1 <= k <= 3
            &&& l.column_rects@[k].width > 7
            &&& col == l.column_rects@[k].x + 7
            &&& row != l.table_area.y
        },
    ensures
        app.hit(row, col) is None,
{
    let l = app.table_layout->0;
    let cols = l.column_rects@;
    assert forall|j: int| 0 <= j < cols.len() && j != k implies !in_column(#[trigger] cols[j], col) by {
        assert(cols[k].x + cols[k].width <= cols[j].x || cols[j].x + cols[j].width <= cols[k].x);
    }
    assert(!in_column(cols[cols.len() - 1], col));
}

} // verus!
