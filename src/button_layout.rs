use vstd::prelude::*;
use vstd::string::StrSliceExecFns;

use crate::constants::{
    CANCEL_BUTTON_TEXT, DELETE_BUTTON_TEXT, EDIT_BUTTON_TEXT, RENAME_BUTTON_TEXT, RUN_BUTTON_TEXT,
    CAT_BUTTON_TEXT, SAVE_BUTTON_TEXT, RUN_SEQUENCE_BUTTON_TEXT, ADD_AS_TASK_BUTTON_TEXT,
    CLEAR_BUTTON_TEXT, CANCEL_DIALOG_BUTTON_TEXT, DELETE_DIALOG_BUTTON_TEXT, STEP_1_TEXT,
};

verus! {

/// A rectangle of screen cells.
#[derive(Clone, Copy, Debug, PartialEq, Eq, Structural)]
pub struct Rect {
    pub x: u16,
    pub y: u16,
    pub width: u16,
    pub height: u16,
}

impl Rect {
    /// The cell (`col`, `row`) lies inside the rectangle.
    pub open spec fn contains(self, row: int, col: int) -> bool {
        self.x <= col < self.x + self.width && self.y <= row < self.y + self.height
    }
}

/// First and last column of a button, both inclusive.
pub type ButtonRange = (u16, u16);

pub open spec fn in_range(r: ButtonRange, pos: int) -> bool {
    r.0 <= pos <= r.1
}

#[derive(Clone, Copy, Debug, PartialEq, Eq, Structural)]
pub enum ActionButton {
    Run,
    Cat,
    Edit,
    Rename,
    Delete,
    Save,
    Cancel,
}

#[derive(Clone, Copy, Debug, PartialEq, Eq, Structural)]
pub enum SequenceButton {
    RunSequence,
    AddAsTask,
    Clear,
}

#[derive(Clone, Copy, Debug, PartialEq, Eq, Structural)]
pub enum DialogButton {
    Delete,
    Cancel,
}

#[derive(Clone, Copy, Debug, PartialEq, Eq, Structural)]
pub enum StepButton {
    Step1,
    Step2,
    Step3,
}

/// A logical button that a screen cell can resolve to.
#[derive(Clone, Copy, Debug, PartialEq, Eq, Structural)]
pub enum ButtonType {
    Action { button: ActionButton, task_index: usize },
    Sequence(SequenceButton),
    Dialog(DialogButton),
    Step { step_index: usize, task_index: usize },
}

/// Where the buttons of a row start when laid out one after another with
/// one cell between neighbours: `offset(widths, i)` is the start of button
/// `i` relative to the first.
pub open spec fn offset(widths: Seq<nat>, i: int) -> int
    decreases i,
{
    if i <= 0 {
        0
    } else {
        offset(widths, i - 1) + widths[i - 1] + 1
    }
}

/// The display widths of `texts` (all of them ASCII).
pub open spec fn text_widths(texts: Seq<&str>) -> Seq<nat> {
    texts.map_values(|t: &str| t@.len())
}

/// Places the buttons `button_texts` one after another from `start_position`
/// with one cell between neighbours.
pub fn calculate_sequential_button_ranges(button_texts: &[&str], start_position: u16) -> (r: Vec<ButtonRange>)
    requires
        forall|i: int| 0 <= i < button_texts@.len() ==> #[trigger] button_texts@[i]@.len() >= 1,
        start_position + offset(text_widths(button_texts@), button_texts@.len() as int) <= u16::MAX,
    ensures
        r@.len() == button_texts@.len(),
        forall|i: int|
            0 <= i < r@.len() ==> {
                &&& (#[trigger] r@[i]).0 == start_position + offset(text_widths(button_texts@), i)
                &&& r@[i].1 == r@[i].0 + button_texts@[i]@.len() - 1
            },
{
    let ghost widths = text_widths(button_texts@);
    let mut ranges: Vec<ButtonRange> = Vec::new();
    let mut current_pos: u16 = start_position;
    let n = button_texts.len();
    let mut i: usize = 0;
    while i < n
        invariant
            n == button_texts@.len(),
            widths == text_widths(button_texts@),
            forall|k: int| 0 <= k < n ==> #[trigger] button_texts@[k]@.len() >= 1,
            start_position + offset(widths, n as int) <= u16::MAX,
            i <= n,
            ranges@.len() == i,
            i < n ==> current_pos == start_position + offset(widths, i as int),
            forall|k: int|
                0 <= k < i ==> {
                    &&& (#[trigger] ranges@[k]).0 == start_position + offset(widths, k)
                    &&& ranges@[k].1 == ranges@[k].0 + button_texts@[k]@.len() - 1
                },
        decreases n - i,
    {
        proof {
            lemma_offset_mono(widths, i as int + 1, n as int);
            assert(widths[i as int] == button_texts@[i as int]@.len());
        }
        let width = button_texts[i].unicode_len();
        let start = current_pos;
        let end = start + (width as u16) - 1;
        ranges.push((start, end));
        if i + 1 < n {
            current_pos = end + 1 + 1;
        }
        i += 1;
    }
    ranges
}

proof fn lemma_offset_mono(widths: Seq<nat>, i: int, j: int)
    requires
        0 <= i <= j,
    ensures
        offset(widths, i) <= offset(widths, j),
    decreases j - i,
{
    if i < j {
        lemma_offset_mono(widths, i, j - 1);
    }
}

/// The button of the first range that holds `position`.
fn find_button_at_position<T: Copy>(ranges: &[ButtonRange], buttons: &[T], position: u16) -> (r: Option<T>)
    ensures
        match r {
            Some(b) => exists|i: int|
                0 <= i < ranges@.len() && i < buttons@.len() && in_range(#[trigger] ranges@[i], position as int)
                    && b == buttons@[i] && forall|j: int| 0 <= j < i ==> !in_range(#[trigger] ranges@[j], position as int),
            None => forall|i: int|
                0 <= i < ranges@.len() && i < buttons@.len() ==> !in_range(#[trigger] ranges@[i], position as int),
        },
{
    let mut i: usize = 0;
    while i < ranges.len() && i < buttons.len()
        invariant
            i <= ranges@.len(),
            forall|j: int| 0 <= j < i ==> !in_range(#[trigger] ranges@[j], position as int),
        decreases ranges@.len() - i,
    {
        let range = ranges[i];
        if range.0 <= position && position <= range.1 {
            return Some(buttons[i]);
        }
        i += 1;
    }
    None
}

/// The action button under relative column `col` of the actions column.
/// In rename mode only Save and Cancel are laid out.
pub open spec fn action_button_at(rename_mode: bool, col: int) -> Option<ActionButton> {
    if rename_mode {
        if 0 <= col <= 5 {
            Some(ActionButton::Save)
        } else if 7 <= col <= 14 {
            Some(ActionButton::Cancel)
        } else {
            None
        }
    } else {
        if 0 <= col <= 4 {
            Some(ActionButton::Run)
        } else if 6 <= col <= 10 {
            Some(ActionButton::Cat)
        } else if 12 <= col <= 17 {
            Some(ActionButton::Edit)
        } else if 19 <= col <= 26 {
            Some(ActionButton::Rename)
        } else if 28 <= col <= 32 {
            Some(ActionButton::Delete)
        } else {
            None
        }
    }
}

/// The range of `button` in the actions column, `(0, 0)` when the mode
/// does not lay it out.
pub open spec fn action_range(rename_mode: bool, button: ActionButton) -> ButtonRange {
    match (rename_mode, button) {
        (false, ActionButton::Run) => (0, 4),
        (false, ActionButton::Cat) => (6, 10),
        (false, ActionButton::Edit) => (12, 17),
        (false, ActionButton::Rename) => (19, 26),
        (false, ActionButton::Delete) => (28, 32),
        (true, ActionButton::Save) => (0, 5),
        (true, ActionButton::Cancel) => (7, 14),
        _ => (0, 0),
    }
}

/// Layout of the action buttons of one task row.
pub struct ActionButtonLayout {
    ranges: Vec<ButtonRange>,
    buttons: Vec<ActionButton>,
    rename_mode: bool,
}

impl ActionButtonLayout {
    #[verifier::type_invariant]
    spec fn inv(self) -> bool {
        if self.rename_mode {
            &&& self.ranges@ == seq![(0u16, 5u16), (7u16, 14u16)]
            &&& self.buttons@ == seq![ActionButton::Save, ActionButton::Cancel]
        } else {
            &&& self.ranges@ == seq![(0u16, 4u16), (6u16, 10u16), (12u16, 17u16), (19u16, 26u16), (28u16, 32u16)]
            &&& self.buttons@ == seq![
                ActionButton::Run,
                ActionButton::Cat,
                ActionButton::Edit,
                ActionButton::Rename,
                ActionButton::Delete,
            ]
        }
    }

    /// Whether the layout shows only Save and Cancel.
    pub closed spec fn is_rename_mode(self) -> bool {
        self.rename_mode
    }

    /// The layout of a row that is not being renamed.
    pub fn new(actions_rect: &Rect) -> (r: Self)
        ensures
            !r.is_rename_mode(),
    {
        Self::new_with_mode(actions_rect, false)
    }

    pub fn new_with_mode(actions_rect: &Rect, rename_mode: bool) -> (r: Self)
        ensures
            r.is_rename_mode() == rename_mode,
    {
        proof {
            reveal_strlit("[run]");
            reveal_strlit("[cat]");
            reveal_strlit("[edit]");
            reveal_strlit("[rename]");
            reveal_strlit("[del]");
            reveal_strlit("[save]");
            reveal_strlit("[cancel]");
        }
        if rename_mode {
            let texts: [&str; 2] = [SAVE_BUTTON_TEXT, CANCEL_BUTTON_TEXT];
            let ghost w = text_widths(texts@);
            assert(w[0] == 6 && w[1] == 8);
            assert(offset(w, 2) == 16) by {
                reveal_with_fuel(offset, 3);
            }
            let ranges = calculate_sequential_button_ranges(&texts, 0);
            proof {
                reveal_with_fuel(offset, 2);
            }
            assert(ranges@ =~= seq![(0u16, 5u16), (7u16, 14u16)]);
            let buttons = vec![ActionButton::Save, ActionButton::Cancel];
            assert(buttons@ =~= seq![ActionButton::Save, ActionButton::Cancel]);
            ActionButtonLayout { ranges, buttons, rename_mode }
        } else {
            let texts: [&str; 5] = [
                RUN_BUTTON_TEXT,
                CAT_BUTTON_TEXT,
                EDIT_BUTTON_TEXT,
                RENAME_BUTTON_TEXT,
                DELETE_BUTTON_TEXT,
            ];
            let ghost w = text_widths(texts@);
            assert(w[0] == 5 && w[1] == 5 && w[2] == 6 && w[3] == 8 && w[4] == 5);
            assert(offset(w, 5) == 34) by {
                reveal_with_fuel(offset, 6);
            }
            let ranges = calculate_sequential_button_ranges(&texts, 0);
            proof {
                reveal_with_fuel(offset, 5);
            }
            assert(ranges@ =~= seq![(0u16, 4u16), (6u16, 10u16), (12u16, 17u16), (19u16, 26u16), (28u16, 32u16)]);
            let buttons = vec![
                ActionButton::Run,
                ActionButton::Cat,
                ActionButton::Edit,
                ActionButton::Rename,
                ActionButton::Delete,
            ];
            assert(buttons@ =~= seq![
                ActionButton::Run,
                ActionButton::Cat,
                ActionButton::Edit,
                ActionButton::Rename,
                ActionButton::Delete,
            ]);
            ActionButtonLayout { ranges, buttons, rename_mode }
        }
    }

    /// The button under relative column `relative_col`.
    pub fn get_button_at_position(&self, relative_col: u16) -> (r: Option<ActionButton>)
        ensures
            r == action_button_at(self.is_rename_mode(), relative_col as int),
    {
        proof {
            use_type_invariant(self);
        }
        find_button_at_position(self.ranges.as_slice(), self.buttons.as_slice(), relative_col)
    }

    fn range_of(&self, i: usize, in_rename_mode: bool) -> (r: ButtonRange)
        requires
            in_rename_mode ==> i < 2,
            !in_rename_mode ==> i < 5,
        ensures
            self.is_rename_mode() == in_rename_mode ==> r == self.ranges@[i as int],
            self.is_rename_mode() != in_rename_mode ==> r == (0u16, 0u16),
    {
        proof {
            use_type_invariant(self);
        }
        if self.rename_mode == in_rename_mode {
            self.ranges[i]
        } else {
            (0, 0)
        }
    }

    pub fn run_range(&self) -> (r: ButtonRange)
        ensures
            r == action_range(self.is_rename_mode(), ActionButton::Run),
    {
        proof {
            use_type_invariant(self);
        }
        self.range_of(0, false)
    }

    pub fn cat_range(&self) -> (r: ButtonRange)
        ensures
            r == action_range(self.is_rename_mode(), ActionButton::Cat),
    {
        proof {
            use_type_invariant(self);
        }
        self.range_of(1, false)
    }

    pub fn edit_range(&self) -> (r: ButtonRange)
        ensures
            r == action_range(self.is_rename_mode(), ActionButton::Edit),
    {
        proof {
            use_type_invariant(self);
        }
        self.range_of(2, false)
    }

    pub fn rename_range(&self) -> (r: ButtonRange)
        ensures
            r == action_range(self.is_rename_mode(), ActionButton::Rename),
    {
        proof {
            use_type_invariant(self);
        }
        self.range_of(3, false)
    }

    pub fn delete_range(&self) -> (r: ButtonRange)
        ensures
            r == action_range(self.is_rename_mode(), ActionButton::Delete),
    {
        proof {
            use_type_invariant(self);
        }
        self.range_of(4, false)
    }

    pub fn save_range(&self) -> (r: ButtonRange)
        ensures
            r == action_range(self.is_rename_mode(), ActionButton::Save),
    {
        proof {
            use_type_invariant(self);
        }
        self.range_of(0, true)
    }

    pub fn cancel_range(&self) -> (r: ButtonRange)
        ensures
            r == action_range(self.is_rename_mode(), ActionButton::Cancel),
    {
        proof {
            use_type_invariant(self);
        }
        self.range_of(1, true)
    }
}

/// The sequence-control button under relative column `col`.
pub open spec fn sequence_button_at(col: int) -> Option<SequenceButton> {
    if 0 <= col <= 13 {
        Some(SequenceButton::RunSequence)
    } else if 15 <= col <= 27 {
        Some(SequenceButton::AddAsTask)
    } else if 29 <= col <= 35 {
        Some(SequenceButton::Clear)
    } else {
        None
    }
}

/// Layout of the sequence controls in the title row.
pub struct SequenceButtonLayout {
    ranges: Vec<ButtonRange>,
    buttons: Vec<SequenceButton>,
}

impl SequenceButtonLayout {
    #[verifier::type_invariant]
    spec fn inv(self) -> bool {
        &&& self.ranges@ == seq![(0u16, 13u16), (15u16, 27u16), (29u16, 35u16)]
        &&& self.buttons@ == seq![SequenceButton::RunSequence, SequenceButton::AddAsTask, SequenceButton::Clear]
    }

    /// The layout; columns are relative to the start of the controls.
    pub fn new(controls_start_col: u16) -> (r: Self) {
        proof {
            reveal_strlit("[Run sequence]");
            reveal_strlit("[Add as task]");
            reveal_strlit("[Clear]");
        }
        let texts: [&str; 3] = [RUN_SEQUENCE_BUTTON_TEXT, ADD_AS_TASK_BUTTON_TEXT, CLEAR_BUTTON_TEXT];
        let ghost w = text_widths(texts@);
        assert(w[0] == 14 && w[1] == 13 && w[2] == 7);
        assert(offset(w, 3) == 37) by {
            reveal_with_fuel(offset, 4);
        }
        let ranges = calculate_sequential_button_ranges(&texts, 0);
        proof {
            reveal_with_fuel(offset, 3);
        }
        assert(ranges@ =~= seq![(0u16, 13u16), (15u16, 27u16), (29u16, 35u16)]);
        let buttons = vec![SequenceButton::RunSequence, SequenceButton::AddAsTask, SequenceButton::Clear];
        assert(buttons@ =~= seq![SequenceButton::RunSequence, SequenceButton::AddAsTask, SequenceButton::Clear]);
        SequenceButtonLayout { ranges, buttons }
    }

    /// The button under relative column `relative_col`.
    pub fn get_button_at_position(&self, relative_col: u16) -> (r: Option<SequenceButton>)
        ensures
            r == sequence_button_at(relative_col as int),
    {
        proof {
            use_type_invariant(self);
        }
        find_button_at_position(self.ranges.as_slice(), self.buttons.as_slice(), relative_col)
    }

    pub fn run_sequence_range(&self) -> (r: ButtonRange)
        ensures
            r == (0u16, 13u16),
    {
        proof {
            use_type_invariant(self);
        }
        self.ranges[0]
    }

    pub fn add_as_task_range(&self) -> (r: ButtonRange)
        ensures
            r == (15u16, 27u16),
    {
        proof {
            use_type_invariant(self);
        }
        self.ranges[1]
    }

    pub fn clear_range(&self) -> (r: ButtonRange)
        ensures
            r == (29u16, 35u16),
    {
        proof {
            use_type_invariant(self);
        }
        self.ranges[2]
    }
}

/// Width of each dialog button label.
pub const DIALOG_BUTTON_WIDTH: u16 = 8;

/// Cells between the two dialog buttons.
pub const DIALOG_BUTTON_GAP: u16 = 5;

/// First column of the Delete button of a dialog drawn in `area`: the two
/// buttons are centred in the area inside the border.
pub open spec fn dialog_delete_start(area: Rect) -> int {
    let content_width: int = if area.width >= 4 { area.width - 4 } else { 0 };
    let total: int = 2 * DIALOG_BUTTON_WIDTH + DIALOG_BUTTON_GAP;
    let lead: int = if content_width >= total { (content_width - total) / 2 } else { 0 };
    area.x + 2 + lead + 1
}

/// The dialog button under the cell (`col`, `row`) of a dialog drawn in
/// `area`. The buttons sit on the last row inside the border.
pub open spec fn dialog_button_at(area: Rect, row: int, col: int) -> Option<DialogButton> {
    let delete_start = dialog_delete_start(area);
    let cancel_start = delete_start + DIALOG_BUTTON_WIDTH + DIALOG_BUTTON_GAP;
    if !area.contains(row, col) || row != area.y + area.height - 2 {
        None
    } else if delete_start <= col < delete_start + DIALOG_BUTTON_WIDTH {
        Some(DialogButton::Delete)
    } else if cancel_start <= col < cancel_start + DIALOG_BUTTON_WIDTH {
        Some(DialogButton::Cancel)
    } else {
        None
    }
}

/// Resolves a click or hover on a confirmation dialog drawn in `dialog_area`.
pub fn get_dialog_button_at_position(dialog_area: Rect, click_row: u16, click_col: u16) -> (r: Option<DialogButton>)
    ensures
        r == dialog_button_at(dialog_area, click_row as int, click_col as int),
{
    proof {
        reveal_strlit("[Delete]");
        reveal_strlit("[Cancel]");
    }
    let delete_len = DELETE_DIALOG_BUTTON_TEXT.unicode_len() as u32;
    let cancel_len = CANCEL_DIALOG_BUTTON_TEXT.unicode_len() as u32;
    let row = click_row as u32;
    let col = click_col as u32;
    let x = dialog_area.x as u32;
    let y = dialog_area.y as u32;
    let width = dialog_area.width as u32;
    let height = dialog_area.height as u32;
    if row < y || row >= y + height || col < x || col >= x + width {
        return None;
    }
    if row + 2 != y + height {
        return None;
    }
    let content_width: u32 = if width >= 4 { width - 4 } else { 0 };
    let gap = DIALOG_BUTTON_GAP as u32;
    let total = delete_len + gap + cancel_len;
    let lead: u32 = if content_width >= total { (content_width - total) / 2 } else { 0 };
    let delete_start = x + 2 + lead + 1;
    let delete_end = delete_start + delete_len;
    let cancel_start = delete_end + gap;
    let cancel_end = cancel_start + cancel_len;
    if col >= delete_start && col < delete_end {
        Some(DialogButton::Delete)
    } else if col >= cancel_start && col < cancel_end {
        Some(DialogButton::Cancel)
    } else {
        None
    }
}

/// The step column under relative column `col` of the column of step
/// `step_index`, when such a step exists.
pub open spec fn step_button_at(num_steps: int, step_index: int, col: int) -> Option<usize> {
    if step_index < num_steps && 0 <= col <= 6 {
        Some(step_index as usize)
    } else {
        None
    }
}

/// Layout of the step toggle in one step column; all steps share it.
pub struct StepButtonLayout {
    range: ButtonRange,
    num_steps: usize,
}

impl StepButtonLayout {
    #[verifier::type_invariant]
    spec fn inv(self) -> bool {
        self.range == (0u16, 6u16) && self.num_steps == 3
    }

    pub closed spec fn steps(self) -> int {
        self.num_steps as int
    }

    pub fn new(step_rect: &Rect) -> (r: Self)
        ensures
            r.steps() == 3,
    {
        proof {
            reveal_strlit("[  1  ]");
        }
        let width = STEP_1_TEXT.unicode_len() as u16;
        StepButtonLayout { range: (0, width - 1), num_steps: 3 }
    }

    /// The step whose toggle lies under relative column `relative_col` of
    /// the column of step `step_index`.
    pub fn get_step_button_at_position(&self, step_index: usize, relative_col: u16) -> (r: Option<usize>)
        ensures
            r == step_button_at(self.steps(), step_index as int, relative_col as int),
    {
        proof {
            use_type_invariant(self);
        }
        if step_index >= self.num_steps {
            return None;
        }
        if self.range.0 <= relative_col && relative_col <= self.range.1 {
            Some(step_index)
        } else {
            None
        }
    }

    pub fn step_1_range(&self) -> (r: ButtonRange)
        ensures
            r == (0u16, 6u16),
    {
        proof {
            use_type_invariant(self);
        }
        self.range
    }

    pub fn step_2_range(&self) -> (r: ButtonRange)
        ensures
            r == (0u16, 6u16),
    {
        proof {
            use_type_invariant(self);
        }
        self.range
    }

    pub fn step_3_range(&self) -> (r: ButtonRange)
        ensures
            r == (0u16, 6u16),
    {
        proof {
            use_type_invariant(self);
        }
        self.range
    }
}

/// The button under the mouse and the cell it was found at.
#[derive(Clone, Copy, Debug, PartialEq, Eq, Structural)]
pub struct ButtonHoverState {
    pub button_type: ButtonType,
    pub row: u16,
    pub col: u16,
}

impl ButtonHoverState {
    pub fn new(button_type: ButtonType, row: u16, col: u16) -> (r: Self)
        ensures
            r == (ButtonHoverState { button_type, row, col }),
    {
        ButtonHoverState { button_type, row, col }
    }
}

/// Chooses button styles from hover and selection state; the styles
/// themselves belong to the renderer.
pub struct ButtonStyleManager;

} // verus!
