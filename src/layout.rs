use vstd::prelude::*;

use crate::button_layout::Rect;

verus! {

/// A width rule for one column of the task table.
#[derive(Clone, Copy, Debug, PartialEq, Eq, Structural)]
pub enum ColumnConstraint {
    /// At least this many cells.
    Min(u16),
    /// Exactly this many cells.
    Length(u16),
}

/// Snapshot of the task table's geometry, taken at the last render and
/// used to resolve the next input events.
pub struct TableLayout {
    pub table_area: Rect,
    pub column_rects: Vec<Rect>,
}

/// Relies on ratatui's `Layout::horizontal(..).split(..)`: one rectangle per
/// constraint, each on the area's first row and within the area's columns
/// (every solver variable is held inside the area by a required constraint).
#[verifier::external_body]
fn split_horizontal(area: Rect, constraints: &Vec<ColumnConstraint>) -> (r: Vec<Rect>)
    ensures
        r@.len() == constraints@.len(),
        forall|i: int| 0 <= i < r@.len() ==> #[trigger] r@[i].y == area.y,
        forall|i: int| 0 <= i < r@.len() ==> area.x <= #[trigger] r@[i].x && r@[i].x + r@[i].width <= area.x + area.width,
{
    let rules = constraints.iter().map(|c| match c {
        ColumnConstraint::Min(n) => ratatui::layout::Constraint::Min(*n),
        ColumnConstraint::Length(n) => ratatui::layout::Constraint::Length(*n),
    });
    let outer = ratatui::layout::Rect::new(area.x, area.y, area.width, area.height);
    let parts = ratatui::layout::Layout::horizontal(rules).split(outer);
    parts.iter().map(|p| Rect { x: p.x, y: p.y, width: p.width, height: p.height }).collect()
}

/// Minimum width of the task-name and actions columns.
pub const WIDE_COLUMN_MIN: u16 = 20;

/// Width of one step column.
pub const STEP_COLUMN_WIDTH: u16 = 8;

/// The column rules of the task table: the name column, one column per
/// step, and the actions column. The columns are laid out by ratatui.
pub open spec fn table_constraints(num_steps: nat) -> Seq<ColumnConstraint> {
    seq![ColumnConstraint::Min(WIDE_COLUMN_MIN)] + Seq::new(
        num_steps,
        |i: int| ColumnConstraint::Length(STEP_COLUMN_WIDTH),
    ) + seq![ColumnConstraint::Min(WIDE_COLUMN_MIN)]
}

/// Splits the table `area` into its columns.
pub fn calculate_table_layout(area: Rect, num_steps: usize) -> (r: TableLayout)
    requires
        num_steps < usize::MAX - 1,
    ensures
        r.table_area == area,
        r.column_rects@.len() == num_steps + 2,
        forall|i: int| 0 <= i < r.column_rects@.len() ==> #[trigger] r.column_rects@[i].y == area.y,
        forall|i: int|
            0 <= i < r.column_rects@.len() ==> area.x <= #[trigger] r.column_rects@[i].x
                && r.column_rects@[i].x + r.column_rects@[i].width <= area.x + area.width,
{
    let mut constraints: Vec<ColumnConstraint> = Vec::new();
    constraints.push(ColumnConstraint::Min(WIDE_COLUMN_MIN));
    let mut i: usize = 0;
    while i < num_steps
        invariant
            i <= num_steps,
            constraints@ == seq![ColumnConstraint::Min(WIDE_COLUMN_MIN)] + Seq::new(
                i as nat,
                |k: int| ColumnConstraint::Length(STEP_COLUMN_WIDTH),
            ),
        decreases num_steps - i,
    {
        constraints.push(ColumnConstraint::Length(STEP_COLUMN_WIDTH));
        i += 1;
        assert(constraints@ =~= seq![ColumnConstraint::Min(WIDE_COLUMN_MIN)] + Seq::new(
            i as nat,
            |k: int| ColumnConstraint::Length(STEP_COLUMN_WIDTH),
        ));
    }
    constraints.push(ColumnConstraint::Min(WIDE_COLUMN_MIN));
    assert(constraints@ =~= table_constraints(num_steps as nat));
    let column_rects = split_horizontal(area, &constraints);
    TableLayout { table_area: area, column_rects }
}

} // verus!
