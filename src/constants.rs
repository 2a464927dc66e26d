use vstd::prelude::*;

verus! {

pub const RUN_BUTTON_TEXT: &'static str = "[run]";

pub const CAT_BUTTON_TEXT: &'static str = "[cat]";

pub const EDIT_BUTTON_TEXT: &'static str = "[edit]";

pub const RENAME_BUTTON_TEXT: &'static str = "[rename]";

pub const DELETE_BUTTON_TEXT: &'static str = "[del]";

pub const SAVE_BUTTON_TEXT: &'static str = "[save]";

pub const CANCEL_BUTTON_TEXT: &'static str = "[cancel]";

pub const RUN_SEQUENCE_BUTTON_TEXT: &'static str = "[Run sequence]";

pub const ADD_AS_TASK_BUTTON_TEXT: &'static str = "[Add as task]";

pub const CLEAR_BUTTON_TEXT: &'static str = "[Clear]";

/// Gap between neighbouring buttons.
pub const BUTTON_SPACING: &'static str = " ";

pub const APP_TITLE: &'static str = "Mise Command Sequencer";

pub const DELETE_DIALOG_BUTTON_TEXT: &'static str = "[Delete]";

pub const CANCEL_DIALOG_BUTTON_TEXT: &'static str = "[Cancel]";

pub const DELETE_DIALOG_TITLE: &'static str = " Confirm Deletion ";

pub const DELETE_DIALOG_QUESTION_PREFIX: &'static str = "Delete task ";

pub const DELETE_DIALOG_QUESTION_SUFFIX: &'static str = "?";

pub const DELETE_DIALOG_WARNING: &'static str = "This cannot be undone.";

pub const DELETE_DIALOG_VERSION_CONTROL_TIP: &'static str = "Keep your tasks under version control.";

pub const DELETE_DIALOG_INSTRUCTIONS: &'static str = "Press ";

pub const DELETE_DIALOG_DELETE_KEY: &'static str = "Y";

pub const DELETE_DIALOG_DELETE_ACTION: &'static str = " to delete or ";

pub const DELETE_DIALOG_CANCEL_KEYS: &'static str = "N";

pub const DELETE_DIALOG_CANCEL_KEYS_ALT: &'static str = "ESC";

pub const DELETE_DIALOG_CANCEL_ACTION: &'static str = " to cancel";

pub const STEP_1_TEXT: &'static str = "[  1  ]";

pub const STEP_2_TEXT: &'static str = "[  2  ]";

pub const STEP_3_TEXT: &'static str = "[  3  ]";

pub const STEP_DISABLED_TEXT: &'static str = "[     ]";

pub const TASK_OUTPUT_TITLE: &'static str = "Task Output";

pub const CONTROLS_TITLE: &'static str = "Controls";

} // verus!
