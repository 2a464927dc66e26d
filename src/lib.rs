//! Interaction engine of a terminal console for composing and running
//! multi-step task sequences: sequence orchestration, viewport scrolling,
//! hit-testing of on-screen buttons and the application state machine.

pub mod app;
pub mod button_layout;
pub mod client;
pub mod constants;
pub mod hit_test;
pub mod input;
pub mod layout;
pub mod orchestrator;
pub mod run;
pub mod sequence;
pub mod task;
pub mod text;
pub mod viewport;

pub use sequence::{SequenceEvent, SequenceState};
pub use task::{MiseTask, MiseTaskInfo};
pub use client::MiseClient;
pub use text::ensure_ansi_reset;
pub use app::{App, AppEvent, AppState, Effect, KeyCode, KeyInput, MouseButton, ScrollDirection};
pub use button_layout::{
    get_dialog_button_at_position, ActionButton, ActionButtonLayout, ButtonHoverState, ButtonType,
    DialogButton, Rect, SequenceButton, SequenceButtonLayout, StepButton, StepButtonLayout,
};
pub use layout::{calculate_table_layout, TableLayout};
