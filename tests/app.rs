use std::collections::HashMap;

use mise_sequencer::hit_test::dialog_area;
use mise_sequencer::input::MoveFilter;
use mise_sequencer::viewport::{ensure_visible, next_selection, previous_selection};
use mise_sequencer::{
    App, AppEvent, AppState, ButtonType, DialogButton, Effect, KeyCode, KeyInput, MiseClient,
    MiseTask, MiseTaskInfo, MouseButton, Rect, ScrollDirection, SequenceButton, SequenceEvent,
    TableLayout,
};

fn create_test_app() -> App {
    App::new()
}

fn tasks(names: &[&str]) -> Vec<MiseTask> {
    names
        .iter()
        .map(|n| MiseTask::new(n.to_string(), "mise.toml".to_string()))
        .collect()
}

fn key(code: KeyCode) -> KeyInput {
    KeyInput {
        code,
        shift: false,
        control: false,
    }
}

#[test]
fn test_app_new() {
    let app = App::new();

    assert_eq!(app.tasks.len(), 0);
    assert_eq!(app.selected_task, 0);
    assert_eq!(app.scroll_offset, 0);
    assert_eq!(app.state, AppState::SequenceBuilder);
    assert!(app.task_info.is_none());
    assert_eq!(app.task_output.len(), 0);
    assert!(!app.should_quit);
    assert!(!app.has_running_handle);
    assert_eq!(app.sequence_state.num_steps, 3);
    assert!(app.table_layout.is_none());
    assert!(app.button_hover_state.is_none());
    assert_eq!(app.current_visible_height, 0);
}

#[test]
fn test_should_quit() {
    let mut app = create_test_app();

    assert!(!app.should_quit());

    app.should_quit = true;
    assert!(app.should_quit());
}

#[test]
fn test_select_next_empty_list() {
    let mut app = create_test_app();

    app.select_next();
    assert_eq!(app.selected_task, 0);
}

#[test]
fn test_select_next_with_tasks() {
    let mut app = create_test_app();
    app.tasks = vec![
        MiseTask::new("task1".to_string(), "source1".to_string()),
        MiseTask::new("task2".to_string(), "source2".to_string()),
        MiseTask::new("task3".to_string(), "source3".to_string()),
    ];

    assert_eq!(app.selected_task, 0);

    app.select_next();
    assert_eq!(app.selected_task, 1);

    app.select_next();
    assert_eq!(app.selected_task, 2);

    app.select_next();
    assert_eq!(app.selected_task, 0);
}

#[test]
fn test_select_previous_empty_list() {
    let mut app = create_test_app();

    app.select_previous();
    assert_eq!(app.selected_task, 0);
}

#[test]
fn test_select_previous_with_tasks() {
    let mut app = create_test_app();
    app.tasks = vec![
        MiseTask::new("task1".to_string(), "source1".to_string()),
        MiseTask::new("task2".to_string(), "source2".to_string()),
        MiseTask::new("task3".to_string(), "source3".to_string()),
    ];
    app.selected_task = 1;

    app.select_previous();
    assert_eq!(app.selected_task, 0);

    app.select_previous();
    assert_eq!(app.selected_task, 2);

    app.select_previous();
    assert_eq!(app.selected_task, 1);
}

#[test]
fn test_select_single_task() {
    let mut app = create_test_app();
    app.tasks = vec![MiseTask::new("task1".to_string(), "source1".to_string())];

    app.select_next();
    assert_eq!(app.selected_task, 0);

    app.select_previous();
    assert_eq!(app.selected_task, 0);
}

#[test]
fn test_back_to_list() {
    let mut app = create_test_app();

    app.state = AppState::Detail("test".to_string());
    app.task_info = Some(MiseTaskInfo {
        name: "test".to_string(),
        aliases: Vec::new(),
        description: "desc".to_string(),
        source: "source".to_string(),
        depends: Vec::new(),
        depends_post: Vec::new(),
        wait_for: Vec::new(),
        env: Vec::new(),
        dir: None,
        hide: false,
        raw: false,
        sources: Vec::new(),
        outputs: Vec::new(),
        shell: None,
        quiet: false,
        silent: false,
        tools: HashMap::new(),
        run: Vec::new(),
        file: None,
        usage_spec: serde_json::Value::Null,
    });
    app.task_output.push_back("output1".to_string());
    app.task_output.push_back("output2".to_string());

    app.back_to_list();

    assert_eq!(app.state, AppState::SequenceBuilder);
    assert!(app.task_info.is_none());
    assert_eq!(app.task_output.len(), 0);
    assert!(!app.has_running_handle);
}

#[test]
fn test_ansi_color_bleeding_prevention() {
    let mut app = create_test_app();

    let colored_stdout = "STDOUT: \x1b[32mSuccess message";
    let colored_stderr = "STDERR: \x1b[31mError message";
    let plain_text = "Plain text line";

    app.task_output.push_back(colored_stdout.to_string());
    app.task_output.push_back(colored_stderr.to_string());
    app.task_output.push_back(plain_text.to_string());

    assert_eq!(app.task_output.len(), 3);
    assert_eq!(app.task_output[0], colored_stdout);
    assert_eq!(app.task_output[1], colored_stderr);
    assert_eq!(app.task_output[2], plain_text);
}

#[test]
fn test_multiple_colored_lines_sequence() {
    let mut app = create_test_app();

    let lines = vec![
        "STDOUT: \x1b[36mBuilding project...",
        "STDOUT: \x1b[32m✓ Compiled successfully",
        "STDERR: \x1b[33mWarning: deprecated function",
        "STDOUT: \x1b[32m✓ Tests passed",
        "Plain summary line",
    ];

    for line in &lines {
        app.task_output.push_back(line.to_string());
    }

    assert_eq!(app.task_output.len(), 5);
    for (i, expected_line) in lines.iter().enumerate() {
        assert_eq!(app.task_output[i], *expected_line);
    }
}

#[test]
fn wraparound_over_n_moves() {
    let n: usize = 7;
    for start in 0..n {
        let mut sel = start;
        for _ in 0..n {
            sel = next_selection(sel, n);
        }
        assert_eq!(sel, start);
        assert_eq!(previous_selection(next_selection(start, n), n), start);
        assert_eq!(next_selection(previous_selection(start, n), n), start);
    }
}

#[test]
fn ensure_visible_keeps_selection_in_window() {
    assert_eq!(ensure_visible(2, 5, 3), 2);
    assert_eq!(ensure_visible(10, 0, 4), 7);
    assert_eq!(ensure_visible(6, 5, 3), 5);
    for sel in 0..20 {
        for off in 0..20 {
            let r = ensure_visible(sel, off, 4);
            assert!(r <= sel && sel < r + 4);
        }
    }
}

#[test]
fn scrolling_is_clamped() {
    let mut app = create_test_app();
    app.tasks = tasks(&["a", "b", "c", "d", "e"]);
    app.scroll_down(10, 2);
    assert_eq!(app.scroll_offset, 3);
    app.scroll_up(1);
    assert_eq!(app.scroll_offset, 2);
    app.scroll_up(9);
    assert_eq!(app.scroll_offset, 0);
    let (visible, selected) = app.get_visible_tasks(2);
    assert_eq!(visible.len(), 2);
    assert_eq!(visible[1].name, "b");
    assert_eq!(selected, 0);
}

#[test]
fn output_keeps_last_hundred_lines() {
    let mut app = create_test_app();
    for i in 0..150 {
        app.handle_event(AppEvent::TaskOutput(format!("line {i}")));
    }
    assert_eq!(app.task_output.len(), 100);
    for (k, line) in app.task_output.iter().enumerate() {
        assert_eq!(*line, format!("line {}", k + 50));
    }
}

#[test]
fn follow_mode_pins_output_to_bottom() {
    let mut app = create_test_app();
    app.show_output_pane = true;
    app.task_running = true;
    app.current_output_visible_height = 10;
    for i in 0..30 {
        app.handle_event(AppEvent::TaskOutput(format!("{i}")));
    }
    assert_eq!(app.output_scroll_offset, 20);
    app.toggle_output_follow_mode();
    assert!(!app.output_follow_mode);
    app.scroll_output_up(5);
    app.handle_event(AppEvent::TaskOutput("x".to_string()));
    assert_eq!(app.output_scroll_offset, 15);
    app.toggle_output_follow_mode();
    assert_eq!(app.output_scroll_offset, 21);
    let (start, end) = app.visible_output_range(10);
    assert_eq!((start, end), (21, 31));
}

#[test]
fn cancel_without_handle_is_noop() {
    let mut app = create_test_app();
    app.task_output.push_back("previous".to_string());
    let effects = app.cancel_running_task();
    assert!(effects.is_empty());
    assert_eq!(app.task_output.len(), 1);
    let effects = app.handle_event(AppEvent::TaskCancelled);
    assert!(effects.is_empty());
    assert_eq!(app.task_output.len(), 1);
}

#[test]
fn cancel_appends_one_message() {
    let mut app = create_test_app();
    app.tasks = tasks(&["build"]);
    let effects = app.run_current_task();
    assert!(matches!(effects.as_slice(), [Effect::RunTask(n)] if n == "build"));
    assert!(app.is_task_running("build"));
    let effects = app.handle_event(AppEvent::KeyPress(key(KeyCode::Char('c'))));
    assert!(matches!(effects.as_slice(), [Effect::AbortRun]));
    assert!(!app.task_running);
    assert!(!app.has_running_handle);
    assert_eq!(app.task_output.len(), 1);
    assert_eq!(app.task_output[0], "Task cancelled by user");
    assert!(app.cancel_running_task().is_empty());
    app.handle_event(AppEvent::TaskCancelled);
    app.handle_event(AppEvent::TaskCompleted);
    assert_eq!(app.task_output.len(), 1);
    assert!(!app.task_running);
}

#[test]
fn second_run_is_refused_while_running() {
    let mut app = create_test_app();
    app.tasks = tasks(&["a", "b"]);
    assert_eq!(app.run_current_task().len(), 1);
    app.selected_task = 1;
    assert!(app.run_current_task().is_empty());
    assert_eq!(app.running_task_name.as_deref(), Some("a"));
}

#[test]
fn rename_collision_gets_suffix() {
    let client = MiseClient::new();
    let existing = tasks(&["build", "test", "test-1"]);
    assert_eq!(client.find_unique_task_name("test", &existing, "build"), "test-2");
    let existing = tasks(&["build", "test"]);
    assert_eq!(client.find_unique_task_name("test", &existing, "build"), "test-1");
    assert_eq!(client.find_unique_task_name("fresh", &existing, "build"), "fresh");
    assert_eq!(client.find_unique_task_name("build", &existing, "build"), "build");
}

#[test]
fn rename_suffix_counts_past_nine() {
    let client = MiseClient::new();
    let mut names = vec!["x".to_string()];
    for i in 1..=10 {
        names.push(format!("x-{i}"));
    }
    let refs: Vec<&str> = names.iter().map(|s| s.as_str()).collect();
    let existing = tasks(&refs);
    assert_eq!(client.find_unique_task_name("x", &existing, "other"), "x-11");
}

#[test]
fn rename_flow_trims_and_requests() {
    let mut app = create_test_app();
    app.tasks = tasks(&["build", "test"]);
    app.start_rename_task();
    assert_eq!(app.state, AppState::Renaming("build".to_string()));
    app.handle_event(AppEvent::RenameInputChanged("  test  ".to_string()));
    let effects = app.handle_event(AppEvent::KeyPress(key(KeyCode::Enter)));
    match effects.as_slice() {
        [Effect::RenameTask { old_name, new_name }] => {
            assert_eq!(old_name, "build");
            assert_eq!(new_name, "test");
        }
        _ => panic!("expected a rename request"),
    }
    assert_eq!(app.state, AppState::SequenceBuilder);
    let effects = app.handle_event(AppEvent::TaskRenamed {
        original: "build".to_string(),
        requested: "test".to_string(),
        outcome: Ok("test-1".to_string()),
    });
    assert!(matches!(effects.as_slice(), [Effect::RefreshTasks]));
    assert_eq!(
        app.task_output.back().map(|s| s.as_str()),
        Some("Task 'build' renamed to 'test-1' (name adjusted to avoid conflicts)")
    );
}

#[test]
fn empty_rename_is_local_noop() {
    let mut app = create_test_app();
    app.tasks = tasks(&["build"]);
    app.start_rename_task();
    app.handle_event(AppEvent::RenameInputChanged("   ".to_string()));
    assert!(app.save_rename().is_empty());
    assert_eq!(app.state, AppState::SequenceBuilder);
    assert!(app.rename_input.is_none());
}

#[test]
fn delete_confirmation_gate() {
    let mut app = create_test_app();
    app.tasks = tasks(&["build"]);
    app.sequence_state.set_task_step("build", 0, true);
    app.handle_event(AppEvent::DeleteTask("build".to_string()));
    let effects = app.handle_event(AppEvent::KeyPress(key(KeyCode::Char('q'))));
    assert!(effects.is_empty());
    assert!(!app.should_quit);
    assert!(app.pending_delete_task.is_none());

    app.handle_event(AppEvent::DeleteTask("build".to_string()));
    let effects = app.handle_event(AppEvent::KeyPress(key(KeyCode::Char('y'))));
    assert!(matches!(effects.as_slice(), [Effect::DeleteTask(n)] if n == "build"));
    let effects = app.handle_event(AppEvent::TaskDeleted {
        task_name: "build".to_string(),
        error: None,
    });
    assert!(matches!(effects.as_slice(), [Effect::RefreshTasks]));
    assert!(!app.sequence_state.is_task_enabled_for_step("build", 0));
    assert_eq!(
        app.task_output.back().map(|s| s.as_str()),
        Some("Task 'build' deleted successfully. Remember to keep your mise tasks under version control.")
    );
    app.handle_event(AppEvent::TaskDeleted {
        task_name: "x".to_string(),
        error: Some("not found".to_string()),
    });
    assert_eq!(
        app.task_output.back().map(|s| s.as_str()),
        Some("Failed to delete task 'x': not found")
    );
}

#[test]
fn task_info_lines() {
    let mut app = create_test_app();
    let info = MiseTaskInfo {
        name: "build".to_string(),
        aliases: Vec::new(),
        description: "Build it".to_string(),
        source: "mise.toml".to_string(),
        depends: vec!["lint".to_string(), "fmt".to_string()],
        depends_post: Vec::new(),
        wait_for: Vec::new(),
        env: Vec::new(),
        dir: None,
        hide: false,
        raw: false,
        sources: Vec::new(),
        outputs: Vec::new(),
        shell: None,
        quiet: false,
        silent: false,
        tools: HashMap::new(),
        run: vec!["cargo".to_string(), "build".to_string()],
        file: Some("mise.toml".to_string()),
        usage_spec: serde_json::Value::Null,
    };
    app.handle_event(AppEvent::TaskInfoLoaded {
        task_name: "build".to_string(),
        info: Ok(info),
    });
    let lines: Vec<String> = app.task_output.iter().cloned().collect();
    assert_eq!(
        lines,
        vec![
            "=== Task: build ===",
            "Description: Build it",
            "File: mise.toml",
            "Run configuration:",
            "cargo build",
            "Dependencies: lint, fmt",
        ]
    );
    app.handle_event(AppEvent::TaskInfoLoaded {
        task_name: "build".to_string(),
        info: Err("boom".to_string()),
    });
    assert_eq!(app.task_output.len(), 1);
    assert_eq!(app.task_output[0], "Failed to get task info: boom");
}

#[test]
fn sequence_task_added_reports() {
    let mut app = create_test_app();
    let effects = app.handle_event(AppEvent::SequenceTaskAdded {
        task_name: "sequence-1".to_string(),
        command: "mise run a".to_string(),
        error: None,
    });
    assert!(matches!(effects.as_slice(), [Effect::RefreshTasks]));
    assert_eq!(app.task_output[0], "✓ Created task 'sequence-1' successfully!");
    assert_eq!(app.task_output[1], "Command: mise run a");
}

fn laid_out_app() -> App {
    let mut app = create_test_app();
    app.tasks = tasks(&["build", "test", "deploy"]);
    app.current_visible_height = 5;
    app.table_layout = Some(TableLayout {
        table_area: Rect {
            x: 0,
            y: 0,
            width: 100,
            height: 8,
        },
        column_rects: vec![
            Rect { x: 0, y: 0, width: 40, height: 8 },
            Rect { x: 40, y: 0, width: 8, height: 8 },
            Rect { x: 48, y: 0, width: 8, height: 8 },
            Rect { x: 56, y: 0, width: 8, height: 8 },
            Rect { x: 64, y: 0, width: 36, height: 8 },
        ],
    });
    app
}

#[test]
fn hit_test_resolves_regions() {
    let app = laid_out_app();
    assert_eq!(
        app.button_at(3, 41),
        Some(ButtonType::Step {
            step_index: 0,
            task_index: 1
        })
    );
    assert_eq!(app.button_at(3, 47), None);
    assert_eq!(
        app.button_at(2, 64),
        Some(ButtonType::Action {
            button: mise_sequencer::ActionButton::Run,
            task_index: 0
        })
    );
    assert_eq!(app.button_at(2, 69), None);
    assert_eq!(app.button_at(5, 64), None);
    assert_eq!(app.button_at(1, 64), None);
    assert_eq!(app.calculate_sequence_controls_position(app.table_layout.as_ref().unwrap()), Some((62, 36)));
    assert_eq!(app.button_at(0, 62), Some(ButtonType::Sequence(SequenceButton::RunSequence)));
    assert_eq!(app.button_at(0, 61), None);
    assert_eq!(app.table_title(), "Mise Command Sequencer");
}

#[test]
fn clicks_and_hover_follow_hit_test() {
    let mut app = laid_out_app();
    let effects = app.handle_event(AppEvent::MouseClick {
        button: MouseButton::Left,
        row: 4,
        col: 49,
    });
    assert!(effects.is_empty());
    assert_eq!(app.selected_task, 2);
    assert!(app.sequence_state.is_task_enabled_for_step("deploy", 1));
    let effects = app.handle_event(AppEvent::MouseClick {
        button: MouseButton::Left,
        row: 3,
        col: 70,
    });
    assert!(matches!(effects.as_slice(), [Effect::ShowTaskInfo(n)] if n == "test"));
    app.handle_event(AppEvent::MouseMove { row: 0, col: 80 });
    assert_eq!(
        app.button_hover_state.map(|h| h.button_type),
        Some(ButtonType::Sequence(SequenceButton::AddAsTask))
    );
    let effects = app.handle_event(AppEvent::MouseClick {
        button: MouseButton::Right,
        row: 3,
        col: 70,
    });
    assert!(effects.is_empty());
}

#[test]
fn dialog_takes_all_clicks() {
    let mut app = laid_out_app();
    app.pending_delete_task = Some("build".to_string());
    app.delete_dialog_area = Some(Rect {
        x: 10,
        y: 5,
        width: 40,
        height: 11,
    });
    assert_eq!(app.button_at(2, 64), None);
    assert_eq!(app.button_at(14, 33), Some(ButtonType::Dialog(DialogButton::Cancel)));
    let effects = app.handle_event(AppEvent::MouseClick {
        button: MouseButton::Left,
        row: 14,
        col: 20,
    });
    assert!(matches!(effects.as_slice(), [Effect::DeleteTask(n)] if n == "build"));
    assert!(app.pending_delete_task.is_none());
}

#[test]
fn rename_mode_leaves_only_save_and_cancel() {
    let mut app = laid_out_app();
    app.selected_task = 1;
    app.start_rename_task();
    assert_eq!(
        app.button_at(3, 64),
        Some(ButtonType::Action {
            button: mise_sequencer::ActionButton::Save,
            task_index: 1
        })
    );
    assert_eq!(app.button_at(2, 64), None);
    assert_eq!(app.button_at(3, 41), None);
    assert_eq!(app.button_at(0, 62), None);
}

#[test]
fn keys_drive_navigation_and_steps() {
    let mut app = laid_out_app();
    app.current_visible_height = 2;
    app.handle_event(AppEvent::KeyPress(key(KeyCode::Down)));
    app.handle_event(AppEvent::KeyPress(key(KeyCode::Char('j'))));
    assert_eq!(app.selected_task, 2);
    assert_eq!(app.scroll_offset, 1);
    app.handle_event(AppEvent::KeyPress(key(KeyCode::Char('2'))));
    assert!(app.sequence_state.is_task_enabled_for_step("deploy", 1));
    app.handle_event(AppEvent::KeyPress(key(KeyCode::Char('2'))));
    assert!(!app.sequence_state.is_task_enabled_for_step("deploy", 1));
    let effects = app.handle_event(AppEvent::KeyPress(key(KeyCode::Enter)));
    assert!(matches!(
        effects.as_slice(),
        [Effect::Post(AppEvent::Sequence(SequenceEvent::RunSequence))]
    ));
    app.handle_event(AppEvent::MouseScroll {
        direction: ScrollDirection::Up,
        row: 0,
        col: 0,
    });
    assert_eq!(app.scroll_offset, 0);
    app.handle_event(AppEvent::KeyPress(key(KeyCode::Char('q'))));
    assert!(app.should_quit());
}

#[test]
fn move_filter_drops_repeats() {
    let mut filter = MoveFilter::new();
    assert!(filter.accept(1, 2));
    assert!(!filter.accept(1, 2));
    assert!(filter.accept(2, 2));
}

#[test]
fn dialog_is_centred() {
    let r = dialog_area(Rect {
        x: 0,
        y: 0,
        width: 100,
        height: 31,
    });
    assert_eq!(r, Rect { x: 20, y: 10, width: 60, height: 11 });
}

#[test]
fn table_layout_has_one_column_per_rule() {
    let mut app = create_test_app();
    app.update_table_layout(Rect {
        x: 0,
        y: 2,
        width: 100,
        height: 20,
    });
    let layout = app.table_layout.as_ref().unwrap();
    assert_eq!(layout.column_rects.len(), 5);
    assert_eq!(layout.column_rects[1].width, 8);
    assert_eq!(app.current_visible_height, 17);
}

#[test]
fn long_list_title_shows_range() {
    let mut app = create_test_app();
    app.tasks = tasks(&["a", "b", "c", "d", "e", "f", "g", "h", "i", "j", "k", "l"]);
    app.current_visible_height = 5;
    app.scroll_offset = 3;
    assert_eq!(app.table_title(), "Mise Command Sequencer (4-8/12)");
}

#[test]
fn refresh_keeps_selection_on_a_task() {
    let mut app = create_test_app();
    app.tasks = tasks(&["a", "b", "c"]);
    app.selected_task = 2;
    app.handle_event(AppEvent::TasksRefreshed(tasks(&["a"])));
    assert_eq!(app.selected_task, 0);
    assert_eq!(app.tasks.len(), 1);
}

#[test]
fn rename_failure_is_reported() {
    let mut app = create_test_app();
    let effects = app.handle_event(AppEvent::TaskRenamed {
        original: "build".to_string(),
        requested: "test".to_string(),
        outcome: Err("no such task".to_string()),
    });
    assert!(effects.is_empty());
    assert!(app.show_output_pane);
    assert_eq!(
        app.task_output.back().map(|s| s.as_str()),
        Some("Failed to rename task 'build': no such task")
    );
    app.handle_event(AppEvent::TaskRenamed {
        original: "build".to_string(),
        requested: "fresh".to_string(),
        outcome: Ok("fresh".to_string()),
    });
    assert_eq!(
        app.task_output.back().map(|s| s.as_str()),
        Some("Task 'build' renamed to 'fresh'")
    );
}

#[test]
fn storing_sequence_failure_is_reported() {
    let mut app = create_test_app();
    let effects = app.handle_event(AppEvent::SequenceTaskAdded {
        task_name: "sequence-1".to_string(),
        command: "mise run a".to_string(),
        error: Some("Failed to read mise.toml".to_string()),
    });
    assert!(effects.is_empty());
    assert_eq!(app.task_output.len(), 1);
    assert_eq!(
        app.task_output[0],
        "✗ Error adding task to mise.toml: Failed to read mise.toml"
    );
}

#[test]
fn cancel_stops_sequence_in_empty_step() {
    let mut app = laid_out_app();
    app.sequence_state.set_task_step("deploy", 2, true);
    let effects = app.handle_event(AppEvent::Sequence(SequenceEvent::RunSequence));
    assert!(matches!(
        effects.as_slice(),
        [Effect::Post(AppEvent::Sequence(SequenceEvent::StepCompleted))]
    ));
    assert!(!app.has_running_handle);
    let effects = app.handle_event(AppEvent::KeyPress(key(KeyCode::Char('c'))));
    assert!(effects.is_empty());
    assert!(!app.sequence_state.is_running);
    assert!(!app.task_running);
    assert_eq!(app.task_output.len(), 1);
    let effects = app.handle_event(AppEvent::Sequence(SequenceEvent::StepCompleted));
    assert!(effects.is_empty());
    assert!(!app.sequence_state.is_running);
}

#[test]
fn leaving_running_view_aborts_run() {
    let mut app = create_test_app();
    app.tasks = tasks(&["build"]);
    let effects = app.run_selected_task();
    assert_eq!(effects.len(), 1);
    assert_eq!(app.state, AppState::Running("build".to_string()));
    let effects = app.handle_event(AppEvent::KeyPress(key(KeyCode::Esc)));
    assert!(matches!(effects.as_slice(), [Effect::AbortRun]));
    assert_eq!(app.state, AppState::SequenceBuilder);
    assert!(!app.has_running_handle);
}

#[test]
fn refresh_clamps_scroll() {
    let mut app = create_test_app();
    app.tasks = tasks(&["a", "b", "c", "d", "e", "f"]);
    app.current_visible_height = 2;
    app.scroll_offset = 4;
    app.handle_event(AppEvent::TasksRefreshed(tasks(&["a", "b", "c"])));
    assert_eq!(app.scroll_offset, 1);
}

#[test]
fn click_past_step_toggle_changes_nothing() {
    let mut app = laid_out_app();
    let effects = app.handle_event(AppEvent::MouseClick {
        button: MouseButton::Left,
        row: 3,
        col: 47,
    });
    assert!(effects.is_empty());
    assert_eq!(app.selected_task, 1);
    assert!(!app.sequence_state.is_task_enabled_for_step("test", 0));
}

#[test]
fn rename_mode_ignores_other_rows() {
    let mut app = laid_out_app();
    app.start_rename_task();
    let effects = app.handle_event(AppEvent::MouseClick {
        button: MouseButton::Left,
        row: 3,
        col: 41,
    });
    assert!(effects.is_empty());
    assert_eq!(app.state, AppState::Renaming("build".to_string()));
    assert_eq!(app.rename_input.as_deref(), Some("build"));
    assert!(!app.sequence_state.is_task_enabled_for_step("test", 0));
}

#[test]
fn output_pane_keys_scroll_the_output() {
    let mut app = create_test_app();
    app.show_output_pane = true;
    app.current_output_visible_height = 4;
    for i in 0..10 {
        app.task_output.push_back(format!("{i}"));
    }
    let shift_down = KeyInput {
        code: KeyCode::Down,
        shift: true,
        control: false,
    };
    app.handle_event(AppEvent::KeyPress(shift_down));
    assert_eq!(app.output_scroll_offset, 3);
    app.handle_event(AppEvent::KeyPress(key(KeyCode::Char('G'))));
    assert_eq!(app.output_scroll_offset, 6);
    app.handle_event(AppEvent::KeyPress(key(KeyCode::Char('u'))));
    assert_eq!(app.output_scroll_offset, 4);
    app.handle_event(AppEvent::KeyPress(key(KeyCode::Char('g'))));
    assert_eq!(app.output_scroll_offset, 0);
    assert_eq!(app.selected_task, 0);
}
