use cfr_decompiler_gui::{
    classify_line, DecompileMessage, DecompileStatus, DecompilerApp, LineKind, Rgb, StatusTone,
};

fn ready_app() -> DecompilerApp {
    let mut app = DecompilerApp::new();
    app.pick_source(Some("/mods/example.jar".to_string()));
    app.pick_dest(Some("/out".to_string()));
    app
}

fn running_app() -> DecompilerApp {
    let mut app = ready_app();
    let job = app.start_decompilation(Ok("/tmp/cfr_embedded.jar".to_string()));
    assert!(job.is_some());
    app
}

#[test]
fn new_app_is_idle_and_empty() {
    let app = DecompilerApp::new();
    assert_eq!(app.source_path(), "");
    assert_eq!(app.dest_path(), "");
    assert_eq!(app.status(), &DecompileStatus::Idle);
    assert!(app.log_messages().is_empty());
    assert!(!app.is_listening());
    assert!(!app.needs_repaint());
    assert!(app.console_is_empty());
}

#[test]
fn default_is_a_fresh_window() {
    let app = DecompilerApp::default();
    assert_eq!(app.status(), &DecompileStatus::Idle);
    assert!(app.log_messages().is_empty());
    assert!(!app.is_listening());
}

#[test]
fn picking_paths_sets_them() {
    let app = ready_app();
    assert_eq!(app.source_path(), "/mods/example.jar");
    assert_eq!(app.dest_path(), "/out");
}

#[test]
fn cancelled_pick_changes_nothing() {
    let mut app = ready_app();
    app.pick_source(None);
    app.pick_dest(None);
    assert_eq!(app.source_path(), "/mods/example.jar");
    assert_eq!(app.dest_path(), "/out");
}

#[test]
fn pickers_are_disabled_while_running() {
    let mut app = running_app();
    assert!(!app.pickers_enabled());
    app.pick_source(Some("/other.jar".to_string()));
    app.pick_dest(Some("/elsewhere".to_string()));
    assert_eq!(app.source_path(), "/mods/example.jar");
    assert_eq!(app.dest_path(), "/out");
}

#[test]
fn path_labels_show_placeholders_then_paths() {
    let app = DecompilerApp::new();
    let s = app.source_label();
    let d = app.dest_label();
    assert_eq!(s.text, "No JAR file selected");
    assert!(s.placeholder);
    assert_eq!(d.text, "No output directory selected");
    assert!(d.placeholder);
    let app = ready_app();
    let s = app.source_label();
    assert_eq!(s.text, "/mods/example.jar");
    assert!(!s.placeholder);
    assert_eq!(app.dest_label().text, "/out");
}

#[test]
fn blank_paths_are_not_inputs() {
    let mut app = DecompilerApp::new();
    assert!(!app.has_inputs());
    app.pick_source(Some("   ".to_string()));
    app.pick_dest(Some("/out".to_string()));
    assert!(!app.has_inputs());
    // a blank path still shows as itself, not as the placeholder
    assert!(!app.source_label().placeholder);
    app.pick_source(Some(" a.jar ".to_string()));
    assert!(app.has_inputs());
    app.pick_dest(Some("\t\n".to_string()));
    assert!(!app.has_inputs());
}

#[test]
fn decompile_button_follows_inputs_and_status() {
    let app = DecompilerApp::new();
    let b = app.decompile_button();
    assert!(!b.enabled);
    assert!(!b.highlighted);
    assert_eq!(b.label, "Decompile");

    let app = ready_app();
    let b = app.decompile_button();
    assert!(b.enabled);
    assert!(b.highlighted);
    assert_eq!(b.label, "Decompile");

    let app = running_app();
    let b = app.decompile_button();
    assert!(!b.enabled);
    assert!(!b.highlighted);
    assert_eq!(b.label, "Decompiling...");
}

#[test]
fn start_decompilation_builds_the_command() {
    let mut app = ready_app();
    let job = app
        .start_decompilation(Ok("/tmp/cfr_embedded.jar".to_string()))
        .expect("a command");
    assert_eq!(job.program, "java");
    assert_eq!(
        job.args,
        vec![
            "-jar".to_string(),
            "/tmp/cfr_embedded.jar".to_string(),
            "/mods/example.jar".to_string(),
            "--outputdir".to_string(),
            "/out".to_string(),
        ]
    );
    assert_eq!(app.status(), &DecompileStatus::Decompiling);
    assert!(app.is_listening());
    assert!(app.needs_repaint());
    assert_eq!(
        app.log_messages(),
        &vec![
            "[SYSTEM] Extracting embedded CFR decompiler...".to_string(),
            "[SYSTEM] Successfully extracted CFR decompiler.".to_string(),
            "[SYSTEM] Starting CFR subprocess...".to_string(),
        ]
    );
}

#[test]
fn start_clears_the_old_console() {
    let mut app = ready_app();
    app.start_decompilation(Err("disk full".to_string()));
    assert_eq!(app.log_messages().len(), 2);
    app.start_decompilation(Ok("/j.jar".to_string()));
    assert_eq!(app.log_messages().len(), 3);
    assert_eq!(app.log_messages()[0], "[SYSTEM] Extracting embedded CFR decompiler...");
}

#[test]
fn failed_extraction_fails_the_run() {
    let mut app = ready_app();
    let job = app.start_decompilation(Err("Permission denied (os error 13)".to_string()));
    assert!(job.is_none());
    assert_eq!(
        app.status(),
        &DecompileStatus::Error("Extraction error: Permission denied (os error 13)".to_string())
    );
    assert!(!app.is_listening());
    assert!(!app.needs_repaint());
    assert_eq!(
        app.log_messages(),
        &vec![
            "[SYSTEM] Extracting embedded CFR decompiler...".to_string(),
            "[ERROR] Failed to extract decompiler JAR: Permission denied (os error 13)".to_string(),
        ]
    );
    let pill = app.status_pill();
    assert_eq!(pill.label, "Failed");
    assert_eq!(pill.tone, StatusTone::Failed);
}

#[test]
fn successful_run_ends_in_success() {
    let mut app = running_app();
    app.handle_messages(&vec![
        DecompileMessage::Log("Processing a.B".to_string()),
        DecompileMessage::Log("[ERROR] warning".to_string()),
        DecompileMessage::Success,
    ]);
    assert_eq!(app.status(), &DecompileStatus::Success);
    assert!(!app.is_listening());
    assert!(!app.needs_repaint());
    let log = app.log_messages();
    assert_eq!(log.len(), 6);
    assert_eq!(log[3], "Processing a.B");
    assert_eq!(log[4], "[ERROR] warning");
    assert_eq!(log[5], "[SYSTEM] Decompilation finished successfully!");
    let pill = app.status_pill();
    assert_eq!(pill.label, "Success!");
    assert!(pill.strong);
    assert_eq!(pill.tone, StatusTone::Succeeded);
}

#[test]
fn failed_run_ends_in_error() {
    let mut app = running_app();
    app.handle_messages(&vec![DecompileMessage::Error("boom".to_string())]);
    assert_eq!(app.status(), &DecompileStatus::Error("boom".to_string()));
    assert!(!app.is_listening());
    assert_eq!(app.log_messages()[3], "[ERROR] boom");
    assert_eq!(classify_line(&app.log_messages()[3]), LineKind::Error);
}

#[test]
fn log_lines_keep_the_run_going() {
    let mut app = running_app();
    app.handle_messages(&vec![DecompileMessage::Log("x".to_string())]);
    app.handle_messages(&vec![]);
    assert_eq!(app.status(), &DecompileStatus::Decompiling);
    assert!(app.is_listening());
    assert_eq!(app.log_messages().len(), 4);
}

#[test]
fn rest_of_a_poll_is_taken_in_after_the_end() {
    let mut app = running_app();
    app.handle_messages(&vec![
        DecompileMessage::Success,
        DecompileMessage::Log("late line".to_string()),
        DecompileMessage::Error("late error".to_string()),
    ]);
    assert_eq!(app.status(), &DecompileStatus::Error("late error".to_string()));
    assert!(!app.is_listening());
    assert_eq!(app.log_messages().len(), 6);
    assert_eq!(app.log_messages()[4], "late line");
}

#[test]
fn nothing_is_taken_in_without_a_worker() {
    let mut app = ready_app();
    app.handle_messages(&vec![DecompileMessage::Success, DecompileMessage::Log("x".to_string())]);
    assert_eq!(app.status(), &DecompileStatus::Idle);
    assert!(app.log_messages().is_empty());

    let mut app = running_app();
    app.handle_messages(&vec![DecompileMessage::Success]);
    app.handle_messages(&vec![DecompileMessage::Log("after".to_string())]);
    assert_eq!(app.log_messages().len(), 4);
}

#[test]
fn clear_console_resets_a_finished_run() {
    let mut app = running_app();
    app.handle_messages(&vec![DecompileMessage::Error("boom".to_string())]);
    app.clear_console();
    assert_eq!(app.status(), &DecompileStatus::Idle);
    assert!(app.console_is_empty());
    let pill = app.status_pill();
    assert_eq!(pill.label, "Idle");
    assert!(!pill.strong);
    assert_eq!(pill.tone, StatusTone::Neutral);
}

#[test]
fn clear_console_keeps_a_running_run() {
    let mut app = running_app();
    app.clear_console();
    assert_eq!(app.status(), &DecompileStatus::Decompiling);
    assert!(app.is_listening());
    assert!(app.console_is_empty());
    let pill = app.status_pill();
    assert_eq!(pill.label, "Decompiling...");
    assert_eq!(pill.tone, StatusTone::Working);
    app.handle_messages(&vec![DecompileMessage::Success]);
    assert_eq!(app.log_messages().len(), 1);
    assert_eq!(app.status(), &DecompileStatus::Success);
}

#[test]
fn clear_console_twice_is_clear_once() {
    let mut app = running_app();
    app.handle_messages(&vec![DecompileMessage::Success]);
    app.clear_console();
    app.clear_console();
    assert_eq!(app.status(), &DecompileStatus::Idle);
    assert!(app.console_is_empty());
}

#[test]
fn console_rows_follow_tags() {
    let mut app = running_app();
    app.handle_messages(&vec![
        DecompileMessage::Log("plain".to_string()),
        DecompileMessage::Log("[ERROR] bad".to_string()),
        DecompileMessage::Error("worse".to_string()),
    ]);
    let rows = app.console_rows();
    assert_eq!(rows.len(), 6);
    let cyan = Rgb { r: 34, g: 211, b: 238 };
    let red = Rgb { r: 248, g: 113, b: 113 };
    let white = Rgb { r: 228, g: 228, b: 231 };
    let colors: Vec<Rgb> = rows.iter().map(|r| r.color).collect();
    assert_eq!(colors, vec![cyan, cyan, cyan, white, red, red]);
    assert_eq!(rows[3].text, "plain");
    assert_eq!(rows[5].text, "[ERROR] worse");
}

#[test]
fn empty_console_shows_its_placeholder() {
    let app = DecompilerApp::new();
    let rows = app.console_rows();
    assert_eq!(rows.len(), 1);
    assert_eq!(rows[0].text, "Console is empty. Select inputs and click Decompile to start.");
    assert_eq!(rows[0].color, Rgb { r: 80, g: 80, b: 95 });
}

#[test]
fn colours_of_pill_paths_and_button() {
    let app = DecompilerApp::new();
    assert_eq!(app.status_pill().color, Rgb { r: 156, g: 163, b: 175 });
    assert_eq!(app.source_label().color, Rgb { r: 110, g: 110, b: 130 });
    assert_eq!(app.decompile_button().fill, None);
    let app = ready_app();
    assert_eq!(app.dest_label().color, Rgb { r: 210, g: 210, b: 215 });
    assert_eq!(app.decompile_button().fill, Some(Rgb { r: 124, g: 58, b: 237 }));
    let mut app = running_app();
    assert_eq!(app.status_pill().color, Rgb { r: 251, g: 191, b: 36 });
    app.handle_messages(&vec![DecompileMessage::Success]);
    assert_eq!(app.status_pill().color, Rgb { r: 52, g: 211, b: 153 });
    app.start_decompilation(Err("x".to_string()));
    assert_eq!(app.status_pill().color, Rgb { r: 248, g: 113, b: 113 });
}

#[test]
fn polls_compose_while_running() {
    let first = vec![DecompileMessage::Log("a".to_string())];
    let second = vec![DecompileMessage::Log("b".to_string()), DecompileMessage::Success];
    let mut split = running_app();
    split.handle_messages(&first);
    split.handle_messages(&second);
    let mut joined = running_app();
    let mut both = first.clone();
    both.extend(second.clone());
    joined.handle_messages(&both);
    assert_eq!(split.log_messages(), joined.log_messages());
    assert_eq!(split.status(), joined.status());
    assert_eq!(split.is_listening(), joined.is_listening());
}
