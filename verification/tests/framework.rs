use nokden::{ConsoleCommand, EngineError, Framework, Frames, SaveLoad, CPS, platform};

#[test]
fn platform_names_the_target() {
    assert_eq!(platform(), "Linux x86_64");
}

#[test]
fn fresh_framework_is_running_and_quiet() {
    let framework = Framework::new(String::from("import"));
    assert!(framework.running());
    assert_eq!(framework.command_event().keyword(), "");
    assert!(matches!(framework.save_load_event(), SaveLoad::Idle));
}

#[test]
fn shutdown_stops_the_loop() {
    let mut framework = Framework::new(String::from("import"));
    framework.shutdown();
    assert!(!framework.running());
}

#[test]
fn command_keyword_is_text_before_first_space() {
    let mut framework = Framework::new(String::from("import"));
    framework.command("load map one");
    assert_eq!(framework.command_event().keyword(), "load");
    framework.command("quit");
    assert_eq!(framework.command_event().keyword(), "quit");
    framework.command(" leading");
    assert_eq!(framework.command_event().keyword(), "");
    framework.command_clear();
    assert_eq!(framework.command_event().keyword(), "");
}

#[test]
fn save_load_event_reflects_last_request() {
    let mut framework = Framework::new(String::from("import"));
    framework.save_load(SaveLoad::Save);
    assert!(matches!(framework.save_load_event(), SaveLoad::Save));
    framework.save_load(SaveLoad::Load);
    assert!(matches!(framework.save_load_event(), SaveLoad::Load));
    framework.save_load(SaveLoad::Idle);
    assert!(matches!(framework.save_load_event(), SaveLoad::Idle));
}

#[test]
fn asset_path_joins_below_import_directory() {
    let framework = Framework::new(String::from("assets"));
    let path = framework.asset_path("neticas.obj");
    assert_eq!(path.0, "assets/neticas.obj");
}

#[test]
fn commands_match_on_keyword_only() {
    let quit = ConsoleCommand::new("quit", Vec::new());
    let also_quit = ConsoleCommand::new("quit", Vec::new());
    let save = ConsoleCommand::new("save", Vec::new());
    assert!(quit == also_quit);
    assert!(!(quit == save));
}

#[test]
fn the_info_keyword_matches_nothing() {
    let info = ConsoleCommand::new("info", Vec::new());
    let also_info = ConsoleCommand::new("info", Vec::new());
    let quit = ConsoleCommand::new("quit", Vec::new());
    assert!(!(info == also_info));
    assert!(!(info == quit));
    assert!(!(quit == info));
}

#[test]
fn parameter_reading_is_unsupported() {
    let command = ConsoleCommand::new("test", Vec::new());
    assert_eq!(command.get_bool(0), Err(EngineError::Unsupported));
}

#[test]
fn frames_count_and_clear() {
    let mut frames = Frames::new();
    assert_eq!(frames.frames(), 0);
    frames.count();
    frames.count();
    frames.count();
    assert_eq!(frames.frames(), 3);
    frames.clear();
    assert_eq!(frames.frames(), 0);
}

#[test]
fn counts_per_second_tracks_a_label_and_a_rate() {
    let mut cps = CPS::new("Test Counter");
    assert_eq!(cps.label(), "Test Counter");
    cps.count(false);
    cps.count(false);
    cps.count(false);
    // the published rate covers a finished one-second window: right after
    // start it can only be what rolled over, never more than was counted
    assert!(cps.current() <= 3);
}
