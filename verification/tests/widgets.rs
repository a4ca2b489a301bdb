use nokden::Framework;
use nokden::input::{InputSystem, KeyState, MethodKM};
use nokden::widgets::{ConsoleState, ConsoleWidget};

#[test]
fn console_starts_closed_and_ignores_quiet_input() {
    let mut input = InputSystem::new();
    let mut framework = Framework::new(String::from("import"));
    let mut console = ConsoleWidget::new(&mut input);
    let state = console.update(&mut input, &mut framework);
    assert!(matches!(state, ConsoleState::Closed));
}

#[test]
fn console_opens_types_submits_and_closes() {
    let mut input = InputSystem::new();
    let mut framework = Framework::new(String::from("import"));
    let mut console = ConsoleWidget::new(&mut input);

    // F1 toggles the console open and switches to typing mode
    input.register_signal_km(MethodKM::F1.slot(), KeyState::Pressed);
    let state = console.update(&mut input, &mut framework);
    assert!(matches!(state, ConsoleState::Opened));

    // typed keys become console text; Enter submits it as a command
    input.register_signal_km(MethodKM::F1.slot(), KeyState::Released);
    input.register_signal_km(MethodKM::H.slot(), KeyState::Pressed);
    input.register_signal_km(MethodKM::I.slot(), KeyState::Pressed);
    input.register_signal_km(MethodKM::Enter.slot(), KeyState::Pressed);
    let state = console.update(&mut input, &mut framework);
    assert!(matches!(state, ConsoleState::Opened));
    assert_eq!(framework.command_event().keyword(), "hi");

    // F1 again closes the console
    input.register_signal_km(MethodKM::F1.slot(), KeyState::Pressed);
    let state = console.update(&mut input, &mut framework);
    assert!(matches!(state, ConsoleState::Closed));
}

#[test]
fn console_info_probe_issues_the_info_command() {
    let mut input = InputSystem::new();
    let mut framework = Framework::new(String::from("import"));
    let mut console = ConsoleWidget::new(&mut input);

    input.register_signal_km(MethodKM::F1.slot(), KeyState::Pressed);
    console.update(&mut input, &mut framework);

    input.register_signal_km(MethodKM::TAB.slot(), KeyState::Pressed);
    console.update(&mut input, &mut framework);
    assert_eq!(framework.command_event().keyword(), "info");
}
