use nokden::input::{InputSystem, KeyState, Mapping, MethodKM, Mode};

#[test]
fn new_input_system_has_builtin_mappings() {
    let input = InputSystem::new();
    assert_eq!(input.mappings.len(), 2);
    assert_eq!(input.mappings.all()[0].label(), "(GUI) Submit");
    assert_eq!(input.mappings.all()[1].label(), "(GUI) Cancel Typing");
}

#[test]
fn mapping_keeps_name_and_methods() {
    let mut mapping = Mapping::new("Jump", MethodKM::Space);
    assert_eq!(mapping.label(), "Jump");
    assert!(matches!(mapping.default_method(), MethodKM::Space));
    assert!(mapping.custom_method().is_none());
    mapping.bind_custom(MethodKM::Enter);
    assert!(matches!(mapping.custom_method(), Some(MethodKM::Enter)));
    assert!(matches!(mapping.default_method(), MethodKM::Space));
    assert_eq!(mapping.name(), "Jump");
}

#[test]
fn check_once_consumes_a_pressed_signal() {
    let mut input = InputSystem::new();
    let jump = input.add_mapping(Mapping::new("Jump", MethodKM::Space));
    assert!(!input.check_once(&jump));
    input.register_signal_km(MethodKM::Space.slot(), KeyState::Pressed);
    assert!(input.check_once(&jump));
    // consumed until released and pressed again
    assert!(!input.check_once(&jump));
    input.register_signal_km(MethodKM::Space.slot(), KeyState::Released);
    assert!(!input.check_once(&jump));
    input.register_signal_km(MethodKM::Space.slot(), KeyState::Pressed);
    assert!(input.check_once(&jump));
}

#[test]
fn custom_binding_takes_precedence() {
    let mut input = InputSystem::new();
    let mut mapping = Mapping::new("Fire", MethodKM::F);
    mapping.bind_custom(MethodKM::MouseLeft);
    let fire = input.add_mapping(mapping);
    input.register_signal_km(MethodKM::F.slot(), KeyState::Pressed);
    assert!(!input.check_once(&fire));
    input.register_signal_km(MethodKM::MouseLeft.slot(), KeyState::Pressed);
    assert!(input.check_once(&fire));
}

#[test]
fn check_answers_only_in_normal_mode() {
    let mut input = InputSystem::new();
    let jump = input.add_mapping(Mapping::new("Jump", MethodKM::Space));
    input.register_signal_km(MethodKM::Space.slot(), KeyState::Pressed);
    input.mode(Mode::TypingNLS);
    assert!(!input.check(&jump));
    input.mode(Mode::Normal);
    assert!(input.check(&jump));
}

#[test]
fn check_hotkey_answers_only_in_hotkey_mode() {
    let mut input = InputSystem::new();
    let menu = input.add_mapping(Mapping::new("Menu", MethodKM::M));
    input.register_signal_km(MethodKM::M.slot(), KeyState::Pressed);
    assert!(!input.check_hotkey(&menu));
    input.mode(Mode::HotKey);
    assert!(input.check_hotkey(&menu));
}

#[test]
fn typing_appends_letters_digits_and_space() {
    let mut input = InputSystem::new();
    input.mode(Mode::TypingNLS);
    let mut typing = String::new();
    input.register_signal_km(MethodKM::H.slot(), KeyState::Pressed);
    input.register_signal_km(MethodKM::I.slot(), KeyState::Pressed);
    input.check_typing(&mut typing);
    assert_eq!(typing, "hi");
    input.register_signal_km(MethodKM::Space.slot(), KeyState::Pressed);
    input.register_signal_km(MethodKM::Key5.slot(), KeyState::Pressed);
    input.check_typing(&mut typing);
    assert_eq!(typing, "hi 5");
    // already-consumed keys type nothing until pressed again
    input.check_typing(&mut typing);
    assert_eq!(typing, "hi 5");
}

#[test]
fn typing_backspace_removes_last_character() {
    let mut input = InputSystem::new();
    input.mode(Mode::TypingNLS);
    let mut typing = String::from("ab");
    input.register_signal_km(MethodKM::Backspace.slot(), KeyState::Pressed);
    input.check_typing(&mut typing);
    assert_eq!(typing, "a");
    input.register_signal_km(MethodKM::Backspace.slot(), KeyState::Released);
    input.register_signal_km(MethodKM::Backspace.slot(), KeyState::Pressed);
    input.check_typing(&mut typing);
    assert_eq!(typing, "");
    input.register_signal_km(MethodKM::Backspace.slot(), KeyState::Released);
    input.register_signal_km(MethodKM::Backspace.slot(), KeyState::Pressed);
    input.check_typing(&mut typing);
    assert_eq!(typing, "");
}

#[test]
fn typing_does_nothing_outside_typing_mode() {
    let mut input = InputSystem::new();
    let mut typing = String::from("kept");
    input.register_signal_km(MethodKM::A.slot(), KeyState::Pressed);
    input.check_typing(&mut typing);
    assert_eq!(typing, "kept");
}

#[test]
fn cursor_position_reports_last_registered_lanes() {
    let mut input = InputSystem::new();
    assert_eq!(input.check_cursor_position(), [0, 0]);
    input.register_signal_mouse_cursor([77, 99]);
    assert_eq!(input.check_cursor_position(), [77, 99]);
}

#[test]
fn default_mappings_clears_custom_bindings() {
    let mut input = InputSystem::new();
    let mut mapping = Mapping::new("Fire", MethodKM::F);
    mapping.bind_custom(MethodKM::MouseLeft);
    let fire = input.add_mapping(mapping);
    input.default_mappings();
    assert!(input.mappings.read(&fire).custom_method().is_none());
    assert_eq!(input.mappings.read(&fire).label(), "Fire");
    input.register_signal_km(MethodKM::F.slot(), KeyState::Pressed);
    assert!(input.check_once(&fire));
}
