use lod::app_state::Action;
use lod::{AppState, Application, Config, Mode, StateChangeMessage};

fn config(app: Option<&str>, options: Option<&str>) -> Config {
    Config::new(
        None,
        String::from("/tmp/scripts/desktop_applescript.scpt"),
        String::from("/tmp/scripts/laptop_applescript.scpt"),
        app.map(String::from),
        options.map(String::from),
    )
}

fn shown(state: &AppState) -> (&'static str, &'static str, &'static str, bool) {
    let mode = state.mode();
    (
        mode.description(),
        mode.sf_symbol(),
        mode.accessibility_description(),
        state.caffeinating(),
    )
}

fn command_of(action: &Action) -> (String, Vec<String>) {
    let command = match action {
        Action::RunScript(c) | Action::Spawn(c) | Action::Kill(c) => c,
        Action::Nothing => panic!("no command"),
    };
    (command.program().to_string(), command.args().clone())
}

#[test]
fn mode_texts() {
    assert_eq!(Mode::Laptop.description(), "Laptop Mode");
    assert_eq!(Mode::Desktop.description(), "Desktop Mode");
    assert_eq!(Mode::Laptop.sf_symbol(), "laptopcomputer");
    assert_eq!(Mode::Desktop.sf_symbol(), "desktopcomputer");
    assert_eq!(Mode::Laptop.accessibility_description(), "Switch to Laptop mode");
    assert_eq!(Mode::Desktop.accessibility_description(), "Switch to Desktop mode");
    assert_eq!(Mode::Laptop.toggle(), Mode::Desktop);
    assert_eq!(Mode::Desktop.toggle(), Mode::Laptop);
}

#[test]
fn toggling_mode_twice_restores_the_presentation() {
    let mut state = AppState::new(config(None, None), Mode::Laptop);
    let before = shown(&state);
    state.handle(StateChangeMessage::ToggleMode);
    assert_eq!(state.mode(), Mode::Desktop);
    assert_ne!(shown(&state), before);
    state.handle(StateChangeMessage::ToggleMode);
    assert_eq!(shown(&state), before);
}

#[test]
fn toggle_mode_runs_the_new_modes_script() {
    let mut state = AppState::new(config(None, None), Mode::Laptop);
    let action = state.toggle_mode();
    assert!(matches!(action, Action::RunScript(_)));
    assert_eq!(
        command_of(&action),
        (
            String::from("osascript"),
            vec![String::from("/tmp/scripts/desktop_applescript.scpt")]
        )
    );
    let action = state.toggle_mode();
    assert_eq!(
        command_of(&action).1,
        vec![String::from("/tmp/scripts/laptop_applescript.scpt")]
    );
}

#[test]
fn clearing_while_idle_changes_nothing() {
    let mut state = AppState::new(config(None, None), Mode::Desktop);
    let before = shown(&state);
    let action = state.handle(StateChangeMessage::ClearCaffeination);
    assert!(matches!(action, Action::Nothing));
    assert_eq!(shown(&state), before);
    assert_eq!(state.caffeination_id(), None);
}

#[test]
fn idle_toggle_asks_for_the_default_program() {
    let mut state = AppState::new(config(None, None), Mode::Desktop);
    let action = state.toggle_caffeination();
    assert!(matches!(action, Action::Spawn(_)));
    assert_eq!(command_of(&action), (String::from("caffeinate"), vec![]));
    assert!(!state.caffeinating());
}

#[test]
fn idle_toggle_asks_for_the_configured_program() {
    let mut state = AppState::new(config(Some("amphetamine"), Some("-d")), Mode::Desktop);
    let action = state.toggle_caffeination();
    assert_eq!(
        command_of(&action),
        (String::from("amphetamine"), vec![String::from("-d")])
    );
}

#[test]
fn caffeination_session_lifecycle() {
    let mut state = AppState::new(config(Some("true"), None), Mode::Laptop);
    assert!(matches!(
        state.handle(StateChangeMessage::ToggleCaffeination),
        Action::Spawn(_)
    ));
    state.caffeination_started(4321);
    assert!(state.caffeinating());
    assert_eq!(state.caffeination_id(), Some(4321));
    // A second start is ignored: one session at most.
    state.caffeination_started(99);
    assert_eq!(state.caffeination_id(), Some(4321));
    // The process exits by itself; its waiter reports it once.
    state.handle(StateChangeMessage::ClearCaffeination);
    assert!(!state.caffeinating());
    state.handle(StateChangeMessage::ClearCaffeination);
    assert!(!state.caffeinating());
}

#[test]
fn running_toggle_kills_without_clearing() {
    let mut state = AppState::new(config(None, None), Mode::Laptop);
    state.caffeination_started(123);
    let action = state.handle(StateChangeMessage::ToggleCaffeination);
    assert!(matches!(action, Action::Kill(_)));
    assert_eq!(
        command_of(&action),
        (String::from("kill"), vec![String::from("-9"), String::from("123")])
    );
    assert!(state.caffeinating());
    state.handle(StateChangeMessage::ClearCaffeination);
    assert!(!state.caffeinating());
}

#[test]
fn quit_is_not_a_transition() {
    let mut state = AppState::new(config(None, None), Mode::Laptop);
    state.caffeination_started(5);
    assert!(matches!(state.handle(StateChangeMessage::Quit), Action::Nothing));
    assert_eq!(state.mode(), Mode::Laptop);
    assert_eq!(state.caffeination_id(), Some(5));
}

#[test]
fn shutdown_kills_a_running_session() {
    let mut state = AppState::new(config(None, None), Mode::Laptop);
    state.caffeination_started(77);
    let action = state.shutdown();
    assert_eq!(
        command_of(&action),
        (String::from("kill"), vec![String::from("-9"), String::from("77")])
    );
    assert!(!state.caffeinating());
    assert!(matches!(state.shutdown(), Action::Nothing));
}

#[test]
fn consumer_stops_at_quit() {
    let queue = vec![
        StateChangeMessage::ToggleMode,
        StateChangeMessage::ToggleCaffeination,
        StateChangeMessage::Quit,
        StateChangeMessage::ToggleMode,
    ];
    let (delivered, stop) = Application::deliverable(&queue);
    assert_eq!(
        delivered,
        vec![StateChangeMessage::ToggleMode, StateChangeMessage::ToggleCaffeination]
    );
    assert!(stop);
}

#[test]
fn consumer_delivers_a_queue_without_quit_whole() {
    let queue = vec![
        StateChangeMessage::ClearCaffeination,
        StateChangeMessage::ToggleMode,
        StateChangeMessage::ToggleCaffeination,
    ];
    let (delivered, stop) = Application::deliverable(&queue);
    assert_eq!(delivered, queue);
    assert!(!stop);
    let (delivered, stop) = Application::deliverable(&vec![]);
    assert!(delivered.is_empty());
    assert!(!stop);
}
