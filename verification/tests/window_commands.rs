use winshell::config::ConfigEntry;
use winshell::config::ConfigValue;
use winshell::manager::CreationError;
use winshell::manager::WindowManager;
use winshell::window::WindowState;

fn base_state() -> WindowState {
    WindowState {
        title: String::from("untitled"),
        width: 800,
        height: 600,
        fullscreen: false,
        decorations: true,
        always_on_top: false,
        resizable: true,
        visible: true,
        minimized: false,
        maximized: false,
        init_label: String::new(),
    }
}

fn e_text(key: &str, value: &str) -> ConfigEntry {
    ConfigEntry { key: String::from(key), value: ConfigValue::Text(String::from(value)) }
}

fn e_num(key: &str, value: u32) -> ConfigEntry {
    ConfigEntry { key: String::from(key), value: ConfigValue::Num(value) }
}

fn e_flag(key: &str, value: bool) -> ConfigEntry {
    ConfigEntry { key: String::from(key), value: ConfigValue::Flag(value) }
}

#[test]
fn create_fresh_label_succeeds() {
    let mut manager = WindowManager::new();
    let entries: Vec<ConfigEntry> = Vec::new();
    let result = manager.create_window(String::from("editor"), base_state(), &entries);
    assert!(result.is_ok());
    assert!(manager.contains(&String::from("editor")));
    let window = manager.get_window(&String::from("editor")).unwrap();
    let b = base_state();
    assert_eq!(window.title, b.title);
    assert_eq!(window.width, b.width);
    assert_eq!(window.height, b.height);
    assert_eq!(window.fullscreen, b.fullscreen);
    assert_eq!(window.decorations, b.decorations);
    assert_eq!(window.always_on_top, b.always_on_top);
    assert_eq!(window.init_label, "editor");
}

#[test]
fn create_duplicate_label_fails() {
    let mut manager = WindowManager::new();
    let entries: Vec<ConfigEntry> = Vec::new();
    assert!(manager.create_window(String::from("editor"), base_state(), &entries).is_ok());
    let second = manager.create_window(String::from("editor"), base_state(), &entries);
    assert_eq!(second, Err(CreationError::LabelInUse));
    assert!(manager.contains(&String::from("editor")));
}

#[test]
fn create_empty_label_fails() {
    let mut manager = WindowManager::new();
    let entries: Vec<ConfigEntry> = Vec::new();
    let result = manager.create_window(String::new(), base_state(), &entries);
    assert_eq!(result, Err(CreationError::EmptyLabel));
    assert!(!manager.contains(&String::new()));
}

#[test]
fn creation_error_messages() {
    assert_eq!(CreationError::EmptyLabel.message(), "window label must not be empty");
    assert_eq!(CreationError::LabelInUse.message(), "a window with this label already exists");
}

#[test]
fn create_applies_config_with_unrecognized_key() {
    let mut manager = WindowManager::new();
    let entries = vec![
        ConfigEntry { key: String::from("opacity"), value: ConfigValue::Other },
        e_num("width", 400),
    ];
    let result = manager.create_window(String::from("panel"), base_state(), &entries);
    assert!(result.is_ok());
    let window = manager.get_window(&String::from("panel")).unwrap();
    assert_eq!(window.width, 400);
    assert_eq!(window.height, 600);
}

#[test]
fn close_removes_window() {
    let mut manager = WindowManager::new();
    let entries: Vec<ConfigEntry> = Vec::new();
    assert!(manager.create_window(String::from("editor"), base_state(), &entries).is_ok());
    manager.close_window(&String::from("editor"));
    assert!(!manager.contains(&String::from("editor")));
    assert!(manager.get_window(&String::from("editor")).is_none());
    // The label is free again: a later creation under it succeeds.
    assert!(manager.create_window(String::from("editor"), base_state(), &entries).is_ok());
}

#[test]
fn close_absent_label_is_noop() {
    let mut manager = WindowManager::new();
    let entries: Vec<ConfigEntry> = Vec::new();
    assert!(manager.create_window(String::from("editor"), base_state(), &entries).is_ok());
    manager.close_window(&String::from("missing"));
    assert!(manager.contains(&String::from("editor")));
}

#[test]
fn close_only_touches_target() {
    let mut manager = WindowManager::new();
    let entries: Vec<ConfigEntry> = Vec::new();
    assert!(manager.create_window(String::from("a"), base_state(), &entries).is_ok());
    assert!(manager.create_window(String::from("b"), base_state(), &entries).is_ok());
    manager.close_window(&String::from("a"));
    assert!(!manager.contains(&String::from("a")));
    assert!(manager.contains(&String::from("b")));
}

#[test]
fn minimize_sets_minimized() {
    let mut manager = WindowManager::new();
    let entries: Vec<ConfigEntry> = Vec::new();
    assert!(manager.create_window(String::from("editor"), base_state(), &entries).is_ok());
    manager.minimize_window(&String::from("editor"));
    let window = manager.get_window(&String::from("editor")).unwrap();
    assert!(window.minimized);
    assert!(!window.maximized);
    assert!(window.visible);
}

#[test]
fn maximize_and_unmaximize() {
    let mut manager = WindowManager::new();
    let entries: Vec<ConfigEntry> = Vec::new();
    assert!(manager.create_window(String::from("editor"), base_state(), &entries).is_ok());
    manager.maximize_window(&String::from("editor"));
    assert!(manager.get_window(&String::from("editor")).unwrap().maximized);
    manager.unmaximize_window(&String::from("editor"));
    assert!(!manager.get_window(&String::from("editor")).unwrap().maximized);
}

#[test]
fn hide_and_show_window() {
    let mut manager = WindowManager::new();
    let entries: Vec<ConfigEntry> = Vec::new();
    assert!(manager.create_window(String::from("editor"), base_state(), &entries).is_ok());
    manager.hide_window(&String::from("editor"));
    assert!(!manager.get_window(&String::from("editor")).unwrap().visible);
    manager.show_window(&String::from("editor"));
    assert!(manager.get_window(&String::from("editor")).unwrap().visible);
}

#[test]
fn set_window_title_updates_title() {
    let mut manager = WindowManager::new();
    let entries: Vec<ConfigEntry> = Vec::new();
    assert!(manager.create_window(String::from("editor"), base_state(), &entries).is_ok());
    manager.set_window_title(&String::from("editor"), String::from("My Document"));
    let window = manager.get_window(&String::from("editor")).unwrap();
    assert_eq!(window.title, "My Document");
    assert_eq!(window.width, 800);
}

#[test]
fn setter_on_absent_label_is_noop() {
    let mut manager = WindowManager::new();
    let entries: Vec<ConfigEntry> = Vec::new();
    assert!(manager.create_window(String::from("editor"), base_state(), &entries).is_ok());
    manager.minimize_window(&String::from("missing"));
    manager.set_window_title(&String::from("missing"), String::from("x"));
    let window = manager.get_window(&String::from("editor")).unwrap();
    assert!(!window.minimized);
    assert_eq!(window.title, "untitled");
}

#[test]
fn setters_only_touch_target() {
    let mut manager = WindowManager::new();
    let entries: Vec<ConfigEntry> = Vec::new();
    assert!(manager.create_window(String::from("a"), base_state(), &entries).is_ok());
    assert!(manager.create_window(String::from("b"), base_state(), &entries).is_ok());
    manager.minimize_window(&String::from("a"));
    assert!(manager.get_window(&String::from("a")).unwrap().minimized);
    assert!(!manager.get_window(&String::from("b")).unwrap().minimized);
}

#[test]
fn settings_scenario() {
    let mut manager = WindowManager::new();
    let entries = vec![
        e_text("title", "Settings"),
        e_num("width", 400),
        e_num("height", 300),
        e_flag("decorations", false),
    ];
    let result = manager.create_window(String::from("settings"), base_state(), &entries);
    assert!(result.is_ok());
    assert!(manager.contains(&String::from("settings")));
    let window = manager.get_window(&String::from("settings")).unwrap();
    assert_eq!(window.title, "Settings");
    assert_eq!(window.width, 400);
    assert_eq!(window.height, 300);
    assert!(!window.decorations);
    assert_eq!(window.init_label, "settings");
}
