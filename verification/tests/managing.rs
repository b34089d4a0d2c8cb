use desktop_embed::diagnostics::{DiagLevel, Diagnostics};
use desktop_embed::widget::{
    str_eq, str_le, ytml_stem_of, DomNode, Message, WidgetCommandError, WidgetDefinition,
    WidgetManager, WidgetState, WindowConfig,
};
use std::collections::HashMap;

fn loaded_manager() -> WidgetManager {
    let mut manager = WidgetManager::new();
    let files = vec![
        "clock.ytml".to_string(),
        "readme.txt".to_string(),
        "cpu.ytml".to_string(),
    ];
    manager.load_widgets("widgets", &files);
    manager
}

#[test]
fn window_config_default_values() {
    let c = WindowConfig::default();
    assert_eq!(c.width, 800);
    assert_eq!(c.height, 600);
    assert_eq!(c.x, None);
    assert_eq!(c.y, None);
    assert!(c.decorations);
    assert!(!c.transparent);
    assert!(c.resizable);
}

#[test]
fn widget_definition_passes_body_through() {
    let body = DomNode {
        tag_name: "body".to_string(),
        attributes: HashMap::new(),
        children: vec![DomNode {
            tag_name: "text".to_string(),
            attributes: HashMap::new(),
            children: Vec::new(),
            text_content: Some("hello".to_string()),
        }],
        text_content: None,
    };
    let def = WidgetDefinition {
        id: "main".to_string(),
        config: WindowConfig::default(),
        body,
    };
    assert_eq!(def.id, "main");
    assert_eq!(def.body.tag_name, "body");
    assert_eq!(def.body.children[0].text_content.as_deref(), Some("hello"));
    assert_eq!(def.config, WindowConfig::default());
}

#[test]
fn message_has_empty_variant() {
    assert_eq!(Message::Empty, Message::Empty);
}

#[test]
fn diagnostics_verbose_records_all_levels() {
    let mut d = Diagnostics::new(true);
    d.emit(DiagLevel::Info, "handle obtained".to_string());
    d.emit(DiagLevel::Error, "no surface".to_string());
    assert_eq!(
        d.messages,
        vec![
            (DiagLevel::Info, "handle obtained".to_string()),
            (DiagLevel::Error, "no surface".to_string()),
        ]
    );
}

#[test]
fn diagnostics_silent_unless_verbose() {
    // Failures are silent by design: without verbose output nothing is
    // recorded, not even errors.
    let mut d = Diagnostics::new(false);
    d.emit(DiagLevel::Info, "handle obtained".to_string());
    d.emit(DiagLevel::Error, "no surface".to_string());
    assert!(d.messages.is_empty());
}

#[test]
fn str_eq_matches_exactly() {
    assert!(str_eq("WorkerW", "WorkerW"));
    assert!(!str_eq("WorkerW", "WorkerWExtra"));
    assert!(!str_eq("WorkerW", "workerw"));
    assert!(str_eq("", ""));
}

#[test]
fn str_le_orders_lexicographically() {
    assert!(str_le("a", "b"));
    assert!(!str_le("b", "a"));
    assert!(str_le("clock", "clock"));
    assert!(str_le("clock", "cpu"));
    assert!(str_le("", "a"));
    assert!(!str_le("aa", "a"));
    assert!(str_le("a", "aa"));
}

#[test]
fn load_widgets_returns_sorted_names() {
    let mut manager = WidgetManager::new();
    let files = vec![
        "b.ytml".to_string(),
        "c.ytml".to_string(),
        "a.ytml".to_string(),
    ];
    let names = manager.load_widgets("w", &files);
    assert_eq!(names, vec!["a".to_string(), "b".to_string(), "c".to_string()]);
}

#[test]
fn ytml_stem_of_suffix_handling() {
    assert_eq!(ytml_stem_of(&"clock.ytml".to_string()), Some("clock".to_string()));
    assert_eq!(ytml_stem_of(&"readme.txt".to_string()), None);
    assert_eq!(ytml_stem_of(&".ytml".to_string()), Some("".to_string()));
    assert_eq!(ytml_stem_of(&"ytml".to_string()), None);
    assert_eq!(ytml_stem_of(&"a.ytm".to_string()), None);
}

#[test]
fn load_widgets_filters_and_strips() {
    let mut manager = WidgetManager::new();
    let files = vec![
        "clock.ytml".to_string(),
        "readme.txt".to_string(),
        "cpu.ytml".to_string(),
    ];
    let names = manager.load_widgets("widgets", &files);
    assert_eq!(names, vec!["clock".to_string(), "cpu".to_string()]);
    assert_eq!(manager.widgets.len(), 2);
    assert_eq!(manager.widgets[0].name, "clock");
    assert_eq!(manager.widgets[0].path, "widgets/clock.ytml");
    assert!(!manager.widgets[0].is_running);
    assert_eq!(manager.widgets[1].name, "cpu");
    assert_eq!(manager.widgets[1].path, "widgets/cpu.ytml");
}

#[test]
fn load_widgets_again_replaces_entries() {
    let mut manager = loaded_manager();
    manager.start_widget("clock").unwrap();
    let names = manager.load_widgets("widgets", &vec!["clock.ytml".to_string()]);
    assert_eq!(names, vec!["clock".to_string()]);
    // Reloading replaced the entry: the widget is registered once and not
    // running any more.
    assert_eq!(manager.widgets.len(), 2);
    assert!(!manager.is_running("clock"));
}

#[test]
fn start_widget_runs_once() {
    let mut manager = loaded_manager();
    assert!(!manager.is_running("clock"));
    assert_eq!(manager.start_widget("clock"), Ok(()));
    assert!(manager.is_running("clock"));
    assert!(!manager.is_running("cpu"));
    assert_eq!(manager.start_widget("clock"), Err(WidgetCommandError::AlreadyRunning));
}

#[test]
fn start_widget_unknown_name() {
    let mut manager = loaded_manager();
    assert_eq!(manager.start_widget("missing"), Err(WidgetCommandError::NotFound));
}

#[test]
fn stop_widget_stops_running() {
    let mut manager = loaded_manager();
    assert_eq!(manager.stop_widget("clock"), Err(WidgetCommandError::NotRunning));
    manager.start_widget("clock").unwrap();
    assert_eq!(manager.stop_widget("clock"), Ok(()));
    assert!(!manager.is_running("clock"));
    assert_eq!(manager.stop_widget("missing"), Err(WidgetCommandError::NotFound));
}

#[test]
fn toggle_widget_flips() {
    let mut manager = loaded_manager();
    assert_eq!(manager.toggle_widget("clock"), Ok(true));
    assert!(manager.is_running("clock"));
    assert_eq!(manager.toggle_widget("clock"), Ok(false));
    assert!(!manager.is_running("clock"));
    assert_eq!(manager.toggle_widget("missing"), Err(WidgetCommandError::NotFound));
}

#[test]
fn start_all_and_stop_all() {
    let mut manager = loaded_manager();
    manager.start_all();
    assert!(manager.is_running("clock"));
    assert!(manager.is_running("cpu"));
    manager.stop_all();
    assert!(!manager.is_running("clock"));
    assert!(!manager.is_running("cpu"));
}

#[test]
fn unknown_widget_is_not_running() {
    let manager = loaded_manager();
    assert!(!manager.is_running("missing"));
}

#[test]
fn get_all_widgets_lists_names() {
    let manager = loaded_manager();
    assert_eq!(manager.get_all_widgets(), vec!["clock".to_string(), "cpu".to_string()]);
}

#[test]
fn register_keeps_other_entries() {
    let mut manager = loaded_manager();
    manager.register(WidgetState {
        name: "clock".to_string(),
        is_running: true,
        path: "elsewhere/clock.ytml".to_string(),
    });
    assert_eq!(manager.widgets.len(), 2);
    assert!(manager.is_running("clock"));
    assert_eq!(manager.widgets[1].name, "cpu");
}
