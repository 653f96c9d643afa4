use trigger::config::{Config, Settings};
use trigger::delivery::{Delivery, Source};
use trigger::handler::Handler;

fn full_config() -> Config {
    Config {
        events: vec![
            ("common".to_string(), "C".to_string()),
            ("all".to_string(), "A".to_string()),
            ("push".to_string(), "P".to_string()),
            ("else".to_string(), "X".to_string()),
        ],
        settings: Settings::default(),
    }
}

fn delivery_for(event: Option<&str>) -> Delivery {
    Delivery::new(
        Source::GitHub,
        Some("1".to_string()),
        event.map(|e| e.to_string()),
        None,
        None,
        None,
    )
}

#[test]
fn empty_set_when_nothing_configured() {
    let handler = Handler::new(Config {
        events: vec![("ping".to_string(), "pong".to_string())],
        settings: Settings::default(),
    });
    let resolved = handler.resolve_commands(&delivery_for(Some("push")));
    assert!(resolved.all.is_none());
    assert!(resolved.matched.is_none());
    assert!(resolved.fallback.is_none());
    let commands = handler.rendered_commands(&delivery_for(Some("push")));
    assert!(commands.is_empty());
}

#[test]
fn all_and_match_both_fire() {
    let handler = Handler::new(full_config());
    let resolved = handler.resolve_commands(&delivery_for(Some("push")));
    assert_eq!(resolved.all.as_deref(), Some("C\nA"));
    assert_eq!(resolved.matched.as_deref(), Some("C\nP"));
    assert!(resolved.fallback.is_none());
}

#[test]
fn else_fires_only_without_match() {
    let handler = Handler::new(full_config());
    let resolved = handler.resolve_commands(&delivery_for(Some("fork")));
    assert!(resolved.matched.is_none());
    assert_eq!(resolved.fallback.as_deref(), Some("C\nX"));
    assert_eq!(resolved.all.as_deref(), Some("C\nA"));
}

#[test]
fn matched_event_command_set() {
    let handler = Handler::new(full_config());
    let commands = handler.rendered_commands(&delivery_for(Some("push")));
    assert_eq!(commands.len(), 2);
    assert_eq!(commands[0].0.as_str(), "all");
    assert_eq!(commands[0].1.as_str(), "C\nA");
    assert_eq!(commands[1].0.as_str(), "push");
    assert_eq!(commands[1].1.as_str(), "C\nP");
}

#[test]
fn unmatched_event_command_set() {
    let handler = Handler::new(full_config());
    let commands = handler.rendered_commands(&delivery_for(Some("fork")));
    assert_eq!(commands.len(), 2);
    assert_eq!(commands[0].0.as_str(), "all");
    assert_eq!(commands[0].1.as_str(), "C\nA");
    assert_eq!(commands[1].0.as_str(), "else");
    assert_eq!(commands[1].1.as_str(), "C\nX");
}

#[test]
fn absent_event_matches_unknown_key() {
    let handler = Handler::new(Config {
        events: vec![("unknown".to_string(), "U".to_string())],
        settings: Settings::default(),
    });
    let resolved = handler.resolve_commands(&delivery_for(None));
    assert_eq!(resolved.matched.as_deref(), Some("U"));
    assert!(resolved.fallback.is_none());
}

#[test]
fn common_prefix_per_section() {
    let handler = Handler::new(Config {
        events: vec![
            ("common".to_string(), "C".to_string()),
            ("push".to_string(), "E".to_string()),
        ],
        settings: Settings::default(),
    });
    assert_eq!(handler.section("push").as_deref(), Some("C\nE"));
}

#[test]
fn empty_common_adds_no_prefix_line() {
    let handler = Handler::new(Config {
        events: vec![
            ("common".to_string(), "".to_string()),
            ("push".to_string(), "E".to_string()),
        ],
        settings: Settings::default(),
    });
    assert_eq!(handler.section("push").as_deref(), Some("E"));
}

#[test]
fn absent_common_adds_no_prefix_line() {
    let handler = Handler::new(Config {
        events: vec![("push".to_string(), "E".to_string())],
        settings: Settings::default(),
    });
    assert_eq!(handler.section("push").as_deref(), Some("E"));
}

#[test]
fn first_entry_wins_on_duplicate_names() {
    let handler = Handler::new(Config {
        events: vec![
            ("push".to_string(), "first".to_string()),
            ("push".to_string(), "second".to_string()),
        ],
        settings: Settings::default(),
    });
    assert_eq!(handler.section("push").as_deref(), Some("first"));
}

#[test]
fn process_commands_renders_placeholders() {
    let handler = Handler::new(Config {
        events: vec![("push".to_string(), "deploy {event}".to_string())],
        settings: Settings::default(),
    });
    let result = handler.process_commands("push", &delivery_for(Some("push")));
    assert_eq!(result.as_deref(), Some("deploy push"));
}

#[test]
fn process_commands_none_without_template() {
    let handler = Handler::new(full_config());
    let result = handler.process_commands("fork", &delivery_for(Some("fork")));
    assert!(result.is_none());
}

#[test]
fn script_options_default_to_false() {
    let handler = Handler::new(full_config());
    let options = handler.config.script_options();
    assert!(!options.capture_output);
    assert!(!options.exit_on_error);
    assert!(!options.print_commands);
}

#[test]
fn script_options_follow_settings() {
    let config = Config {
        events: vec![],
        settings: Settings {
            capture_output: Some(true),
            exit_on_error: Some(true),
            print_commands: Some(false),
            secret: None,
            host: None,
            kotomei: None,
        },
    };
    let options = config.script_options();
    assert!(options.capture_output);
    assert!(options.exit_on_error);
    assert!(!options.print_commands);
}

#[test]
fn settings_getters() {
    let config = Config {
        events: vec![],
        settings: Settings {
            capture_output: None,
            exit_on_error: None,
            print_commands: None,
            secret: Some("secret".to_string()),
            host: Some("0.0.0.0:4567".to_string()),
            kotomei: Some(false),
        },
    };
    assert_eq!(config.secret().as_deref(), Some("secret"));
    assert_eq!(config.host().as_deref(), Some("0.0.0.0:4567"));
    assert!(!config.kotomei_warning());
    let bare = Config { events: vec![], settings: Settings::default() };
    assert!(bare.secret().is_none());
    assert!(bare.host().is_none());
    assert!(bare.kotomei_warning());
}
