//! Tests of the exit screen's action catalogue.

use desk_locker::actions::{
    build_actions, default_action_order, Action, ActionRun, Config, CustomAction, SessionCommand,
};

fn assert_builtin(entry: &(String, Action), name: &str, key: &str, icon: &str, desc: &str) {
    assert_eq!(entry.0, name);
    assert_eq!(entry.1.key, key);
    assert_eq!(entry.1.icon(), icon);
    assert_eq!(entry.1.description(), desc);
}

#[test]
fn default_order() {
    let order = default_action_order();
    assert_eq!(
        order,
        vec!["lock", "quit", "suspend", "hibernate", "reboot", "shutdown"]
    );
}

#[test]
fn default_config() {
    let c = Config::default();
    assert!(c.quit_command.is_none());
    assert_eq!(c.order, default_action_order());
    assert!(c.actions.is_empty());
}

#[test]
fn builtin_actions() {
    let acts = build_actions(Config::default());
    assert_eq!(acts.actions.len(), 5);
    assert_builtin(&acts.actions[0], "lock", "l", "system-lock-screen", "Lock your screen");
    assert_builtin(&acts.actions[1], "suspend", "s", "system-suspend", "Put the computer to sleep");
    assert_builtin(&acts.actions[2], "hibernate", "h", "system-hibernate", "Hibernate the computer");
    assert_builtin(&acts.actions[3], "reboot", "r", "system-restart", "Restart the computer");
    assert_builtin(&acts.actions[4], "shutdown", "p", "system-shutdown", "Shut the computer off");
    assert!(matches!(acts.actions[0].1.run(), ActionRun::Session(SessionCommand::Lock)));
    assert!(matches!(acts.actions[1].1.run(), ActionRun::Session(SessionCommand::Suspend)));
    assert!(matches!(acts.actions[2].1.run(), ActionRun::Session(SessionCommand::Hibernate)));
    assert!(matches!(acts.actions[3].1.run(), ActionRun::Session(SessionCommand::Reboot)));
    assert!(matches!(acts.actions[4].1.run(), ActionRun::Session(SessionCommand::PowerOff)));
    assert_eq!(acts.order, default_action_order());
}

#[test]
fn quit_action() {
    let config = Config {
        quit_command: Some(String::from("i3-msg exit")),
        order: default_action_order(),
        actions: Vec::new(),
    };
    let acts = build_actions(config);
    assert_eq!(acts.actions.len(), 6);
    assert_builtin(&acts.actions[5], "quit", "q", "system-log-out", "Log out");
    match acts.actions[5].1.run() {
        ActionRun::Shell(cmd) => assert_eq!(cmd, "i3-msg exit"),
        other => panic!("unexpected action run: {:?}", other),
    }
}

#[test]
fn custom_actions() {
    let custom = CustomAction {
        key: String::from("m"),
        icon: String::from("audio-volume-muted"),
        description: String::from("Mute the audio"),
        command: String::from("pactl set-sink-mute 0 toggle"),
    };
    let config = Config {
        quit_command: None,
        order: default_action_order(),
        actions: vec![(String::from("mute"), custom)],
    };
    let acts = build_actions(config);
    assert_eq!(acts.actions.len(), 6);
    assert_eq!(acts.actions[5].0, "mute");
    assert_eq!(acts.actions[5].1.key, "m");
    assert_eq!(acts.actions[5].1.icon(), "audio-volume-muted");
    assert_eq!(acts.actions[5].1.description(), "Mute the audio");
    match acts.actions[5].1.run() {
        ActionRun::Shell(cmd) => assert_eq!(cmd, "pactl set-sink-mute 0 toggle"),
        other => panic!("unexpected action run: {:?}", other),
    }
}

#[test]
fn display_follows_default_order() {
    // Default order is lock, quit, suspend, hibernate, reboot, shutdown;
    // with no quit command configured, "quit" has no entry and is skipped.
    let acts = build_actions(Config::default());
    let shown = acts.iter();
    let icons: Vec<&str> = shown.iter().map(|a| a.icon()).collect();
    assert_eq!(
        icons,
        vec![
            "system-lock-screen",
            "system-suspend",
            "system-hibernate",
            "system-restart",
            "system-shutdown"
        ]
    );
}

#[test]
fn display_follows_configured_order() {
    let config = Config {
        quit_command: None,
        order: vec![
            String::from("shutdown"),
            String::from("nonsense"),
            String::from("lock"),
        ],
        actions: Vec::new(),
    };
    let acts = build_actions(config);
    let shown = acts.iter();
    let icons: Vec<&str> = shown.iter().map(|a| a.icon()).collect();
    assert_eq!(icons, vec!["system-shutdown", "system-lock-screen"]);
}

#[test]
fn custom_action_overrides_builtin() {
    let custom = CustomAction {
        key: String::from("k"),
        icon: String::from("custom-lock"),
        description: String::from("Lock, but differently"),
        command: String::from("my-locker"),
    };
    let config = Config {
        quit_command: None,
        order: vec![String::from("lock")],
        actions: vec![(String::from("lock"), custom)],
    };
    let acts = build_actions(config);
    let hit = acts.get(&String::from("lock")).expect("lock action missing");
    assert_eq!(hit.icon(), "custom-lock");
    let shown = acts.iter();
    assert_eq!(shown.len(), 1);
    assert_eq!(shown[0].icon(), "custom-lock");
    // The shadowed built-in is gone for key lookup too: its key "l" finds
    // nothing, while the override's key finds the override.
    assert!(acts.find_by_key(&String::from("l")).is_none());
    let by_key = acts.find_by_key(&String::from("k")).expect("override not found by key");
    assert_eq!(by_key.icon(), "custom-lock");
}

#[test]
fn lookup_by_key() {
    let acts = build_actions(Config::default());
    let hit = acts.find_by_key(&String::from("h"));
    assert!(hit.is_some());
    assert_eq!(hit.unwrap().icon(), "system-hibernate");
    assert!(acts.find_by_key(&String::from("z")).is_none());
}

#[test]
fn lookup_by_name() {
    let acts = build_actions(Config::default());
    let hit = acts.get(&String::from("reboot"));
    assert!(hit.is_some());
    assert_eq!(hit.unwrap().icon(), "system-restart");
    assert!(acts.get(&String::from("quit")).is_none());
}
