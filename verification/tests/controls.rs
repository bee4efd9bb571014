use tray_traffic::controls::{
    click_action, localize, menu_action, same_text, tooltip, ClashMode, IconState, TrayAction,
};

#[test]
fn texts_are_compared_by_content() {
    assert!(same_text("tun_mode", "tun_mode"));
    assert!(same_text("", ""));
    assert!(!same_text("tun_mode", "tun_mode "));
    assert!(!same_text("Rule", "rule"));
}

#[test]
fn mode_entries_change_the_mode() {
    assert_eq!(menu_action("rule_mode"), TrayAction::ChangeMode(ClashMode::Rule));
    assert_eq!(menu_action("global_mode"), TrayAction::ChangeMode(ClashMode::Global));
    assert_eq!(menu_action("direct_mode"), TrayAction::ChangeMode(ClashMode::Direct));
}

#[test]
fn mode_entry_is_the_name_of_the_mode_with_a_suffix() {
    for mode in [ClashMode::Rule, ClashMode::Global, ClashMode::Direct] {
        let id = format!("{}_mode", mode.name());
        assert_eq!(menu_action(&id), TrayAction::ChangeMode(mode));
        assert_eq!(&id[0..id.len() - 5], mode.name());
        assert_eq!(ClashMode::parse(mode.name()), Some(mode));
    }
}

#[test]
fn mode_names() {
    assert_eq!(ClashMode::Rule.name(), "rule");
    assert_eq!(ClashMode::Global.name(), "global");
    assert_eq!(ClashMode::Direct.name(), "direct");
    assert_eq!(ClashMode::parse("script"), None);
    assert_eq!(ClashMode::parse(""), None);
    assert_eq!(ClashMode::parse("rule_mode"), None);
}

#[test]
fn other_entries() {
    assert_eq!(menu_action("open_window"), TrayAction::OpenWindow);
    assert_eq!(menu_action("system_proxy"), TrayAction::ToggleSystemProxy);
    assert_eq!(menu_action("tun_mode"), TrayAction::ToggleTunMode);
    assert_eq!(menu_action("copy_env"), TrayAction::CopyEnv);
    assert_eq!(menu_action("open_app_dir"), TrayAction::OpenAppDir);
    assert_eq!(menu_action("open_core_dir"), TrayAction::OpenCoreDir);
    assert_eq!(menu_action("open_logs_dir"), TrayAction::OpenLogsDir);
    assert_eq!(menu_action("restart_clash"), TrayAction::RestartClash);
    assert_eq!(menu_action("restart_app"), TrayAction::RestartApp);
    assert_eq!(menu_action("quit"), TrayAction::Quit);
}

#[test]
fn entries_without_an_action() {
    assert_eq!(menu_action("app_version"), TrayAction::Nothing);
    assert_eq!(menu_action("open_dir"), TrayAction::Nothing);
    assert_eq!(menu_action("more"), TrayAction::Nothing);
    assert_eq!(menu_action(""), TrayAction::Nothing);
    assert_eq!(menu_action("script_mode"), TrayAction::Nothing);
}

#[test]
fn click_follows_the_binding() {
    assert_eq!(click_action(Some("system_proxy")), TrayAction::ToggleSystemProxy);
    assert_eq!(click_action(Some("tun_mode")), TrayAction::ToggleTunMode);
    assert_eq!(click_action(Some("main_window")), TrayAction::OpenWindow);
}

#[test]
fn click_without_a_binding_opens_the_window() {
    assert_eq!(click_action(None), TrayAction::OpenWindow);
}

#[test]
fn click_with_an_unknown_binding_does_nothing() {
    assert_eq!(click_action(Some("menu")), TrayAction::Nothing);
    assert_eq!(click_action(Some("")), TrayAction::Nothing);
}

#[test]
fn icon_follows_the_state_of_the_proxy() {
    assert_eq!(IconState::select(false, false), IconState::Common);
    assert_eq!(IconState::select(true, false), IconState::SystemProxy);
    assert_eq!(IconState::select(false, true), IconState::Tun);
    assert_eq!(IconState::select(true, true), IconState::Tun);
}

#[test]
fn names_of_custom_icons() {
    assert_eq!(IconState::Common.custom_icon_name(), "common");
    assert_eq!(IconState::SystemProxy.custom_icon_name(), "sysproxy");
    assert_eq!(IconState::Tun.custom_icon_name(), "tun");
}

#[test]
fn text_by_language() {
    assert_eq!(localize("Quit", "退出", false), "Quit");
    assert_eq!(localize("Quit", "退出", true), "退出");
}

#[test]
fn tooltip_in_english() {
    assert_eq!(
        tooltip("v2.0.0", true, false, Some("Home"), false),
        "Clash Verge v2.0.0\nSysProxy: on\nTUN: off\nProfile: Home"
    );
}

#[test]
fn tooltip_in_chinese() {
    assert_eq!(
        tooltip("v2.0.0", false, true, Some("Home"), true),
        "Clash Verge v2.0.0\n系统代理: off\nTun模式: on\n当前订阅: Home"
    );
}

#[test]
fn tooltip_without_a_profile() {
    assert_eq!(
        tooltip("1", false, false, None, false),
        "Clash Verge 1\nSysProxy: off\nTUN: off\nProfile: None"
    );
}
