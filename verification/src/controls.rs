//! What the tray's controls mean.
//!
//! A click on the tray icon and a click on an entry of its menu each arrive
//! as a text: the event that the user has bound to the icon, or the
//! identifier of the entry. This module says which action a text stands
//! for, which icon and which tooltip a state of the proxy calls for.

use vstd::prelude::*;

verus! {

/// Whether two texts are the same.
pub fn same_text(left: &str, right: &str) -> (same: bool)
    ensures
        same == (left@ == right@),
{
    left.to_owned() == right.to_owned()
}

/// The routing mode of the proxy core.
#[derive(Clone, Copy, Debug, PartialEq, Eq, Structural)]
pub enum ClashMode {
    Rule,
    Global,
    Direct,
}

/// What a control asks the application to do.
#[derive(Clone, Copy, Debug, PartialEq, Eq, Structural)]
pub enum TrayAction {
    /// Switch the proxy core to a routing mode.
    ChangeMode(ClashMode),
    /// Show the main window.
    OpenWindow,
    /// Switch the system proxy on or off.
    ToggleSystemProxy,
    /// Switch TUN mode on or off.
    ToggleTunMode,
    /// Copy the proxy's environment variables to the clipboard.
    CopyEnv,
    /// Open the configuration directory.
    OpenAppDir,
    /// Open the directory of the proxy core.
    OpenCoreDir,
    /// Open the directory of the logs.
    OpenLogsDir,
    /// Restart the proxy core.
    RestartClash,
    /// Restart the application.
    RestartApp,
    /// Leave the application.
    Quit,
    /// Nothing: the control is not bound to an action.
    Nothing,
}

/// The name by which the proxy core knows a mode.
pub open spec fn mode_name(mode: ClashMode) -> Seq<char> {
    match mode {
        ClashMode::Rule => "rule"@,
        ClashMode::Global => "global"@,
        ClashMode::Direct => "direct"@,
    }
}

/// The mode of a name, if the name is that of a mode.
pub open spec fn mode_of(name: Seq<char>) -> Option<ClashMode> {
    if name == "rule"@ {
        Some(ClashMode::Rule)
    } else if name == "global"@ {
        Some(ClashMode::Global)
    } else if name == "direct"@ {
        Some(ClashMode::Direct)
    } else {
        None
    }
}

/// The action of the menu entry with identifier `id`. The entry of a mode
/// has the mode's name followed by `_mode`.
pub open spec fn menu_action_of(id: Seq<char>) -> TrayAction {
    if id == "rule_mode"@ {
        TrayAction::ChangeMode(ClashMode::Rule)
    } else if id == "global_mode"@ {
        TrayAction::ChangeMode(ClashMode::Global)
    } else if id == "direct_mode"@ {
        TrayAction::ChangeMode(ClashMode::Direct)
    } else if id == "open_window"@ {
        TrayAction::OpenWindow
    } else if id == "system_proxy"@ {
        TrayAction::ToggleSystemProxy
    } else if id == "tun_mode"@ {
        TrayAction::ToggleTunMode
    } else if id == "copy_env"@ {
        TrayAction::CopyEnv
    } else if id == "open_app_dir"@ {
        TrayAction::OpenAppDir
    } else if id == "open_core_dir"@ {
        TrayAction::OpenCoreDir
    } else if id == "open_logs_dir"@ {
        TrayAction::OpenLogsDir
    } else if id == "restart_clash"@ {
        TrayAction::RestartClash
    } else if id == "restart_app"@ {
        TrayAction::RestartApp
    } else if id == "quit"@ {
        TrayAction::Quit
    } else {
        TrayAction::Nothing
    }
}

/// The action of a click on the tray icon, given the event that the user has
/// bound to it. Without a binding the click shows the main window.
pub open spec fn click_action_of(tray_event: Option<Seq<char>>) -> TrayAction {
    match tray_event {
        None => TrayAction::OpenWindow,
        Some(event) => if event == "system_proxy"@ {
            TrayAction::ToggleSystemProxy
        } else if event == "tun_mode"@ {
            TrayAction::ToggleTunMode
        } else if event == "main_window"@ {
            TrayAction::OpenWindow
        } else {
            TrayAction::Nothing
        },
    }
}

impl ClashMode {
    /// The name by which the proxy core knows the mode.
    pub fn name(&self) -> (name: &'static str)
        ensures
            name@ == mode_name(*self),
    {
        match self {
            ClashMode::Rule => "rule",
            ClashMode::Global => "global",
            ClashMode::Direct => "direct",
        }
    }

    /// The mode of a name, if the name is that of a mode.
    pub fn parse(name: &str) -> (mode: Option<ClashMode>)
        ensures
            mode == mode_of(name@),
    {
        if same_text(name, "rule") {
            Some(ClashMode::Rule)
        } else if same_text(name, "global") {
            Some(ClashMode::Global)
        } else if same_text(name, "direct") {
            Some(ClashMode::Direct)
        } else {
            None
        }
    }
}

/// The action of the menu entry with identifier `id`.
pub fn menu_action(id: &str) -> (action: TrayAction)
    ensures
        action == menu_action_of(id@),
{
    if same_text(id, "rule_mode") {
        TrayAction::ChangeMode(ClashMode::Rule)
    } else if same_text(id, "global_mode") {
        TrayAction::ChangeMode(ClashMode::Global)
    } else if same_text(id, "direct_mode") {
        TrayAction::ChangeMode(ClashMode::Direct)
    } else if same_text(id, "open_window") {
        TrayAction::OpenWindow
    } else if same_text(id, "system_proxy") {
        TrayAction::ToggleSystemProxy
    } else if same_text(id, "tun_mode") {
        TrayAction::ToggleTunMode
    } else if same_text(id, "copy_env") {
        TrayAction::CopyEnv
    } else if same_text(id, "open_app_dir") {
        TrayAction::OpenAppDir
    } else if same_text(id, "open_core_dir") {
        TrayAction::OpenCoreDir
    } else if same_text(id, "open_logs_dir") {
        TrayAction::OpenLogsDir
    } else if same_text(id, "restart_clash") {
        TrayAction::RestartClash
    } else if same_text(id, "restart_app") {
        TrayAction::RestartApp
    } else if same_text(id, "quit") {
        TrayAction::Quit
    } else {
        TrayAction::Nothing
    }
}

/// The action of a click on the tray icon, given the event that the user has
/// bound to it.
pub fn click_action(tray_event: Option<&str>) -> (action: TrayAction)
    ensures
        action == click_action_of(
            match tray_event {
                Some(event) => Some(event@),
                None => None,
            },
        ),
{
    match tray_event {
        None => TrayAction::OpenWindow,
        Some(event) => {
            if same_text(event, "system_proxy") {
                TrayAction::ToggleSystemProxy
            } else if same_text(event, "tun_mode") {
                TrayAction::ToggleTunMode
            } else if same_text(event, "main_window") {
                TrayAction::OpenWindow
            } else {
                TrayAction::Nothing
            }
        },
    }
}

/// The entry of a mode in the menu is named after the mode: its identifier
/// is the mode's name followed by `_mode`, and choosing it changes to that
/// mode.
pub proof fn lemma_mode_entries(mode: ClashMode)
    ensures
        menu_action_of(mode_name(mode) + "_mode"@) == TrayAction::ChangeMode(mode),
        mode_of(mode_name(mode)) == Some(mode),
{
    reveal_strlit("_mode");
    reveal_strlit("rule");
    reveal_strlit("global");
    reveal_strlit("direct");
    reveal_strlit("rule_mode");
    reveal_strlit("global_mode");
    reveal_strlit("direct_mode");
    assert("rule"@ + "_mode"@ =~= "rule_mode"@);
    assert("global"@ + "_mode"@ =~= "global_mode"@);
    assert("direct"@ + "_mode"@ =~= "direct_mode"@);
    assert("global"@.len() != "rule"@.len());
    assert("direct"@[0] != "rule"@[0]);
    assert("direct"@[0] != "global"@[0]);
    assert("global_mode"@.len() != "rule_mode"@.len());
    assert("direct_mode"@[0] != "rule_mode"@[0]);
    assert("direct_mode"@[0] != "global_mode"@[0]);
}

/// Which of the tray's icons shows the state of the proxy.
#[derive(Clone, Copy, Debug, PartialEq, Eq, Structural)]
pub enum IconState {
    /// Neither the system proxy nor TUN mode is on.
    Common,
    /// The system proxy is on and TUN mode is not.
    SystemProxy,
    /// TUN mode is on.
    Tun,
}

/// The icon for a state of the proxy: TUN mode outranks the system proxy.
pub open spec fn icon_state_of(system_proxy: bool, tun_mode: bool) -> IconState {
    if tun_mode {
        IconState::Tun
    } else if system_proxy {
        IconState::SystemProxy
    } else {
        IconState::Common
    }
}

/// The name under which the user's own icon for a state is kept.
pub open spec fn custom_icon_name_of(state: IconState) -> Seq<char> {
    match state {
        IconState::Common => "common"@,
        IconState::SystemProxy => "sysproxy"@,
        IconState::Tun => "tun"@,
    }
}

impl IconState {
    /// The icon for a state of the proxy.
    pub fn select(system_proxy: bool, tun_mode: bool) -> (state: IconState)
        ensures
            state == icon_state_of(system_proxy, tun_mode),
    {
        if system_proxy && !tun_mode {
            IconState::SystemProxy
        } else if tun_mode {
            IconState::Tun
        } else {
            IconState::Common
        }
    }

    /// The name under which the user's own icon for the state is kept.
    pub fn custom_icon_name(&self) -> (name: &'static str)
        ensures
            name@ == custom_icon_name_of(*self),
    {
        match self {
            IconState::Common => "common",
            IconState::SystemProxy => "sysproxy",
            IconState::Tun => "tun",
        }
    }
}

/// One of two texts by language.
pub open spec fn localized(english: Seq<char>, chinese: Seq<char>, use_zh: bool) -> Seq<char> {
    if use_zh {
        chinese
    } else {
        english
    }
}

/// How a switch is written in the tooltip.
pub open spec fn switch_text(on: bool) -> Seq<char> {
    if on {
        "on"@
    } else {
        "off"@
    }
}

/// The tooltip of the tray icon: the application with its version, then the
/// state of the system proxy, the state of TUN mode and the name of the
/// current profile, each on a line of its own.
pub open spec fn tooltip_of(
    version: Seq<char>,
    system_proxy: bool,
    tun_mode: bool,
    profile: Option<Seq<char>>,
    use_zh: bool,
) -> Seq<char> {
    "Clash Verge "@ + version + "\n"@ + localized("SysProxy"@, "系统代理"@, use_zh) + ": "@
        + switch_text(system_proxy) + "\n"@ + localized("TUN"@, "Tun模式"@, use_zh) + ": "@
        + switch_text(tun_mode) + "\n"@ + localized("Profile"@, "当前订阅"@, use_zh) + ": "@ + (
    match profile {
        Some(name) => name,
        None => "None"@,
    })
}

/// One of two texts by language.
pub fn localize<'a>(english: &'a str, chinese: &'a str, use_zh: bool) -> (text: &'a str)
    ensures
        text@ == localized(english@, chinese@, use_zh),
{
    if use_zh {
        chinese
    } else {
        english
    }
}

/// Builds the tooltip of the tray icon.
pub fn tooltip(
    version: &str,
    system_proxy: bool,
    tun_mode: bool,
    profile: Option<&str>,
    use_zh: bool,
) -> (text: String)
    ensures
        text@ == tooltip_of(
            version@,
            system_proxy,
            tun_mode,
            match profile {
                Some(name) => Some(name@),
                None => None,
            },
            use_zh,
        ),
{
    let mut text = String::new();
    text.append("Clash Verge ");
    text.append(version);
    text.append("\n");
    text.append(localize("SysProxy", "系统代理", use_zh));
    text.append(": ");
    text.append(if system_proxy { "on" } else { "off" });
    text.append("\n");
    text.append(localize("TUN", "Tun模式", use_zh));
    text.append(": ");
    text.append(if tun_mode { "on" } else { "off" });
    text.append("\n");
    text.append(localize("Profile", "当前订阅", use_zh));
    text.append(": ");
    let profile_text = match profile {
        Some(name) => name,
        None => "None",
    };
    text.append(profile_text);
    assert(text@ =~= tooltip_of(
        version@,
        system_proxy,
        tun_mode,
        match profile {
            Some(name) => Some(name@),
            None => None,
        },
        use_zh,
    ));
    text
}

} // verus!
