use lwtray::apps::MalformedLine;
use lwtray::command::{activate, Effect};
use lwtray::menu::{Action, Label, MenuNode, Message};
use lwtray::tray::{resolve_icon, resolve_title, LwTray, DEFAULT_TITLE, TRAY_ID};

fn tray(icon: &str, title: &str, apps: &str) -> LwTray {
    LwTray { icon: icon.to_string(), title: title.to_string(), lw_apps: apps.to_string() }
}

fn fixed(message: Message, icon: &str, flag: &str) -> MenuNode {
    MenuNode::Item {
        label: Label::Message(message),
        icon: icon.to_string(),
        action: Action::Launch { flag: flag.to_string() },
        visible: true,
    }
}

fn app(name: &str, icon: &str, flag: &str) -> MenuNode {
    MenuNode::Item {
        label: Label::Text(name.to_string()),
        icon: icon.to_string(),
        action: Action::Launch { flag: flag.to_string() },
        visible: true,
    }
}

fn sub(message: Message, icon: &str, children: Vec<MenuNode>, visible: bool) -> MenuNode {
    MenuNode::SubMenu {
        label: Label::Message(message),
        icon: icon.to_string(),
        children,
        visible,
    }
}

fn children(node: &MenuNode) -> &Vec<MenuNode> {
    match node {
        MenuNode::SubMenu { children, .. } => children,
        MenuNode::Item { .. } => panic!("an item has no children"),
    }
}

fn visible(node: &MenuNode) -> bool {
    match node {
        MenuNode::SubMenu { visible, .. } => *visible,
        MenuNode::Item { visible, .. } => *visible,
    }
}

fn expected_menu(
    icon: &str,
    title: &str,
    run: Vec<MenuNode>,
    config: Vec<MenuNode>,
    apps_visible: bool,
    open_visible: bool,
) -> Vec<MenuNode> {
    vec![
        sub(Message::Apps, icon, run, apps_visible),
        sub(
            Message::Open,
            icon,
            vec![fixed(Message::LuxWine, icon, ""), fixed(Message::Debug, icon, "-debug")],
            open_visible,
        ),
        sub(
            Message::Wine,
            icon,
            vec![
                fixed(Message::Explorer, icon, "-explorer"),
                fixed(Message::TaskManager, icon, "-taskmgr"),
                fixed(Message::Cmd, icon, "-cmd"),
                fixed(Message::ControlPanel, icon, "-control"),
                fixed(Message::Settings, icon, "-winecfg"),
                fixed(Message::RegistryEditor, icon, "-regedit"),
                fixed(Message::Uninstaller, icon, "-uninstaller"),
            ],
            true,
        ),
        sub(
            Message::Kill,
            icon,
            vec![
                fixed(Message::Exe, icon, "-killexe"),
                fixed(Message::Wine, icon, "-killwine"),
                fixed(Message::Shell, icon, "-killshell"),
                fixed(Message::All, icon, "-exit"),
            ],
            true,
        ),
        sub(
            Message::Prefix,
            icon,
            vec![
                fixed(Message::OpenDriveC, icon, "-openpfx"),
                fixed(Message::Backup, icon, "-pfxbackup"),
                fixed(Message::Restore, icon, "-pfxrestore"),
                fixed(Message::Clear, icon, "-clearpfx"),
                fixed(Message::MountBackup, icon, "-backupmnt"),
                fixed(Message::UnmountBackup, icon, "-backupunmnt"),
            ],
            true,
        ),
        sub(
            Message::Settings,
            icon,
            vec![
                app(title, icon, "-config"),
                sub(Message::AppsSettings, icon, config, apps_visible),
                fixed(Message::WineManager, icon, "-winemgr"),
                fixed(Message::RuntimeUpdater, icon, "-update"),
                fixed(Message::Winetricks, icon, "-winetricks"),
                fixed(Message::ForcedInit, icon, "-init"),
                fixed(Message::OpenShell, icon, "-shell"),
                sub(
                    Message::Shortcut,
                    icon,
                    vec![
                        fixed(Message::Create, icon, "-shortcut"),
                        fixed(Message::Remove, icon, "-rmapp"),
                    ],
                    true,
                ),
                sub(
                    Message::Info,
                    icon,
                    vec![
                        fixed(Message::Usage, icon, "-help"),
                        fixed(Message::Version, icon, "-version"),
                    ],
                    true,
                ),
            ],
            true,
        ),
        MenuNode::Item {
            label: Label::Message(Message::Exit),
            icon: "application-exit".to_string(),
            action: Action::Exit,
            visible: true,
        },
    ]
}

#[test]
fn menu_without_applications() {
    let menu = tray("wine", "Lux Wine", "").menu("").unwrap();
    assert_eq!(menu, expected_menu("wine", "Lux Wine", vec![], vec![], false, true));
}

#[test]
fn menu_with_applications() {
    let list = "Notepad ##&## notepad-icon\nCalc ##&## calc\n";
    let menu = tray("lw", "My Tray", list).menu("/usr/bin/lu").unwrap();
    let run = vec![
        app("Notepad", "notepad-icon", "-runapp \"Notepad\""),
        app("Calc", "calc", "-runapp \"Calc\""),
    ];
    let config = vec![
        app("Notepad", "notepad-icon", "-appcfg \"Notepad\""),
        app("Calc", "calc", "-appcfg \"Calc\""),
    ];
    assert_eq!(menu, expected_menu("lw", "My Tray", run, config, true, false));
}

#[test]
fn menu_has_seven_entries_in_order() {
    let menu = tray("i", "t", "").menu("").unwrap();
    let labels: Vec<String> = menu
        .iter()
        .map(|node| match node {
            MenuNode::SubMenu { label, .. } => label.source(),
            MenuNode::Item { label, .. } => label.source(),
        })
        .collect();
    assert_eq!(labels, vec!["Apps", "Open", "Wine", "Kill", "Prefix", "Settings", "Exit"]);
    assert_eq!(children(&menu[1]).len(), 2);
    assert_eq!(children(&menu[2]).len(), 7);
    assert_eq!(children(&menu[3]).len(), 4);
    assert_eq!(children(&menu[4]).len(), 6);
    assert_eq!(children(&menu[5]).len(), 9);
}

#[test]
fn apps_submenu_has_one_item_per_line_in_order() {
    let list = "Zed ##&## z-icon\nAlpha ##&## a-icon\nMid ##&## m-icon";
    let menu = tray("i", "t", list).menu("").unwrap();
    assert_eq!(
        children(&menu[0]),
        &vec![
            app("Zed", "z-icon", "-runapp \"Zed\""),
            app("Alpha", "a-icon", "-runapp \"Alpha\""),
            app("Mid", "m-icon", "-runapp \"Mid\""),
        ]
    );
    assert_eq!(
        children(&children(&menu[5])[1]),
        &vec![
            app("Zed", "z-icon", "-appcfg \"Zed\""),
            app("Alpha", "a-icon", "-appcfg \"Alpha\""),
            app("Mid", "m-icon", "-appcfg \"Mid\""),
        ]
    );
}

#[test]
fn rendering_twice_gives_the_same_menu() {
    let state = tray("icon", "title", "A ##&## a\nB ##&## b\n");
    assert_eq!(state.menu(""), state.menu(""));
    assert_eq!(state.menu("x"), state.menu("any other value"));
    assert_ne!(state.menu(""), state.menu("x"));
}

#[test]
fn apps_submenus_are_visible_when_the_list_is_not_empty() {
    let empty = tray("i", "t", "").menu("").unwrap();
    assert!(!visible(&empty[0]));
    assert!(!visible(&children(&empty[5])[1]));
    let filled = tray("i", "t", "A ##&## a\n").menu("").unwrap();
    assert!(visible(&filled[0]));
    assert!(visible(&children(&filled[5])[1]));
}

#[test]
fn open_submenu_is_visible_when_secondary_launcher_is_unset() {
    let state = tray("i", "t", "");
    assert!(visible(&state.menu("").unwrap()[1]));
    assert!(!visible(&state.menu("lu").unwrap()[1]));
    assert!(!visible(&state.menu(" ").unwrap()[1]));
}

#[test]
fn fixed_submenus_are_always_visible() {
    let menu = tray("i", "t", "").menu("lu").unwrap();
    for index in [2, 3, 4, 5, 6] {
        assert!(visible(&menu[index]));
    }
}

#[test]
fn malformed_list_has_no_menu() {
    assert_eq!(
        tray("i", "t", "A ##&## a\nbroken\n").menu(""),
        Err(MalformedLine { index: 1, fields: 1 })
    );
    assert_eq!(
        tray("i", "t", "A ##&## a ##&## x\n").menu(""),
        Err(MalformedLine { index: 0, fields: 3 })
    );
    assert_eq!(tray("i", "t", "\n").menu(""), Err(MalformedLine { index: 0, fields: 1 }));
}

#[test]
fn settings_item_carries_the_title() {
    let menu = tray("i", "Custom Title", "").menu("").unwrap();
    assert_eq!(children(&menu[5])[0], app("Custom Title", "i", "-config"));
}

#[test]
fn clicking_an_application_spawns_its_run_command() {
    let menu = tray("i", "t", "Foo ##&## foo-icon\n").menu("").unwrap();
    let action = match &children(&menu[0])[0] {
        MenuNode::Item { action, .. } => action,
        MenuNode::SubMenu { .. } => panic!("the application's node is an item"),
    };
    assert_eq!(
        activate(action, "/opt/lw/lw.sh"),
        Effect::Spawn { command: "/opt/lw/lw.sh -runapp \"Foo\"".to_string() }
    );
}

#[test]
fn clicking_exit_ends_the_process_with_success() {
    let menu = tray("i", "t", "A ##&## a\n").menu("").unwrap();
    let last = menu.last().unwrap();
    let action = match last {
        MenuNode::Item { action, .. } => action,
        MenuNode::SubMenu { .. } => panic!("the last node is an item"),
    };
    assert_eq!(action, &Action::Exit);
    assert_eq!(activate(action, "/opt/lw/lw.sh"), Effect::Terminate { status: 0 });
    assert_eq!(activate(action, ""), Effect::Terminate { status: 0 });
}

#[test]
fn title_defaults_to_lux_wine() {
    assert_eq!(resolve_title(""), "Lux Wine");
    assert_eq!(DEFAULT_TITLE, "Lux Wine");
    assert_eq!(LwTray::startup("", "", "", String::new()).title(), "Lux Wine");
}

#[test]
fn title_is_the_given_name() {
    assert_eq!(resolve_title("notepad.exe"), "notepad.exe");
    assert_eq!(LwTray::startup("", "", "game", String::new()).title(), "game");
}

#[test]
fn icon_prefers_the_first_name() {
    assert_eq!(resolve_icon("exe", "def"), "exe");
    assert_eq!(resolve_icon("", "def"), "def");
    assert_eq!(resolve_icon("exe", ""), "exe");
    assert_eq!(resolve_icon("", ""), "");
}

#[test]
fn startup_fills_the_state() {
    let state = LwTray::startup("", "def-icon", "", "A ##&## a\n".to_string());
    assert_eq!(state, tray("def-icon", "Lux Wine", "A ##&## a\n"));
    assert_eq!(state.icon_name(), "def-icon");
}

#[test]
fn id_is_fixed() {
    assert_eq!(tray("a", "b", "c").id(), "LwTray");
    assert_eq!(tray("", "", "").id(), "LwTray");
    assert_eq!(TRAY_ID, "LwTray");
}

#[test]
fn set_apps_replaces_the_list_only() {
    let mut state = tray("icon", "title", "old");
    state.set_apps("New ##&## n\n".to_string());
    assert_eq!(state, tray("icon", "title", "New ##&## n\n"));
}

#[test]
fn constructors_build_visible_nodes() {
    assert_eq!(
        MenuNode::item(Label::Message(Message::Cmd), "i", "-cmd"),
        fixed(Message::Cmd, "i", "-cmd")
    );
    assert_eq!(
        MenuNode::submenu(Label::Message(Message::Info), "i", vec![], false),
        sub(Message::Info, "i", vec![], false)
    );
}
