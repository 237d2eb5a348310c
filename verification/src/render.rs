//! Building the tray's menu.

use crate::apps::{entry_views, AppEntry};
use crate::command::{app_config, app_config_flag, run_app, run_app_flag};
use crate::menu::{launcher, node_views, Action, Label, MenuNode, Message, EXIT_ICON};
use crate::model;
use vstd::prelude::*;

verus! {

/// A visible item under a fixed message that launches with `flag`.
fn fixed(message: Message, icon: &str, flag: &str) -> (node: MenuNode)
    ensures
        node@ == launcher(message, icon@, flag@),
{
    MenuNode::item(Label::Message(message), icon, flag)
}

/// The item of an application, launching with `flag`.
fn app_item(app: &AppEntry, flag: String) -> (node: MenuNode)
    ensures
        node@ == model::app_item(app@, flag@),
{
    MenuNode::Item {
        label: Label::Text(app.name.clone()),
        icon: app.icon.clone(),
        action: Action::Launch { flag },
        visible: true,
    }
}

/// One item per application, each running its application.
fn run_items(apps: &Vec<AppEntry>) -> (items: Vec<MenuNode>)
    ensures
        node_views(items@) == model::run_items(entry_views(apps@)),
{
    let mut items: Vec<MenuNode> = Vec::new();
    let mut i: usize = 0;
    while i < apps.len()
        invariant
            i <= apps.len(),
            items.len() == i,
            forall|j: int|
                0 <= j < i ==> (#[trigger] items@[j])@ == model::app_item(
                    apps@[j]@,
                    run_app_flag(apps@[j]@.name),
                ),
        decreases apps.len() - i,
    {
        items.push(app_item(&apps[i], run_app(apps[i].name.as_str())));
        i += 1;
    }
    items
}

/// One item per application, each opening its application's settings.
fn config_items(apps: &Vec<AppEntry>) -> (items: Vec<MenuNode>)
    ensures
        node_views(items@) == model::config_items(entry_views(apps@)),
{
    let mut items: Vec<MenuNode> = Vec::new();
    let mut i: usize = 0;
    while i < apps.len()
        invariant
            i <= apps.len(),
            items.len() == i,
            forall|j: int|
                0 <= j < i ==> (#[trigger] items@[j])@ == model::app_item(
                    apps@[j]@,
                    app_config_flag(apps@[j]@.name),
                ),
        decreases apps.len() - i,
    {
        items.push(app_item(&apps[i], app_config(apps[i].name.as_str())));
        i += 1;
    }
    items
}

/// The submenu that starts the launcher itself.
fn open_menu(icon: &str, visible: bool) -> (node: MenuNode)
    ensures
        node@ == model::open_menu(icon@, visible),
{
    let items = vec![fixed(Message::LuxWine, icon, ""), fixed(Message::Debug, icon, "-debug")];
    let node = MenuNode::submenu(Label::Message(Message::Open), icon, items, visible);
    assert(node@->SubMenu_children =~= model::open_menu(icon@, visible)->SubMenu_children);
    node
}

/// The submenu of the tools that Wine brings.
fn wine_menu(icon: &str) -> (node: MenuNode)
    ensures
        node@ == model::wine_menu(icon@),
{
    let items = vec![
        fixed(Message::Explorer, icon, "-explorer"),
        fixed(Message::TaskManager, icon, "-taskmgr"),
        fixed(Message::Cmd, icon, "-cmd"),
        fixed(Message::ControlPanel, icon, "-control"),
        fixed(Message::Settings, icon, "-winecfg"),
        fixed(Message::RegistryEditor, icon, "-regedit"),
        fixed(Message::Uninstaller, icon, "-uninstaller"),
    ];
    let node = MenuNode::submenu(Label::Message(Message::Wine), icon, items, true);
    assert(node@->SubMenu_children =~= model::wine_menu(icon@)->SubMenu_children);
    node
}

/// The submenu that ends running programs.
fn kill_menu(icon: &str) -> (node: MenuNode)
    ensures
        node@ == model::kill_menu(icon@),
{
    let items = vec![
        fixed(Message::Exe, icon, "-killexe"),
        fixed(Message::Wine, icon, "-killwine"),
        fixed(Message::Shell, icon, "-killshell"),
        fixed(Message::All, icon, "-exit"),
    ];
    let node = MenuNode::submenu(Label::Message(Message::Kill), icon, items, true);
    assert(node@->SubMenu_children =~= model::kill_menu(icon@)->SubMenu_children);
    node
}

/// The submenu that works on the prefix.
fn prefix_menu(icon: &str) -> (node: MenuNode)
    ensures
        node@ == model::prefix_menu(icon@),
{
    let items = vec![
        fixed(Message::OpenDriveC, icon, "-openpfx"),
        fixed(Message::Backup, icon, "-pfxbackup"),
        fixed(Message::Restore, icon, "-pfxrestore"),
        fixed(Message::Clear, icon, "-clearpfx"),
        fixed(Message::MountBackup, icon, "-backupmnt"),
        fixed(Message::UnmountBackup, icon, "-backupunmnt"),
    ];
    let node = MenuNode::submenu(Label::Message(Message::Prefix), icon, items, true);
    assert(node@->SubMenu_children =~= model::prefix_menu(icon@)->SubMenu_children);
    node
}

/// The submenu that creates and removes shortcuts.
fn shortcut_menu(icon: &str) -> (node: MenuNode)
    ensures
        node@ == model::shortcut_menu(icon@),
{
    let items = vec![
        fixed(Message::Create, icon, "-shortcut"),
        fixed(Message::Remove, icon, "-rmapp"),
    ];
    let node = MenuNode::submenu(Label::Message(Message::Shortcut), icon, items, true);
    assert(node@->SubMenu_children =~= model::shortcut_menu(icon@)->SubMenu_children);
    node
}

/// The submenu that tells about the launcher.
fn info_menu(icon: &str) -> (node: MenuNode)
    ensures
        node@ == model::info_menu(icon@),
{
    let items = vec![fixed(Message::Usage, icon, "-help"), fixed(Message::Version, icon, "-version")];
    let node = MenuNode::submenu(Label::Message(Message::Info), icon, items, true);
    assert(node@->SubMenu_children =~= model::info_menu(icon@)->SubMenu_children);
    node
}

/// The settings submenu.
fn settings_menu(icon: &str, title: &str, apps: &Vec<AppEntry>, apps_visible: bool) -> (node:
    MenuNode)
    ensures
        node@ == model::settings_menu(icon@, title@, entry_views(apps@), apps_visible),
{
    let items = vec![
        MenuNode::item(Label::Text(title.to_owned()), icon, "-config"),
        MenuNode::submenu(
            Label::Message(Message::AppsSettings),
            icon,
            config_items(apps),
            apps_visible,
        ),
        fixed(Message::WineManager, icon, "-winemgr"),
        fixed(Message::RuntimeUpdater, icon, "-update"),
        fixed(Message::Winetricks, icon, "-winetricks"),
        fixed(Message::ForcedInit, icon, "-init"),
        fixed(Message::OpenShell, icon, "-shell"),
        shortcut_menu(icon),
        info_menu(icon),
    ];
    let node = MenuNode::submenu(Label::Message(Message::Settings), icon, items, true);
    assert(node@->SubMenu_children =~= model::settings_menu(
        icon@,
        title@,
        entry_views(apps@),
        apps_visible,
    )->SubMenu_children);
    node
}

/// The item that leaves.
fn exit_item() -> (node: MenuNode)
    ensures
        node@ == model::exit_item(),
{
    MenuNode::Item {
        label: Label::Message(Message::Exit),
        icon: EXIT_ICON.to_owned(),
        action: Action::Exit,
        visible: true,
    }
}

/// Builds the whole menu.
pub(crate) fn menu(
    icon: &str,
    title: &str,
    apps: &Vec<AppEntry>,
    apps_visible: bool,
    open_visible: bool,
) -> (nodes: Vec<MenuNode>)
    ensures
        node_views(nodes@) == model::menu_of(
            icon@,
            title@,
            entry_views(apps@),
            apps_visible,
            open_visible,
        ),
{
    let nodes = vec![
        MenuNode::submenu(Label::Message(Message::Apps), icon, run_items(apps), apps_visible),
        open_menu(icon, open_visible),
        wine_menu(icon),
        kill_menu(icon),
        prefix_menu(icon),
        settings_menu(icon, title, apps, apps_visible),
        exit_item(),
    ];
    nodes
}

} // verus!
