//! What the tray's menu is, as a function of the tray's state.

use crate::apps::AppEntryView;
use crate::command::{app_config_flag, run_app_flag};
use crate::menu::{launcher, submenu, ActionView, LabelView, MenuNodeView, Message, EXIT_ICON};
use vstd::prelude::*;

verus! {

/// The item of an application: its name as the text, its own icon, visible,
/// launching with `flag`.
pub open spec fn app_item(app: AppEntryView, flag: Seq<char>) -> MenuNodeView {
    MenuNodeView::Item {
        label: LabelView::Text(app.name),
        icon: app.icon,
        action: ActionView::Launch { flag },
        visible: true,
    }
}

/// One item per application, in order, each running its application.
pub open spec fn run_items(apps: Seq<AppEntryView>) -> Seq<MenuNodeView> {
    Seq::new(apps.len(), |i: int| app_item(apps[i], run_app_flag(apps[i].name)))
}

/// One item per application, in order, each opening its application's
/// settings.
pub open spec fn config_items(apps: Seq<AppEntryView>) -> Seq<MenuNodeView> {
    Seq::new(apps.len(), |i: int| app_item(apps[i], app_config_flag(apps[i].name)))
}

/// The submenu that starts the launcher itself, plainly or with its debug
/// output.
pub open spec fn open_menu(icon: Seq<char>, visible: bool) -> MenuNodeView {
    submenu(
        Message::Open,
        icon,
        seq![launcher(Message::LuxWine, icon, ""@), launcher(Message::Debug, icon, "-debug"@)],
        visible,
    )
}

/// The submenu of the tools that Wine brings.
pub open spec fn wine_menu(icon: Seq<char>) -> MenuNodeView {
    submenu(
        Message::Wine,
        icon,
        seq![
            launcher(Message::Explorer, icon, "-explorer"@),
            launcher(Message::TaskManager, icon, "-taskmgr"@),
            launcher(Message::Cmd, icon, "-cmd"@),
            launcher(Message::ControlPanel, icon, "-control"@),
            launcher(Message::Settings, icon, "-winecfg"@),
            launcher(Message::RegistryEditor, icon, "-regedit"@),
            launcher(Message::Uninstaller, icon, "-uninstaller"@),
        ],
        true,
    )
}

/// The submenu that ends running programs.
pub open spec fn kill_menu(icon: Seq<char>) -> MenuNodeView {
    submenu(
        Message::Kill,
        icon,
        seq![
            launcher(Message::Exe, icon, "-killexe"@),
            launcher(Message::Wine, icon, "-killwine"@),
            launcher(Message::Shell, icon, "-killshell"@),
            launcher(Message::All, icon, "-exit"@),
        ],
        true,
    )
}

/// The submenu that works on the prefix.
pub open spec fn prefix_menu(icon: Seq<char>) -> MenuNodeView {
    submenu(
        Message::Prefix,
        icon,
        seq![
            launcher(Message::OpenDriveC, icon, "-openpfx"@),
            launcher(Message::Backup, icon, "-pfxbackup"@),
            launcher(Message::Restore, icon, "-pfxrestore"@),
            launcher(Message::Clear, icon, "-clearpfx"@),
            launcher(Message::MountBackup, icon, "-backupmnt"@),
            launcher(Message::UnmountBackup, icon, "-backupunmnt"@),
        ],
        true,
    )
}

/// The submenu that creates and removes shortcuts.
pub open spec fn shortcut_menu(icon: Seq<char>) -> MenuNodeView {
    submenu(
        Message::Shortcut,
        icon,
        seq![
            launcher(Message::Create, icon, "-shortcut"@),
            launcher(Message::Remove, icon, "-rmapp"@),
        ],
        true,
    )
}

/// The submenu that tells about the launcher.
pub open spec fn info_menu(icon: Seq<char>) -> MenuNodeView {
    submenu(
        Message::Info,
        icon,
        seq![launcher(Message::Usage, icon, "-help"@), launcher(Message::Version, icon, "-version"@)],
        true,
    )
}

/// The item that opens the launcher's own settings. Its text is the tray's
/// title.
pub open spec fn config_item(icon: Seq<char>, title: Seq<char>) -> MenuNodeView {
    MenuNodeView::Item {
        label: LabelView::Text(title),
        icon,
        action: ActionView::Launch { flag: "-config"@ },
        visible: true,
    }
}

/// The settings submenu. The submenu of the applications' settings in it is
/// visible when `apps_visible` is.
pub open spec fn settings_menu(
    icon: Seq<char>,
    title: Seq<char>,
    apps: Seq<AppEntryView>,
    apps_visible: bool,
) -> MenuNodeView {
    submenu(
        Message::Settings,
        icon,
        seq![
            config_item(icon, title),
            submenu(Message::AppsSettings, icon, config_items(apps), apps_visible),
            launcher(Message::WineManager, icon, "-winemgr"@),
            launcher(Message::RuntimeUpdater, icon, "-update"@),
            launcher(Message::Winetricks, icon, "-winetricks"@),
            launcher(Message::ForcedInit, icon, "-init"@),
            launcher(Message::OpenShell, icon, "-shell"@),
            shortcut_menu(icon),
            info_menu(icon),
        ],
        true,
    )
}

/// The item that leaves.
pub open spec fn exit_item() -> MenuNodeView {
    MenuNodeView::Item {
        label: LabelView::Message(Message::Exit),
        icon: EXIT_ICON@,
        action: ActionView::Exit,
        visible: true,
    }
}

/// The whole menu for a tray icon `icon`, a title `title` and the
/// applications `apps`. The two submenus of applications are visible when
/// `apps_visible` is, the submenu that starts the launcher when
/// `open_visible` is.
pub open spec fn menu_of(
    icon: Seq<char>,
    title: Seq<char>,
    apps: Seq<AppEntryView>,
    apps_visible: bool,
    open_visible: bool,
) -> Seq<MenuNodeView> {
    seq![
        submenu(Message::Apps, icon, run_items(apps), apps_visible),
        open_menu(icon, open_visible),
        wine_menu(icon),
        kill_menu(icon),
        prefix_menu(icon),
        settings_menu(icon, title, apps, apps_visible),
        exit_item(),
    ]
}

} // verus!
