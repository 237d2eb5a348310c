//! The menu tree: items that carry an action, and submenus that hold further
//! nodes.

use vstd::prelude::*;

verus! {

/// The icon name of the item that leaves.
pub const EXIT_ICON: &'static str = "application-exit";

/// A fixed text of the menu. It is shown in the user's language; its English
/// wording is both the key under which a translation is looked up and what is
/// shown where there is none.
#[derive(Clone, Copy, Debug, PartialEq, Eq)]
pub enum Message {
    Apps,
    Open,
    Wine,
    Kill,
    Prefix,
    Settings,
    Exit,
    LuxWine,
    Debug,
    Explorer,
    TaskManager,
    Cmd,
    ControlPanel,
    RegistryEditor,
    Uninstaller,
    Exe,
    Shell,
    All,
    OpenDriveC,
    Backup,
    Restore,
    Clear,
    MountBackup,
    UnmountBackup,
    AppsSettings,
    WineManager,
    RuntimeUpdater,
    Winetricks,
    ForcedInit,
    OpenShell,
    Shortcut,
    Create,
    Remove,
    Info,
    Usage,
    Version,
}

impl Message {
    /// The English wording of the message.
    pub open spec fn source_text(self) -> Seq<char> {
        match self {
            Message::Apps => "Apps"@,
            Message::Open => "Open"@,
            Message::Wine => "Wine"@,
            Message::Kill => "Kill"@,
            Message::Prefix => "Prefix"@,
            Message::Settings => "Settings"@,
            Message::Exit => "Exit"@,
            Message::LuxWine => "Lux Wine"@,
            Message::Debug => "DEBUG"@,
            Message::Explorer => "Explorer"@,
            Message::TaskManager => "Task manager"@,
            Message::Cmd => "CMD"@,
            Message::ControlPanel => "Control panel"@,
            Message::RegistryEditor => "Registry editor"@,
            Message::Uninstaller => "Uninstaller"@,
            Message::Exe => "EXE"@,
            Message::Shell => "SHELL"@,
            Message::All => "ALL"@,
            Message::OpenDriveC => "Open drive C:\\"@,
            Message::Backup => "Backup"@,
            Message::Restore => "Restore"@,
            Message::Clear => "Clear"@,
            Message::MountBackup => "Mount backup"@,
            Message::UnmountBackup => "Unmount backup"@,
            Message::AppsSettings => "Apps settings"@,
            Message::WineManager => "Wine manager"@,
            Message::RuntimeUpdater => "Runtime updater"@,
            Message::Winetricks => "Winetricks"@,
            Message::ForcedInit => "Forced init"@,
            Message::OpenShell => "Open SHELL"@,
            Message::Shortcut => "Shortcut"@,
            Message::Create => "Create"@,
            Message::Remove => "Remove"@,
            Message::Info => "Info"@,
            Message::Usage => "Usage"@,
            Message::Version => "Version"@,
        }
    }

    /// The English wording of the message.
    pub fn source(self) -> (text: &'static str)
        ensures
            text@ == self.source_text(),
    {
        match self {
            Message::Apps => "Apps",
            Message::Open => "Open",
            Message::Wine => "Wine",
            Message::Kill => "Kill",
            Message::Prefix => "Prefix",
            Message::Settings => "Settings",
            Message::Exit => "Exit",
            Message::LuxWine => "Lux Wine",
            Message::Debug => "DEBUG",
            Message::Explorer => "Explorer",
            Message::TaskManager => "Task manager",
            Message::Cmd => "CMD",
            Message::ControlPanel => "Control panel",
            Message::RegistryEditor => "Registry editor",
            Message::Uninstaller => "Uninstaller",
            Message::Exe => "EXE",
            Message::Shell => "SHELL",
            Message::All => "ALL",
            Message::OpenDriveC => "Open drive C:\\",
            Message::Backup => "Backup",
            Message::Restore => "Restore",
            Message::Clear => "Clear",
            Message::MountBackup => "Mount backup",
            Message::UnmountBackup => "Unmount backup",
            Message::AppsSettings => "Apps settings",
            Message::WineManager => "Wine manager",
            Message::RuntimeUpdater => "Runtime updater",
            Message::Winetricks => "Winetricks",
            Message::ForcedInit => "Forced init",
            Message::OpenShell => "Open SHELL",
            Message::Shortcut => "Shortcut",
            Message::Create => "Create",
            Message::Remove => "Remove",
            Message::Info => "Info",
            Message::Usage => "Usage",
            Message::Version => "Version",
        }
    }
}

/// The text of a menu node: a fixed message, or a text that is shown as it
/// is, such as an application's name.
#[derive(Clone, Debug, PartialEq, Eq)]
pub enum Label {
    Message(Message),
    Text(String),
}

/// What a [`Label`] holds.
pub enum LabelView {
    Message(Message),
    Text(Seq<char>),
}

impl View for Label {
    type V = LabelView;

    open spec fn view(&self) -> LabelView {
        match self {
            Label::Message(message) => LabelView::Message(*message),
            Label::Text(text) => LabelView::Text(text@),
        }
    }
}

impl LabelView {
    /// The label's wording where no translation is at hand.
    pub open spec fn source_text(self) -> Seq<char> {
        match self {
            LabelView::Message(message) => message.source_text(),
            LabelView::Text(text) => text,
        }
    }
}

impl Label {
    /// The label's wording where no translation is at hand.
    pub fn source(&self) -> (text: String)
        ensures
            text@ == self@.source_text(),
    {
        match self {
            Label::Message(message) => message.source().to_owned(),
            Label::Text(text) => text.clone(),
        }
    }
}

/// What activating an item asks for.
#[derive(Clone, Debug, PartialEq, Eq)]
pub enum Action {
    /// Run the launcher with this flag text behind it.
    Launch { flag: String },
    /// End the whole process.
    Exit,
}

/// What an [`Action`] holds.
pub enum ActionView {
    Launch { flag: Seq<char> },
    Exit,
}

impl View for Action {
    type V = ActionView;

    open spec fn view(&self) -> ActionView {
        match self {
            Action::Launch { flag } => ActionView::Launch { flag: flag@ },
            Action::Exit => ActionView::Exit,
        }
    }
}

/// A node of the menu tree.
#[derive(Debug, PartialEq, Eq)]
pub enum MenuNode {
    Item { label: Label, icon: String, action: Action, visible: bool },
    SubMenu { label: Label, icon: String, children: Vec<MenuNode>, visible: bool },
}

/// What a [`MenuNode`] holds.
pub enum MenuNodeView {
    Item { label: LabelView, icon: Seq<char>, action: ActionView, visible: bool },
    SubMenu { label: LabelView, icon: Seq<char>, children: Seq<MenuNodeView>, visible: bool },
}

/// What `node` holds: its own fields, and for a submenu what each of its
/// children holds, in order.
pub open spec fn node_view(node: MenuNode) -> MenuNodeView
    decreases node,
{
    match node {
        MenuNode::Item { label, icon, action, visible } => MenuNodeView::Item {
            label: label@,
            icon: icon@,
            action: action@,
            visible,
        },
        MenuNode::SubMenu { label, icon, children, visible } => MenuNodeView::SubMenu {
            label: label@,
            icon: icon@,
            children: Seq::new(
                children@.len(),
                |i: int|
                    if 0 <= i < children@.len() {
                        node_view(children@[i])
                    } else {
                        arbitrary()
                    },
            ),
            visible,
        },
    }
}

impl View for MenuNode {
    type V = MenuNodeView;

    open spec fn view(&self) -> MenuNodeView {
        node_view(*self)
    }
}

/// What each node of `nodes` holds, in order.
pub open spec fn node_views(nodes: Seq<MenuNode>) -> Seq<MenuNodeView> {
    Seq::new(nodes.len(), |i: int| nodes[i]@)
}

/// A visible item under a fixed message that launches with `flag`.
pub open spec fn launcher(message: Message, icon: Seq<char>, flag: Seq<char>) -> MenuNodeView {
    MenuNodeView::Item {
        label: LabelView::Message(message),
        icon,
        action: ActionView::Launch { flag },
        visible: true,
    }
}

/// A submenu under a fixed message.
pub open spec fn submenu(
    message: Message,
    icon: Seq<char>,
    children: Seq<MenuNodeView>,
    visible: bool,
) -> MenuNodeView {
    MenuNodeView::SubMenu { label: LabelView::Message(message), icon, children, visible }
}

/// Every item of `node`, at any depth, launches; none of them leaves.
pub open spec fn all_items_launch(node: MenuNodeView) -> bool
    decreases node,
{
    match node {
        MenuNodeView::Item { action, .. } => action is Launch,
        MenuNodeView::SubMenu { children, .. } => forall|i: int|
            0 <= i < children.len() ==> all_items_launch(#[trigger] children[i]),
    }
}

impl MenuNode {
    /// A visible item that launches with `flag`.
    pub fn item(label: Label, icon: &str, flag: &str) -> (node: MenuNode)
        ensures
            node@ == (MenuNodeView::Item {
                label: label@,
                icon: icon@,
                action: ActionView::Launch { flag: flag@ },
                visible: true,
            }),
    {
        MenuNode::Item {
            label,
            icon: icon.to_owned(),
            action: Action::Launch { flag: flag.to_owned() },
            visible: true,
        }
    }

    /// A submenu that holds `children`.
    pub fn submenu(label: Label, icon: &str, children: Vec<MenuNode>, visible: bool) -> (node:
        MenuNode)
        ensures
            node@ == (MenuNodeView::SubMenu {
                label: label@,
                icon: icon@,
                children: node_views(children@),
                visible,
            }),
    {
        let node = MenuNode::SubMenu { label, icon: icon.to_owned(), children, visible };
        assert(node@->SubMenu_children =~= node_views(children@));
        node
    }
}

} // verus!
