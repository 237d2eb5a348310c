//! The tray's state and what is shown of it.

use crate::apps::{
    entries_of, fields_of, is_first_malformed, parse_app_list, well_formed, MalformedLine,
};
use crate::command::run_app_flag;
use crate::menu::{all_items_launch, node_views, ActionView, LabelView, MenuNode, MenuNodeView};
use crate::model::{exit_item, menu_of};
use crate::render;
use crate::text::lines_of;
use vstd::prelude::*;

verus! {

/// The name under which the tray registers.
pub const TRAY_ID: &'static str = "LwTray";

/// The title of a tray that was given none.
pub const DEFAULT_TITLE: &'static str = "Lux Wine";

/// The state of the tray: its icon name, its title and the application list
/// as the discovery wrote it.
#[derive(Clone, Debug, PartialEq, Eq)]
pub struct LwTray {
    pub icon: String,
    pub title: String,
    pub lw_apps: String,
}

/// What an [`LwTray`] holds.
pub struct TrayView {
    pub icon: Seq<char>,
    pub title: Seq<char>,
    pub lw_apps: Seq<char>,
}

impl View for LwTray {
    type V = TrayView;

    open spec fn view(&self) -> TrayView {
        TrayView { icon: self.icon@, title: self.title@, lw_apps: self.lw_apps@ }
    }
}

/// The icon name of the tray: the preferred one, or the fallback where the
/// preferred one is empty.
pub open spec fn chosen_icon(preferred: Seq<char>, fallback: Seq<char>) -> Seq<char> {
    if preferred.len() > 0 {
        preferred
    } else {
        fallback
    }
}

/// The title of the tray: the given name, or the default where it is empty.
pub open spec fn chosen_title(name: Seq<char>) -> Seq<char> {
    if name.len() > 0 {
        name
    } else {
        DEFAULT_TITLE@
    }
}

/// The menu of a tray in state `tray`, where the variable that marks the
/// secondary launcher holds `lu_exe`. The submenus of applications are
/// visible when the application list is not empty, the submenu that starts
/// the launcher when `lu_exe` is empty.
pub open spec fn tray_menu(tray: TrayView, lu_exe: Seq<char>) -> Seq<MenuNodeView> {
    menu_of(
        tray.icon,
        tray.title,
        entries_of(tray.lw_apps),
        tray.lw_apps.len() > 0,
        lu_exe.len() == 0,
    )
}

/// Picks the tray's icon name from the preferred one and the fallback.
pub fn resolve_icon(preferred: &str, fallback: &str) -> (icon: String)
    ensures
        icon@ == chosen_icon(preferred@, fallback@),
{
    if preferred.is_empty() {
        fallback.to_owned()
    } else {
        preferred.to_owned()
    }
}

/// Picks the tray's title from the given name.
pub fn resolve_title(name: &str) -> (title: String)
    ensures
        title@ == chosen_title(name@),
{
    if name.is_empty() {
        DEFAULT_TITLE.to_owned()
    } else {
        name.to_owned()
    }
}

impl LwTray {
    /// The tray as it starts: icon and title picked from what the
    /// environment gave, and the application list as first discovered.
    pub fn startup(exe_icon: &str, def_icon: &str, exe_name: &str, lw_apps: String) -> (tray:
        LwTray)
        ensures
            tray@ == (TrayView {
                icon: chosen_icon(exe_icon@, def_icon@),
                title: chosen_title(exe_name@),
                lw_apps: lw_apps@,
            }),
    {
        LwTray { icon: resolve_icon(exe_icon, def_icon), title: resolve_title(exe_name), lw_apps }
    }

    /// The tray's icon name.
    pub fn icon_name(&self) -> (name: String)
        ensures
            name@ == self@.icon,
    {
        self.icon.clone()
    }

    /// The tray's title.
    pub fn title(&self) -> (title: String)
        ensures
            title@ == self@.title,
    {
        self.title.clone()
    }

    /// The name under which the tray registers. It is the same in every
    /// state.
    pub fn id(&self) -> (id: String)
        ensures
            id@ == TRAY_ID@,
    {
        TRAY_ID.to_owned()
    }

    /// Replaces the application list as a whole. Icon and title stay.
    pub fn set_apps(&mut self, lw_apps: String)
        ensures
            final(self)@ == (TrayView { lw_apps: lw_apps@, ..old(self)@ }),
    {
        self.lw_apps = lw_apps;
    }

    /// Renders the menu. `lu_exe` is what the variable that marks the
    /// secondary launcher holds. An application list with a malformed line
    /// has no menu: its first such line is reported.
    pub fn menu(&self, lu_exe: &str) -> (r: Result<Vec<MenuNode>, MalformedLine>)
        ensures
            match r {
                Ok(nodes) => {
                    &&& well_formed(self@.lw_apps)
                    &&& node_views(nodes@) == tray_menu(self@, lu_exe@)
                },
                Err(e) => {
                    &&& is_first_malformed(self@.lw_apps, e.index as int)
                    &&& e.fields == fields_of(lines_of(self@.lw_apps)[e.index as int]).len()
                },
            },
    {
        match parse_app_list(self.lw_apps.as_str()) {
            Ok(apps) => Ok(
                render::menu(
                    self.icon.as_str(),
                    self.title.as_str(),
                    &apps,
                    !self.lw_apps.as_str().is_empty(),
                    lu_exe.is_empty(),
                ),
            ),
            Err(e) => Err(e),
        }
    }
}

/// The submenu of applications lists the application list line by line: it
/// has one item per line, in the order of the lines, and the item of a line
/// shows the line's first field as its text and its second field as its
/// icon, is visible, and runs the application of that name.
pub proof fn lemma_apps_menu_follows_lines(tray: TrayView, lu_exe: Seq<char>)
    requires
        well_formed(tray.lw_apps),
    ensures
        tray_menu(tray, lu_exe)[0] is SubMenu,
        tray_menu(tray, lu_exe)[0]->SubMenu_children.len() == lines_of(tray.lw_apps).len(),
        forall|i: int|
            0 <= i < lines_of(tray.lw_apps).len() ==> #[trigger] tray_menu(
                tray,
                lu_exe,
            )[0]->SubMenu_children[i] == (MenuNodeView::Item {
                label: LabelView::Text(fields_of(lines_of(tray.lw_apps)[i])[0]),
                icon: fields_of(lines_of(tray.lw_apps)[i])[1],
                action: ActionView::Launch {
                    flag: run_app_flag(fields_of(lines_of(tray.lw_apps)[i])[0]),
                },
                visible: true,
            }),
{
}

/// The menu depends on the tray's state and on whether the variable that
/// marks the secondary launcher is empty, and on nothing else: equal states
/// under two values of the variable that are both empty, or both not, have
/// the same menu.
pub proof fn lemma_menu_is_function_of_state(
    a: TrayView,
    b: TrayView,
    lu_exe_a: Seq<char>,
    lu_exe_b: Seq<char>,
)
    requires
        a == b,
        (lu_exe_a.len() == 0) == (lu_exe_b.len() == 0),
    ensures
        tray_menu(a, lu_exe_a) == tray_menu(b, lu_exe_b),
{
}

/// The submenu of applications and the submenu of their settings are visible
/// exactly when the application list is not empty; the submenu that starts
/// the launcher is visible exactly when the variable that marks the secondary
/// launcher is empty.
pub proof fn lemma_visibility(tray: TrayView, lu_exe: Seq<char>)
    ensures
        tray_menu(tray, lu_exe)[0] is SubMenu,
        tray_menu(tray, lu_exe)[0]->SubMenu_visible <==> tray.lw_apps.len() > 0,
        tray_menu(tray, lu_exe)[1] is SubMenu,
        tray_menu(tray, lu_exe)[1]->SubMenu_visible <==> lu_exe.len() == 0,
        tray_menu(tray, lu_exe)[5] is SubMenu,
        tray_menu(tray, lu_exe)[5]->SubMenu_children[1] is SubMenu,
        tray_menu(tray, lu_exe)[5]->SubMenu_children[1]->SubMenu_visible <==> tray.lw_apps.len()
            > 0,
{
}

/// The menu has seven entries. The last is the item that leaves; every item
/// before it, at any depth, launches.
pub proof fn lemma_only_the_last_item_leaves(tray: TrayView, lu_exe: Seq<char>)
    ensures
        tray_menu(tray, lu_exe).len() == 7,
        forall|i: int| 0 <= i < 6 ==> all_items_launch(#[trigger] tray_menu(tray, lu_exe)[i]),
        tray_menu(tray, lu_exe)[6] == exit_item(),
{
    reveal_with_fuel(all_items_launch, 4);
}

} // verus!
