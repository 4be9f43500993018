//! The menu bar: what it holds, and how the shell lays it out.
//!
//! A menu bar is an ordered list of submenus, each an ordered list of items.
//! An item is either an action that the platform carries out by itself or an
//! item of the application's own, which a click reports by its identifier.
//! Since a click carries nothing but that identifier, no two items of the
//! application's own may share one anywhere in the bar.

use vstd::prelude::*;

verus! {

/// The name under which the application shows itself when nothing else is
/// given.
pub const APP_NAME: &'static str = "Tauri App";

/// An action that the platform carries out by itself.
#[derive(Clone, Copy, Debug, PartialEq, Eq, Structural)]
pub enum NativeAction {
    /// Shows the "about" panel, titled with the menu bar's about text.
    About,
    /// A dividing line; it does nothing when clicked.
    Separator,
    Hide,
    HideOthers,
    ShowAll,
    Quit,
    CloseWindow,
    Undo,
    Redo,
    Cut,
    Copy,
    Paste,
    SelectAll,
    EnterFullScreen,
    Minimize,
    Zoom,
}

/// An item of the application's own.
#[derive(Clone, Debug, PartialEq, Eq)]
pub struct CustomItem {
    /// What a click on the item reports.
    pub id: String,
    /// What the item shows.
    pub label: String,
    /// The keys that trigger the item, if any.
    pub accelerator: Option<String>,
}

/// One entry of a submenu.
#[derive(Clone, Debug, PartialEq, Eq)]
pub enum Item {
    Native(NativeAction),
    Custom(CustomItem),
}

/// A titled, ordered list of items.
#[derive(Clone, Debug, PartialEq, Eq)]
pub struct Submenu {
    pub label: String,
    pub items: Vec<Item>,
}

/// A whole menu bar: the text that the `About` action shows, and the
/// submenus in order. It is built once and never changed, and no two items of
/// the application's own in it share an identifier.
#[derive(Debug, PartialEq, Eq)]
pub struct MenuDescription {
    about_text: String,
    submenus: Vec<Submenu>,
}

/// A `CustomItem` as mathematics.
pub struct CustomItemView {
    pub id: Seq<char>,
    pub label: Seq<char>,
    pub accelerator: Option<Seq<char>>,
}

/// An `Item` as mathematics.
pub enum ItemView {
    Native(NativeAction),
    Custom(CustomItemView),
}

/// A `Submenu` as mathematics.
#[verifier::ext_equal]
pub struct SubmenuView {
    pub label: Seq<char>,
    pub items: Seq<ItemView>,
}

/// A `MenuDescription` as mathematics.
#[verifier::ext_equal]
pub struct MenuView {
    pub about_text: Seq<char>,
    pub submenus: Seq<SubmenuView>,
}

impl View for CustomItem {
    type V = CustomItemView;

    open spec fn view(&self) -> CustomItemView {
        CustomItemView {
            id: self.id@,
            label: self.label@,
            accelerator: match self.accelerator {
                Some(keys) => Some(keys@),
                None => None,
            },
        }
    }
}

impl View for Item {
    type V = ItemView;

    open spec fn view(&self) -> ItemView {
        match self {
            Item::Native(action) => ItemView::Native(*action),
            Item::Custom(custom) => ItemView::Custom(custom@),
        }
    }
}

impl View for Submenu {
    type V = SubmenuView;

    open spec fn view(&self) -> SubmenuView {
        SubmenuView { label: self.label@, items: self.items@.map_values(|item: Item| item@) }
    }
}

/// The views of a list of submenus, in order.
pub open spec fn submenu_views(submenus: Seq<Submenu>) -> Seq<SubmenuView> {
    submenus.map_values(|submenu: Submenu| submenu@)
}

impl View for MenuDescription {
    type V = MenuView;

    closed spec fn view(&self) -> MenuView {
        MenuView { about_text: self.about_text@, submenus: submenu_views(self.submenus@) }
    }
}

impl MenuDescription {
    #[verifier::type_invariant]
    spec fn identifiers_are_distinct(&self) -> bool {
        self@.wf()
    }

    /// The text that the `About` action shows.
    pub fn about_text(&self) -> (text: &String)
        ensures
            text@ == self@.about_text,
    {
        &self.about_text
    }

    /// The submenus in order. Whatever bar this is, no two items of the
    /// application's own in it share an identifier.
    pub fn submenus(&self) -> (submenus: &Vec<Submenu>)
        ensures
            submenu_views(submenus@) == self@.submenus,
            self@.wf(),
    {
        proof {
            use_type_invariant(self);
        }
        &self.submenus
    }
}

impl MenuView {
    /// Whether item `i` of submenu `s` exists and is one of the application's
    /// own.
    pub open spec fn holds_custom(self, s: int, i: int) -> bool {
        &&& 0 <= s < self.submenus.len()
        &&& 0 <= i < self.submenus[s].items.len()
        &&& self.submenus[s].items[i] is Custom
    }

    /// The identifier of item `i` of submenu `s`, where that is one of the
    /// application's own.
    pub open spec fn id_at(self, s: int, i: int) -> Seq<char>
        recommends
            self.holds_custom(s, i),
    {
        self.submenus[s].items[i]->Custom_0.id
    }

    /// The invariant of a menu bar: two of the application's own items at
    /// different places never carry the same identifier.
    pub open spec fn wf(self) -> bool {
        forall|s1: int, i1: int, s2: int, i2: int|
            #![trigger self.holds_custom(s1, i1), self.holds_custom(s2, i2)]
            self.holds_custom(s1, i1) && self.holds_custom(s2, i2) && (s1 != s2 || i1 != i2)
                ==> self.id_at(s1, i1) != self.id_at(s2, i2)
    }

    /// The same bar under another name: the about text and the title of the
    /// first submenu are `name`, all else is kept.
    pub open spec fn renamed(self, name: Seq<char>) -> MenuView
        recommends
            self.submenus.len() > 0,
    {
        MenuView {
            about_text: name,
            submenus: self.submenus.update(
                0,
                SubmenuView { label: name, items: self.submenus[0].items },
            ),
        }
    }
}

/// The view of a native item.
pub open spec fn native(action: NativeAction) -> ItemView {
    ItemView::Native(action)
}

/// The view of an item of the application's own.
pub open spec fn custom(id: Seq<char>, label: Seq<char>, accelerator: Option<Seq<char>>) -> ItemView {
    ItemView::Custom(CustomItemView { id, label, accelerator })
}

/// The application submenu of the main window.
pub open spec fn app_items() -> Seq<ItemView> {
    seq![
        native(NativeAction::About),
        native(NativeAction::Separator),
        custom("settings"@, "Preferences…"@, Some("cmd+,"@)),
        native(NativeAction::Separator),
        native(NativeAction::Hide),
        native(NativeAction::HideOthers),
        native(NativeAction::ShowAll),
        native(NativeAction::Separator),
        native(NativeAction::Quit),
    ]
}

/// The application submenu of the settings window: as `app_items`, without
/// the way into the settings.
pub open spec fn settings_app_items() -> Seq<ItemView> {
    seq![
        native(NativeAction::About),
        native(NativeAction::Separator),
        native(NativeAction::Hide),
        native(NativeAction::HideOthers),
        native(NativeAction::ShowAll),
        native(NativeAction::Separator),
        native(NativeAction::Quit),
    ]
}

/// The File submenu: close-window, then the application's "Open" and
/// "Close".
pub open spec fn file_items() -> Seq<ItemView> {
    seq![
        native(NativeAction::CloseWindow),
        native(NativeAction::Separator),
        custom("open"@, "Open"@, None),
        custom("close"@, "Close"@, None),
    ]
}

/// The Edit submenu: the platform's own editing actions.
pub open spec fn edit_items() -> Seq<ItemView> {
    seq![
        native(NativeAction::Undo),
        native(NativeAction::Redo),
        native(NativeAction::Separator),
        native(NativeAction::Cut),
        native(NativeAction::Copy),
        native(NativeAction::Paste),
        native(NativeAction::SelectAll),
    ]
}

/// The View submenu.
pub open spec fn view_items() -> Seq<ItemView> {
    seq![native(NativeAction::EnterFullScreen)]
}

/// The items of the Window submenu.
pub open spec fn window_items() -> Seq<ItemView> {
    seq![
        native(NativeAction::Minimize),
        native(NativeAction::Zoom),
        native(NativeAction::Separator),
        native(NativeAction::CloseWindow),
    ]
}

/// The Navigation submenu: the application's "Home" and "Back".
pub open spec fn navigation_items() -> Seq<ItemView> {
    seq![custom("home"@, "Home"@, None), custom("back"@, "Back"@, None)]
}

/// The Window submenu, shared by every window's menu bar.
pub open spec fn window_submenu() -> SubmenuView {
    SubmenuView { label: "Window"@, items: window_items() }
}

/// The menu bar of the main window of an application called `app_name`.
pub open spec fn main_menu(app_name: Seq<char>) -> MenuView {
    MenuView {
        about_text: app_name,
        submenus: seq![
            SubmenuView { label: app_name, items: app_items() },
            SubmenuView { label: "File"@, items: file_items() },
            SubmenuView { label: "Edit"@, items: edit_items() },
            SubmenuView { label: "View"@, items: view_items() },
            window_submenu(),
            SubmenuView { label: "Navigation"@, items: navigation_items() },
        ],
    }
}

/// The menu bar prepared for the settings window.
pub open spec fn settings_menu(app_name: Seq<char>) -> MenuView {
    MenuView {
        about_text: app_name,
        submenus: seq![
            SubmenuView { label: app_name, items: settings_app_items() },
            window_submenu(),
        ],
    }
}

/// An item of the application's own with no accelerator.
fn plain_item(id: &str, label: &str) -> (item: Item)
    ensures
        item@ == custom(id@, label@, None),
{
    Item::Custom(CustomItem { id: id.to_owned(), label: label.to_owned(), accelerator: None })
}

/// Builds the Window submenu: minimize, zoom, a separator, close-window.
pub fn build_window_submenu() -> (submenu: Submenu)
    ensures
        submenu@ == window_submenu(),
{
    let items = vec![
        Item::Native(NativeAction::Minimize),
        Item::Native(NativeAction::Zoom),
        Item::Native(NativeAction::Separator),
        Item::Native(NativeAction::CloseWindow),
    ];
    let submenu = Submenu { label: "Window".to_owned(), items };
    assert(submenu@.items =~= window_items());
    submenu
}

/// Builds the menu bar of the main window. The result depends on `app_name`
/// alone, and only in its about text and in the title of its first submenu.
pub fn build_menu(app_name: &str) -> (menu: MenuDescription)
    ensures
        menu@ == main_menu(app_name@),
        menu@.wf(),
{
    let app = Submenu {
        label: app_name.to_owned(),
        items: vec![
            Item::Native(NativeAction::About),
            Item::Native(NativeAction::Separator),
            Item::Custom(
                CustomItem {
                    id: "settings".to_owned(),
                    label: "Preferences…".to_owned(),
                    accelerator: Some("cmd+,".to_owned()),
                },
            ),
            Item::Native(NativeAction::Separator),
            Item::Native(NativeAction::Hide),
            Item::Native(NativeAction::HideOthers),
            Item::Native(NativeAction::ShowAll),
            Item::Native(NativeAction::Separator),
            Item::Native(NativeAction::Quit),
        ],
    };
    assert(app@.items =~= app_items());

    let file = Submenu {
        label: "File".to_owned(),
        items: vec![
            Item::Native(NativeAction::CloseWindow),
            Item::Native(NativeAction::Separator),
            plain_item("open", "Open"),
            plain_item("close", "Close"),
        ],
    };
    assert(file@.items =~= file_items());

    let edit = Submenu {
        label: "Edit".to_owned(),
        items: vec![
            Item::Native(NativeAction::Undo),
            Item::Native(NativeAction::Redo),
            Item::Native(NativeAction::Separator),
            Item::Native(NativeAction::Cut),
            Item::Native(NativeAction::Copy),
            Item::Native(NativeAction::Paste),
            Item::Native(NativeAction::SelectAll),
        ],
    };
    assert(edit@.items =~= edit_items());

    let view = Submenu {
        label: "View".to_owned(),
        items: vec![Item::Native(NativeAction::EnterFullScreen)],
    };
    assert(view@.items =~= view_items());

    let window = build_window_submenu();

    let navigation = Submenu {
        label: "Navigation".to_owned(),
        items: vec![plain_item("home", "Home"), plain_item("back", "Back")],
    };
    assert(navigation@.items =~= navigation_items());

    let submenus = vec![app, file, edit, view, window, navigation];
    proof {
        assert(submenu_views(submenus@) =~= main_menu(app_name@).submenus);
        lemma_main_menu_wf(app_name@);
    }
    MenuDescription { about_text: app_name.to_owned(), submenus }
}

/// Builds the menu bar prepared for the settings window: the application
/// submenu without the way into the settings, and the Window submenu.
pub fn build_settings_menu(app_name: &str) -> (menu: MenuDescription)
    ensures
        menu@ == settings_menu(app_name@),
        menu@.wf(),
{
    let app = Submenu {
        label: app_name.to_owned(),
        items: vec![
            Item::Native(NativeAction::About),
            Item::Native(NativeAction::Separator),
            Item::Native(NativeAction::Hide),
            Item::Native(NativeAction::HideOthers),
            Item::Native(NativeAction::ShowAll),
            Item::Native(NativeAction::Separator),
            Item::Native(NativeAction::Quit),
        ],
    };
    assert(app@.items =~= settings_app_items());
    let window = build_window_submenu();
    let submenus = vec![app, window];
    proof {
        assert(submenu_views(submenus@) =~= settings_menu(app_name@).submenus);
        lemma_settings_menu_wf(app_name@);
    }
    MenuDescription { about_text: app_name.to_owned(), submenus }
}

/// Every item of the application's own in the main menu bar, by its place.
proof fn lemma_main_menu_customs(app_name: Seq<char>, s: int, i: int)
    requires
        main_menu(app_name).holds_custom(s, i),
    ensures
        (s == 0 && i == 2) || (s == 1 && i == 2) || (s == 1 && i == 3) || (s == 5 && i == 0) || (s
            == 5 && i == 1),
        s == 0 ==> main_menu(app_name).id_at(s, i) == "settings"@,
        s == 1 && i == 2 ==> main_menu(app_name).id_at(s, i) == "open"@,
        s == 1 && i == 3 ==> main_menu(app_name).id_at(s, i) == "close"@,
        s == 5 && i == 0 ==> main_menu(app_name).id_at(s, i) == "home"@,
        s == 5 && i == 1 ==> main_menu(app_name).id_at(s, i) == "back"@,
{
}

/// The five identifiers of the main menu bar differ from one another.
proof fn lemma_menu_ids_differ()
    ensures
        "settings"@ != "open"@,
        "settings"@ != "close"@,
        "settings"@ != "home"@,
        "settings"@ != "back"@,
        "open"@ != "close"@,
        "open"@ != "home"@,
        "open"@ != "back"@,
        "close"@ != "home"@,
        "close"@ != "back"@,
        "home"@ != "back"@,
{
    reveal_strlit("settings");
    reveal_strlit("open");
    reveal_strlit("close");
    reveal_strlit("home");
    reveal_strlit("back");
    assert("settings"@.len() == 8);
    assert("close"@.len() == 5);
    assert("open"@.len() == 4 && "home"@.len() == 4 && "back"@.len() == 4);
    assert("open"@[0] != "home"@[0]);
    assert("open"@[0] != "back"@[0]);
    assert("home"@[0] != "back"@[0]);
}

/// The main menu bar keeps the invariant, whatever the application is
/// called: its items' identifiers are pairwise distinct.
pub proof fn lemma_main_menu_wf(app_name: Seq<char>)
    ensures
        main_menu(app_name).wf(),
{
    let menu = main_menu(app_name);
    lemma_menu_ids_differ();
    assert forall|s1: int, i1: int, s2: int, i2: int|
        #![trigger menu.holds_custom(s1, i1), menu.holds_custom(s2, i2)]
        menu.holds_custom(s1, i1) && menu.holds_custom(s2, i2) && (s1 != s2 || i1
            != i2) implies menu.id_at(s1, i1) != menu.id_at(s2, i2) by {
        lemma_main_menu_customs(app_name, s1, i1);
        lemma_main_menu_customs(app_name, s2, i2);
    }
}

/// The settings window's menu bar keeps the invariant: it holds no item of
/// the application's own.
pub proof fn lemma_settings_menu_wf(app_name: Seq<char>)
    ensures
        settings_menu(app_name).wf(),
        forall|s: int, i: int| !settings_menu(app_name).holds_custom(s, i),
{
}

/// Building twice under one name gives one menu bar.
pub proof fn lemma_same_name_same_menu(first: MenuView, second: MenuView, a: Seq<char>, b: Seq<char>)
    requires
        first == main_menu(a),
        second == main_menu(b),
        a == b,
    ensures
        first == second,
{
}

/// Two names give menu bars that differ in nothing but the about text and
/// the title of the first submenu.
pub proof fn lemma_name_only_retitles(a: Seq<char>, b: Seq<char>)
    ensures
        main_menu(a) == main_menu(b).renamed(a),
        main_menu(a).about_text == a,
        main_menu(a).submenus[0].label == a,
{
    assert(main_menu(a).submenus =~= main_menu(b).renamed(a).submenus);
}

} // verus!
