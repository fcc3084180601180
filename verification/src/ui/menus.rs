//! Menus: items, selection and the path through the menu tree.

use crate::input::{Key, KeyPress};
use vstd::prelude::*;
use vstd::string::*;

verus! {

#[derive(Debug, Clone, Copy, PartialEq, Eq, Structural)]
pub enum MenuType {
    Main,
    NewGame,
    LoadGame,
    Settings,
    GameMenu,
    TeamSelection,
    PlayerManagement,
    Statistics,
    Quit,
}

/// What choosing a menu item asks for.
#[derive(Debug, Clone)]
pub enum MenuAction {
    NewGame,
    LoadGame,
    SaveGame,
    Settings,
    Statistics,
    TeamManagement,
    PlayerManagement,
    Resume,
    MainMenu,
    Quit,
    SubMenu(MenuType),
    Custom(String),
}

impl MenuAction {
    /// A copy of the action.
    pub fn duplicate(&self) -> (copy: MenuAction)
        ensures
            copy == *self,
    {
        match self {
            MenuAction::NewGame => MenuAction::NewGame,
            MenuAction::LoadGame => MenuAction::LoadGame,
            MenuAction::SaveGame => MenuAction::SaveGame,
            MenuAction::Settings => MenuAction::Settings,
            MenuAction::Statistics => MenuAction::Statistics,
            MenuAction::TeamManagement => MenuAction::TeamManagement,
            MenuAction::PlayerManagement => MenuAction::PlayerManagement,
            MenuAction::Resume => MenuAction::Resume,
            MenuAction::MainMenu => MenuAction::MainMenu,
            MenuAction::Quit => MenuAction::Quit,
            MenuAction::SubMenu(menu_type) => MenuAction::SubMenu(*menu_type),
            MenuAction::Custom(name) => MenuAction::Custom(name.clone()),
        }
    }
}

#[derive(Debug, Clone)]
pub struct MenuItem {
    pub label: String,
    pub action: MenuAction,
    pub enabled: bool,
    pub shortcut: Option<char>,
}

impl MenuItem {
    /// The line shown for the item: the label, with the shortcut in brackets
    /// in front if there is one.
    pub open spec fn shown(&self) -> Seq<char> {
        match self.shortcut {
            Some(key) => "["@ + seq![key] + "] "@ + self.label@,
            None => self.label@,
        }
    }

    /// An enabled item without a shortcut.
    pub fn new(label: String, action: MenuAction) -> (item: Self)
        ensures
            item == (MenuItem { label, action, enabled: true, shortcut: None }),
    {
        Self { label, action, enabled: true, shortcut: None }
    }

    pub fn with_shortcut(self, shortcut: char) -> (item: Self)
        ensures
            item == (MenuItem { shortcut: Some(shortcut), ..self }),
    {
        let mut item = self;
        item.shortcut = Some(shortcut);
        item
    }

    pub fn with_enabled(self, enabled: bool) -> (item: Self)
        ensures
            item == (MenuItem { enabled, ..self }),
    {
        let mut item = self;
        item.enabled = enabled;
        item
    }

    pub fn display_text(&self) -> (text: String)
        ensures
            text@ == self.shown(),
    {
        match self.shortcut {
            Some(key) => {
                let mut text = String::from_str("[");
                crate::text::push_char(&mut text, key);
                text.append("] ");
                text.append(self.label.as_str());
                assert(text@ =~= self.shown());
                text
            },
            None => self.label.clone(),
        }
    }
}

/// The item after `current`, going round from the last to the first.
pub open spec fn next_index(len: int, current: int) -> int {
    if current < len - 1 {
        current + 1
    } else {
        0
    }
}

/// The item before `current`, going round from the first to the last.
pub open spec fn previous_index(len: int, current: int) -> int {
    if current > 0 {
        current - 1
    } else if len > 0 {
        len - 1
    } else {
        0
    }
}

/// Where the selection comes to rest when it may not stay on a disabled item:
/// on `current` if that is an enabled item, else on the next enabled item
/// going round; the search gives up when it is back at `start`, and after
/// `steps` steps at the latest.
pub open spec fn settled(items: Seq<MenuItem>, current: int, start: int, steps: nat) -> int
    decreases steps,
{
    if 0 <= current < items.len() && items[current].enabled {
        current
    } else if steps == 0 {
        current
    } else {
        let next = next_index(items.len() as int, current);
        if next == start {
            next
        } else {
            settled(items, next, start, (steps - 1) as nat)
        }
    }
}

/// The first enabled item from `from` on that has a given shortcut.
pub open spec fn item_of_shortcut(items: Seq<MenuItem>, key: char, from: int) -> Option<int>
    decreases items.len() - from,
{
    if from < 0 || from >= items.len() {
        None
    } else if items[from].enabled && items[from].shortcut == Some(key) {
        Some(from)
    } else {
        item_of_shortcut(items, key, from + 1)
    }
}

#[derive(Debug, Clone)]
pub struct Menu {
    pub menu_type: MenuType,
    pub title: String,
    pub items: Vec<MenuItem>,
    pub selected_index: usize,
    pub is_active: bool,
}

impl Menu {
    /// The two menus differ at most in the selected item.
    pub open spec fn same_but_selection(&self, other: &Menu) -> bool {
        &&& self.menu_type == other.menu_type
        &&& self.title == other.title
        &&& self.items == other.items
        &&& self.is_active == other.is_active
    }

    /// An empty, inactive menu.
    pub fn new(menu_type: MenuType, title: String) -> (menu: Self)
        ensures
            menu.menu_type == menu_type,
            menu.title == title,
            menu.items@.len() == 0,
            menu.selected_index == 0,
            !menu.is_active,
    {
        Self { menu_type, title, items: Vec::new(), selected_index: 0, is_active: false }
    }

    pub fn add_item(&mut self, item: MenuItem)
        ensures
            final(self).items@ == old(self).items@.push(item),
            final(self).menu_type == old(self).menu_type,
            final(self).title == old(self).title,
            final(self).selected_index == old(self).selected_index,
            final(self).is_active == old(self).is_active,
    {
        self.items.push(item);
    }

    pub fn add_items(&mut self, items: Vec<MenuItem>)
        ensures
            final(self).items@ == old(self).items@ + items@,
            final(self).menu_type == old(self).menu_type,
            final(self).title == old(self).title,
            final(self).selected_index == old(self).selected_index,
            final(self).is_active == old(self).is_active,
    {
        let mut items = items;
        self.items.append(&mut items);
    }

    pub fn get_selected_item(&self) -> (item: Option<&MenuItem>)
        ensures
            self.selected_index < self.items@.len() ==> item == Some(
                &self.items@[self.selected_index as int],
            ),
            self.selected_index >= self.items@.len() ==> item is None,
    {
        if self.selected_index < self.items.len() {
            Some(&self.items[self.selected_index])
        } else {
            None
        }
    }

    /// Moves the selection up one item, from the first round to the last,
    /// and on past disabled items.
    pub fn move_up(&mut self)
        ensures
            final(self).same_but_selection(old(self)),
            final(self).selected_index == settled(
                old(self).items@,
                previous_index(old(self).items@.len() as int, old(self).selected_index as int),
                previous_index(old(self).items@.len() as int, old(self).selected_index as int),
                old(self).items@.len(),
            ),
    {
        if self.selected_index > 0 {
            self.selected_index = self.selected_index - 1;
        } else {
            self.selected_index = if self.items.len() > 0 {
                self.items.len() - 1
            } else {
                0
            };
        }
        self.skip_disabled_items();
    }

    /// Moves the selection down one item, from the last round to the first,
    /// and on past disabled items.
    pub fn move_down(&mut self)
        ensures
            final(self).same_but_selection(old(self)),
            final(self).selected_index == settled(
                old(self).items@,
                next_index(old(self).items@.len() as int, old(self).selected_index as int),
                next_index(old(self).items@.len() as int, old(self).selected_index as int),
                old(self).items@.len(),
            ),
    {
        if self.items.len() > 0 && self.selected_index < self.items.len() - 1 {
            self.selected_index = self.selected_index + 1;
        } else {
            self.selected_index = 0;
        }
        self.skip_disabled_items();
    }

    /// Moves the selection off a disabled item to the next enabled one, going
    /// round; if every item is disabled the selection ends where it began.
    pub fn skip_disabled_items(&mut self)
        ensures
            final(self).same_but_selection(old(self)),
            final(self).selected_index == settled(
                old(self).items@,
                old(self).selected_index as int,
                old(self).selected_index as int,
                old(self).items@.len(),
            ),
    {
        let start_index = self.selected_index;
        let mut steps: usize = self.items.len();
        loop
            invariant_except_break
                settled(
                    self.items@,
                    old(self).selected_index as int,
                    start_index as int,
                    self.items@.len(),
                ) == settled(self.items@, self.selected_index as int, start_index as int, steps as nat),
            invariant
                self.same_but_selection(old(self)),
                start_index == old(self).selected_index,
                steps <= self.items@.len(),
            ensures
                self.same_but_selection(old(self)),
                self.selected_index == settled(
                    old(self).items@,
                    old(self).selected_index as int,
                    old(self).selected_index as int,
                    old(self).items@.len(),
                ),
            decreases steps,
        {
            if self.selected_index < self.items.len() {
                if self.items[self.selected_index].enabled {
                    break ;
                }
            }
            if steps == 0 {
                break ;
            }
            if self.items.len() > 0 && self.selected_index < self.items.len() - 1 {
                self.selected_index = self.selected_index + 1;
            } else {
                self.selected_index = 0;
            }
            steps = steps - 1;
            if self.selected_index == start_index {
                break ;
            }
        }
    }

    /// Selects the first enabled item with a shortcut and returns what it
    /// asks for. Without such an item nothing changes.
    pub fn handle_shortcut(&mut self, key: char) -> (action: Option<MenuAction>)
        ensures
            final(self).same_but_selection(old(self)),
            match item_of_shortcut(old(self).items@, key, 0) {
                Some(i) => {
                    &&& 0 <= i < old(self).items@.len()
                    &&& final(self).selected_index == i
                    &&& action == Some(old(self).items@[i].action)
                },
                None => action is None && final(self).selected_index == old(self).selected_index,
            },
    {
        let mut i: usize = 0;
        while i < self.items.len()
            invariant
                i <= self.items@.len(),
                *self == *old(self),
                item_of_shortcut(self.items@, key, 0) == item_of_shortcut(
                    self.items@,
                    key,
                    i as int,
                ),
            decreases self.items@.len() - i,
        {
            let hit = self.items[i].enabled && match self.items[i].shortcut {
                Some(c) => c == key,
                None => false,
            };
            if hit {
                self.selected_index = i;
                return Some(self.items[i].action.duplicate());
            }
            i = i + 1;
        }
        None
    }
}


/// The type, the title and the number of items of each of the five menus
/// that a manager starts with.
pub open spec fn default_menu(menu: int) -> (MenuType, Seq<char>, nat) {
    if menu == 0 {
        (MenuType::Main, "Wild Pitch - Main Menu"@, 5nat)
    } else if menu == 1 {
        (MenuType::NewGame, "New Game Setup"@, 4nat)
    } else if menu == 2 {
        (MenuType::Settings, "Game Settings"@, 6nat)
    } else if menu == 3 {
        (MenuType::GameMenu, "Game Menu"@, 6nat)
    } else if menu == 4 {
        (MenuType::Statistics, "Statistics"@, 5nat)
    } else {
        (MenuType::Quit, Seq::<char>::empty(), 0nat)
    }
}

/// The label and the shortcut of each item of the menus that a manager
/// starts with.
pub open spec fn default_item(menu: int, item: int) -> (Seq<char>, char) {
    if menu == 0 && item == 0 {
        ("New Game"@, 'n')
    } else if menu == 0 && item == 1 {
        ("Load Game"@, 'l')
    } else if menu == 0 && item == 2 {
        ("Settings"@, 's')
    } else if menu == 0 && item == 3 {
        ("Statistics"@, 't')
    } else if menu == 0 && item == 4 {
        ("Quit"@, 'q')
    } else if menu == 1 && item == 0 {
        ("Quick Start"@, 'q')
    } else if menu == 1 && item == 1 {
        ("Team Selection"@, 't')
    } else if menu == 1 && item == 2 {
        ("Player Management"@, 'p')
    } else if menu == 1 && item == 3 {
        ("Back to Main Menu"@, 'b')
    } else if menu == 2 && item == 0 {
        ("Difficulty Level"@, 'd')
    } else if menu == 2 && item == 1 {
        ("Game Options"@, 'o')
    } else if menu == 2 && item == 2 {
        ("Display Settings"@, 'i')
    } else if menu == 2 && item == 3 {
        ("Audio Settings"@, 'a')
    } else if menu == 2 && item == 4 {
        ("MLB Data Analysis"@, 'm')
    } else if menu == 2 && item == 5 {
        ("Back to Main Menu"@, 'b')
    } else if menu == 3 && item == 0 {
        ("Resume Game"@, 'r')
    } else if menu == 3 && item == 1 {
        ("Save Game"@, 's')
    } else if menu == 3 && item == 2 {
        ("Load Game"@, 'l')
    } else if menu == 3 && item == 3 {
        ("Settings"@, 'e')
    } else if menu == 3 && item == 4 {
        ("Main Menu"@, 'm')
    } else if menu == 3 && item == 5 {
        ("Quit"@, 'q')
    } else if menu == 4 && item == 0 {
        ("Player Stats"@, 'p')
    } else if menu == 4 && item == 1 {
        ("Team Stats"@, 't')
    } else if menu == 4 && item == 2 {
        ("League Leaders"@, 'l')
    } else if menu == 4 && item == 3 {
        ("Game History"@, 'h')
    } else if menu == 4 && item == 4 {
        ("Back to Main Menu"@, 'b')
    } else {
        (Seq::<char>::empty(), ' ')
    }
}

/// Whether `action` is what an item of the menus that a manager starts with
/// asks for.
pub open spec fn default_action(menu: int, item: int, action: MenuAction) -> bool {
    if menu == 0 && item == 0 {
        action matches MenuAction::SubMenu(to) && to == MenuType::NewGame
    } else if menu == 0 && item == 1 {
        action is LoadGame
    } else if menu == 0 && item == 2 {
        action matches MenuAction::SubMenu(to) && to == MenuType::Settings
    } else if menu == 0 && item == 3 {
        action matches MenuAction::SubMenu(to) && to == MenuType::Statistics
    } else if menu == 0 && item == 4 {
        action is Quit
    } else if menu == 1 && item == 0 {
        action is NewGame
    } else if menu == 1 && item == 1 {
        action matches MenuAction::SubMenu(to) && to == MenuType::TeamSelection
    } else if menu == 1 && item == 2 {
        action matches MenuAction::SubMenu(to) && to == MenuType::PlayerManagement
    } else if menu == 1 && item == 3 {
        action is MainMenu
    } else if menu == 2 && item == 0 {
        action matches MenuAction::Custom(name) && name@ == "difficulty"@
    } else if menu == 2 && item == 1 {
        action matches MenuAction::Custom(name) && name@ == "options"@
    } else if menu == 2 && item == 2 {
        action matches MenuAction::Custom(name) && name@ == "display"@
    } else if menu == 2 && item == 3 {
        action matches MenuAction::Custom(name) && name@ == "audio"@
    } else if menu == 2 && item == 4 {
        action matches MenuAction::Custom(name) && name@ == "mlb_analysis"@
    } else if menu == 2 && item == 5 {
        action is MainMenu
    } else if menu == 3 && item == 0 {
        action is Resume
    } else if menu == 3 && item == 1 {
        action is SaveGame
    } else if menu == 3 && item == 2 {
        action is LoadGame
    } else if menu == 3 && item == 3 {
        action matches MenuAction::SubMenu(to) && to == MenuType::Settings
    } else if menu == 3 && item == 4 {
        action is MainMenu
    } else if menu == 3 && item == 5 {
        action is Quit
    } else if menu == 4 && item == 0 {
        action matches MenuAction::Custom(name) && name@ == "player_stats"@
    } else if menu == 4 && item == 1 {
        action matches MenuAction::Custom(name) && name@ == "team_stats"@
    } else if menu == 4 && item == 2 {
        action matches MenuAction::Custom(name) && name@ == "leaders"@
    } else if menu == 4 && item == 3 {
        action matches MenuAction::Custom(name) && name@ == "history"@
    } else if menu == 4 && item == 4 {
        action is MainMenu
    } else {
        false
    }
}

/// Whether a menu is one of the menus that a manager starts with, as it is
/// at the start: nothing disabled, the first item selected, and only the
/// main menu active.
pub open spec fn is_default_menu(m: Menu, menu: int) -> bool {
    &&& m.menu_type == default_menu(menu).0
    &&& m.title@ == default_menu(menu).1
    &&& m.items@.len() == default_menu(menu).2
    &&& m.selected_index == 0
    &&& m.is_active == (menu == 0)
    &&& forall|i: int|
        0 <= i < m.items@.len() ==> {
            &&& (#[trigger] m.items@[i]).label@ == default_item(menu, i).0
            &&& m.items@[i].shortcut == Some(default_item(menu, i).1)
            &&& m.items@[i].enabled
            &&& default_action(menu, i, m.items@[i].action)
        }
}

/// The first menu from `from` on of a given type.
pub open spec fn menu_of_type(menus: Seq<Menu>, menu_type: MenuType, from: int) -> Option<int>
    decreases menus.len() - from,
{
    if from < 0 || from >= menus.len() {
        None
    } else if menus[from].menu_type == menu_type {
        Some(from)
    } else {
        menu_of_type(menus, menu_type, from + 1)
    }
}

/// The menus with the active one switched from `from` to `to`.
pub open spec fn switched(menus: Seq<Menu>, from: int, to: int) -> Seq<Menu> {
    Seq::new(
        menus.len(),
        |i: int|
            if i == to {
                Menu { is_active: true, ..menus[i] }
            } else if i == from {
                Menu { is_active: false, ..menus[i] }
            } else {
                menus[i]
            },
    )
}

/// The menus of the program, the one on screen, and the way back.
pub struct MenuManager {
    pub menus: Vec<Menu>,
    /// The index of the menu on screen.
    pub current_menu: usize,
    /// The menus to go back to, the latest last.
    pub menu_stack: Vec<usize>,
}

impl MenuManager {
    /// The menu on screen exists, and so does every menu on the way back.
    pub open spec fn wf(&self) -> bool {
        &&& self.current_menu < self.menus@.len()
        &&& forall|i: int|
            0 <= i < self.menu_stack@.len() ==> #[trigger] self.menu_stack@[i] < self.menus@.len()
    }

    /// A manager with the five menus of the program, showing the main menu.
    pub fn new() -> (manager: Self)
        ensures
            manager.wf(),
            manager.current_menu == 0,
            manager.menu_stack@.len() == 0,
            manager.menus@.len() == 5,
            forall|m: int| 0 <= m < 5 ==> is_default_menu(#[trigger] manager.menus@[m], m),
    {
        let mut manager = Self { menus: Vec::new(), current_menu: 0, menu_stack: Vec::new() };
        manager.create_default_menus();
        manager
    }

    /// Adds the five menus of the program: main, new game, settings, game
    /// and statistics.
    pub fn create_default_menus(&mut self)
        requires
            old(self).menus@.len() == 0,
        ensures
            final(self).current_menu == old(self).current_menu,
            final(self).menu_stack == old(self).menu_stack,
            final(self).menus@.len() == 5,
            forall|m: int| 0 <= m < 5 ==> is_default_menu(#[trigger] final(self).menus@[m], m),
    {
        let mut menu = Menu::new(MenuType::Main, String::from_str("Wild Pitch - Main Menu"));
        menu.add_item(
            MenuItem::new(String::from_str("New Game"), MenuAction::SubMenu(MenuType::NewGame)).with_shortcut('n'),
        );
        menu.add_item(
            MenuItem::new(String::from_str("Load Game"), MenuAction::LoadGame).with_shortcut('l'),
        );
        menu.add_item(
            MenuItem::new(String::from_str("Settings"), MenuAction::SubMenu(MenuType::Settings)).with_shortcut('s'),
        );
        menu.add_item(
            MenuItem::new(String::from_str("Statistics"), MenuAction::SubMenu(MenuType::Statistics)).with_shortcut('t'),
        );
        menu.add_item(
            MenuItem::new(String::from_str("Quit"), MenuAction::Quit).with_shortcut('q'),
        );
        menu.is_active = true;
        self.menus.push(menu);
        let mut menu = Menu::new(MenuType::NewGame, String::from_str("New Game Setup"));
        menu.add_item(
            MenuItem::new(String::from_str("Quick Start"), MenuAction::NewGame).with_shortcut('q'),
        );
        menu.add_item(
            MenuItem::new(String::from_str("Team Selection"), MenuAction::SubMenu(MenuType::TeamSelection)).with_shortcut('t'),
        );
        menu.add_item(
            MenuItem::new(String::from_str("Player Management"), MenuAction::SubMenu(MenuType::PlayerManagement)).with_shortcut('p'),
        );
        menu.add_item(
            MenuItem::new(String::from_str("Back to Main Menu"), MenuAction::MainMenu).with_shortcut('b'),
        );
        self.menus.push(menu);
        let mut menu = Menu::new(MenuType::Settings, String::from_str("Game Settings"));
        menu.add_item(
            MenuItem::new(String::from_str("Difficulty Level"), MenuAction::Custom(String::from_str("difficulty"))).with_shortcut('d'),
        );
        menu.add_item(
            MenuItem::new(String::from_str("Game Options"), MenuAction::Custom(String::from_str("options"))).with_shortcut('o'),
        );
        menu.add_item(
            MenuItem::new(String::from_str("Display Settings"), MenuAction::Custom(String::from_str("display"))).with_shortcut('i'),
        );
        menu.add_item(
            MenuItem::new(String::from_str("Audio Settings"), MenuAction::Custom(String::from_str("audio"))).with_shortcut('a'),
        );
        menu.add_item(
            MenuItem::new(String::from_str("MLB Data Analysis"), MenuAction::Custom(String::from_str("mlb_analysis"))).with_shortcut('m'),
        );
        menu.add_item(
            MenuItem::new(String::from_str("Back to Main Menu"), MenuAction::MainMenu).with_shortcut('b'),
        );
        self.menus.push(menu);
        let mut menu = Menu::new(MenuType::GameMenu, String::from_str("Game Menu"));
        menu.add_item(
            MenuItem::new(String::from_str("Resume Game"), MenuAction::Resume).with_shortcut('r'),
        );
        menu.add_item(
            MenuItem::new(String::from_str("Save Game"), MenuAction::SaveGame).with_shortcut('s'),
        );
        menu.add_item(
            MenuItem::new(String::from_str("Load Game"), MenuAction::LoadGame).with_shortcut('l'),
        );
        menu.add_item(
            MenuItem::new(String::from_str("Settings"), MenuAction::SubMenu(MenuType::Settings)).with_shortcut('e'),
        );
        menu.add_item(
            MenuItem::new(String::from_str("Main Menu"), MenuAction::MainMenu).with_shortcut('m'),
        );
        menu.add_item(
            MenuItem::new(String::from_str("Quit"), MenuAction::Quit).with_shortcut('q'),
        );
        self.menus.push(menu);
        let mut menu = Menu::new(MenuType::Statistics, String::from_str("Statistics"));
        menu.add_item(
            MenuItem::new(String::from_str("Player Stats"), MenuAction::Custom(String::from_str("player_stats"))).with_shortcut('p'),
        );
        menu.add_item(
            MenuItem::new(String::from_str("Team Stats"), MenuAction::Custom(String::from_str("team_stats"))).with_shortcut('t'),
        );
        menu.add_item(
            MenuItem::new(String::from_str("League Leaders"), MenuAction::Custom(String::from_str("leaders"))).with_shortcut('l'),
        );
        menu.add_item(
            MenuItem::new(String::from_str("Game History"), MenuAction::Custom(String::from_str("history"))).with_shortcut('h'),
        );
        menu.add_item(
            MenuItem::new(String::from_str("Back to Main Menu"), MenuAction::MainMenu).with_shortcut('b'),
        );
        self.menus.push(menu);
    }

    pub fn get_current_menu(&self) -> (menu: &Menu)
        requires
            self.wf(),
        ensures
            *menu == self.menus@[self.current_menu as int],
    {
        &self.menus[self.current_menu]
    }

    pub fn get_current_menu_mut(&mut self) -> (menu: &mut Menu)
        requires
            old(self).wf(),
        ensures
            *menu == old(self).menus@[old(self).current_menu as int],
            final(self).menus@ == old(self).menus@.update(
                old(self).current_menu as int,
                *final(menu),
            ),
            final(self).current_menu == old(self).current_menu,
            final(self).menu_stack == old(self).menu_stack,
    {
        &mut self.menus[self.current_menu]
    }

    /// Goes to the first menu of a type, remembering the way back. Without
    /// such a menu nothing changes.
    pub fn navigate_to_menu(&mut self, menu_type: MenuType) -> (found: bool)
        requires
            old(self).wf(),
        ensures
            final(self).wf(),
            match menu_of_type(old(self).menus@, menu_type, 0) {
                Some(to) => {
                    &&& found
                    &&& final(self).current_menu == to
                    &&& final(self).menu_stack@ == old(self).menu_stack@.push(
                        old(self).current_menu,
                    )
                    &&& final(self).menus@ == switched(
                        old(self).menus@,
                        old(self).current_menu as int,
                        to,
                    )
                },
                None => !found && *final(self) == *old(self),
            },
    {
        let mut index: usize = 0;
        while index < self.menus.len()
            invariant
                index <= self.menus@.len(),
                *self == *old(self),
                old(self).wf(),
                menu_of_type(self.menus@, menu_type, 0) == menu_of_type(
                    self.menus@,
                    menu_type,
                    index as int,
                ),
            decreases self.menus@.len() - index,
        {
            if self.menus[index].menu_type == menu_type {
                self.menu_stack.push(self.current_menu);
                let from = self.current_menu;
                self.menus[from].is_active = false;
                self.current_menu = index;
                self.menus[index].is_active = true;
                assert(self.menus@ =~= switched(old(self).menus@, from as int, index as int));
                return true;
            }
            index = index + 1;
        }
        false
    }

    /// Goes back to the menu before, if there is one.
    pub fn go_back(&mut self) -> (went: bool)
        requires
            old(self).wf(),
        ensures
            final(self).wf(),
            went == (old(self).menu_stack@.len() > 0),
            went ==> {
                &&& final(self).current_menu == old(self).menu_stack@.last()
                &&& final(self).menu_stack@ == old(self).menu_stack@.drop_last()
                &&& final(self).menus@ == switched(
                    old(self).menus@,
                    old(self).current_menu as int,
                    old(self).menu_stack@.last() as int,
                )
            },
            !went ==> *final(self) == *old(self),
    {
        if self.menu_stack.len() == 0 {
            return false;
        }
        match self.menu_stack.pop() {
            Some(previous_menu) => {
                let from = self.current_menu;
                self.menus[from].is_active = false;
                self.current_menu = previous_menu;
                self.menus[previous_menu].is_active = true;
                assert(self.menus@ =~= switched(
                    old(self).menus@,
                    from as int,
                    previous_menu as int,
                ));
                true
            },
            None => false,
        }
    }

    /// Carries out an action as far as it concerns the menus: a submenu is
    /// entered, and the way to the main menu is taken by forgetting the way
    /// back. Any other action is handed back to the caller.
    pub fn process_action(&mut self, action: MenuAction) -> (left: Option<MenuAction>)
        requires
            old(self).wf(),
        ensures
            final(self).wf(),
            match action {
                MenuAction::SubMenu(menu_type) => {
                    &&& left is None
                    &&& match menu_of_type(old(self).menus@, menu_type, 0) {
                        Some(to) => {
                            &&& final(self).current_menu == to
                            &&& final(self).menu_stack@ == old(self).menu_stack@.push(
                                old(self).current_menu,
                            )
                            &&& final(self).menus@ == switched(
                                old(self).menus@,
                                old(self).current_menu as int,
                                to,
                            )
                        },
                        None => *final(self) == *old(self),
                    }
                },
                MenuAction::MainMenu => {
                    &&& left is None
                    &&& final(self).current_menu == 0
                    &&& final(self).menu_stack@.len() == 0
                    &&& final(self).menus@ == switched(
                        old(self).menus@,
                        old(self).current_menu as int,
                        0,
                    )
                },
                _ => left == Some(action) && *final(self) == *old(self),
            },
    {
        match action {
            MenuAction::SubMenu(menu_type) => {
                self.navigate_to_menu(menu_type);
                None
            },
            MenuAction::MainMenu => {
                self.menu_stack.clear();
                let from = self.current_menu;
                self.menus[from].is_active = false;
                self.current_menu = 0;
                self.menus[0].is_active = true;
                assert(self.menus@ =~= switched(old(self).menus@, from as int, 0));
                None
            },
            _ => Some(action),
        }
    }

    /// What a key press does to the menus. Up and Down move the selection,
    /// Enter chooses the selected item, Escape goes back or, at the top, asks
    /// to quit, and a character is tried as a shortcut.
    pub fn handle_key_event(&mut self, press: KeyPress) -> (action: Option<MenuAction>)
        requires
            old(self).wf(),
        ensures
            final(self).wf(),
            final(self).menus@.len() == old(self).menus@.len(),
            match press.key {
                Key::Enter => {
                    let menu = old(self).menus@[old(self).current_menu as int];
                    &&& *final(self) == *old(self)
                    &&& if menu.selected_index < menu.items@.len() {
                        action == Some(menu.items@[menu.selected_index as int].action)
                    } else {
                        action is None
                    }
                },
                Key::Esc => {
                    if old(self).menu_stack@.len() > 0 {
                        &&& action is None
                        &&& final(self).current_menu == old(self).menu_stack@.last()
                        &&& final(self).menu_stack@ == old(self).menu_stack@.drop_last()
                        &&& final(self).menus@ == switched(
                            old(self).menus@,
                            old(self).current_menu as int,
                            old(self).menu_stack@.last() as int,
                        )
                    } else {
                        action is Some && action->0 is Quit && *final(self) == *old(self)
                    }
                },
                Key::Up | Key::Down | Key::Char(_) => {
                    let at = old(self).current_menu as int;
                    let menu = old(self).menus@[at];
                    let after = final(self).menus@[at];
                    &&& final(self).current_menu == old(self).current_menu
                    &&& final(self).menu_stack == old(self).menu_stack
                    &&& final(self).menus@ == old(self).menus@.update(at, after)
                    &&& after.same_but_selection(&menu)
                    &&& match press.key {
                        Key::Up => action is None && after.selected_index == settled(
                            menu.items@,
                            previous_index(menu.items@.len() as int, menu.selected_index as int),
                            previous_index(menu.items@.len() as int, menu.selected_index as int),
                            menu.items@.len(),
                        ),
                        Key::Down => action is None && after.selected_index == settled(
                            menu.items@,
                            next_index(menu.items@.len() as int, menu.selected_index as int),
                            next_index(menu.items@.len() as int, menu.selected_index as int),
                            menu.items@.len(),
                        ),
                        Key::Char(c) => match item_of_shortcut(menu.items@, c, 0) {
                            Some(i) => after.selected_index == i && action == Some(
                                menu.items@[i].action,
                            ),
                            None => action is None && after.selected_index == menu.selected_index,
                        },
                        _ => true,
                    }
                },
                _ => action is None && *final(self) == *old(self),
            },
    {
        match press.key {
            Key::Up => {
                self.menus[self.current_menu].move_up();
                None
            },
            Key::Down => {
                self.menus[self.current_menu].move_down();
                None
            },
            Key::Enter => {
                match self.get_current_menu().get_selected_item() {
                    Some(item) => Some(item.action.duplicate()),
                    None => None,
                }
            },
            Key::Esc => {
                if self.go_back() {
                    None
                } else {
                    Some(MenuAction::Quit)
                }
            },
            Key::Char(c) => self.menus[self.current_menu].handle_shortcut(c),
            _ => None,
        }
    }

    pub fn is_main_menu(&self) -> (main: bool)
        requires
            self.wf(),
        ensures
            main == (self.menus@[self.current_menu as int].menu_type == MenuType::Main),
    {
        self.menus[self.current_menu].menu_type == MenuType::Main
    }

    pub fn get_current_menu_type(&self) -> (menu_type: &MenuType)
        requires
            self.wf(),
        ensures
            *menu_type == self.menus@[self.current_menu as int].menu_type,
    {
        &self.menus[self.current_menu].menu_type
    }
}

} // verus!
