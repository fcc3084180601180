use wild_pitch::input::{Key, KeyPress};
use wild_pitch::ui::dialogs::{Dialog, DialogManager, DialogResult, DialogType};
use wild_pitch::ui::layout::{
    create_default_layout, Area, LayoutManager, Pane, WindowLayout, WindowType,
};
use wild_pitch::ui::menus::{Menu, MenuAction, MenuItem, MenuManager, MenuType};

fn press(key: Key) -> KeyPress {
    KeyPress { key, shift: false }
}

fn item(label: &str, enabled: bool, shortcut: char) -> MenuItem {
    MenuItem::new(label.to_string(), MenuAction::Custom(label.to_string()))
        .with_shortcut(shortcut)
        .with_enabled(enabled)
}

fn custom(action: &Option<MenuAction>) -> Option<&str> {
    match action {
        Some(MenuAction::Custom(name)) => Some(name.as_str()),
        _ => None,
    }
}

#[test]
fn menu_items() {
    let plain = MenuItem::new("Load".to_string(), MenuAction::LoadGame);
    assert!(plain.enabled);
    assert_eq!(plain.shortcut, None);
    assert_eq!(plain.display_text(), "Load");
    let keyed = plain.with_shortcut('l').with_enabled(false);
    assert!(!keyed.enabled);
    assert_eq!(keyed.display_text(), "[l] Load");
    assert!(matches!(keyed.action, MenuAction::LoadGame));
    assert!(matches!(keyed.action.duplicate(), MenuAction::LoadGame));
    assert!(matches!(
        MenuAction::SubMenu(MenuType::Settings).duplicate(),
        MenuAction::SubMenu(MenuType::Settings)
    ));
}

#[test]
fn selection_skips_disabled_items() {
    let mut menu = Menu::new(MenuType::GameMenu, "Game".to_string());
    assert!(menu.get_selected_item().is_none());
    menu.move_down();
    menu.move_up();
    assert_eq!(menu.selected_index, 0);
    menu.add_item(item("a", true, 'a'));
    menu.add_items(vec![item("b", false, 'b'), item("c", false, 'c'), item("d", true, 'd')]);
    assert_eq!(menu.items.len(), 4);
    assert_eq!(menu.get_selected_item().unwrap().label, "a");
    menu.move_down();
    assert_eq!(menu.selected_index, 3);
    menu.move_down();
    assert_eq!(menu.selected_index, 0);
    menu.move_up();
    assert_eq!(menu.selected_index, 3);
    // going up onto a disabled item carries on downwards to the next enabled one
    menu.move_up();
    assert_eq!(menu.selected_index, 3);

    menu.selected_index = 1;
    menu.skip_disabled_items();
    assert_eq!(menu.selected_index, 3);

    let mut dead = Menu::new(MenuType::GameMenu, "Game".to_string());
    dead.add_items(vec![item("a", false, 'a'), item("b", false, 'b'), item("c", false, 'c')]);
    dead.selected_index = 1;
    dead.skip_disabled_items();
    assert_eq!(dead.selected_index, 1);
    dead.move_down();
    assert_eq!(dead.selected_index, 2);
    dead.move_down();
    assert_eq!(dead.selected_index, 0);
}

#[test]
fn shortcuts_select_enabled_items() {
    let mut menu = Menu::new(MenuType::GameMenu, "Game".to_string());
    menu.add_items(vec![item("a", true, 'x'), item("b", false, 'y'), item("c", true, 'y'), item("d", true, 'y')]);
    assert_eq!(custom(&menu.handle_shortcut('y')), Some("c"));
    assert_eq!(menu.selected_index, 2);
    assert_eq!(custom(&menu.handle_shortcut('x')), Some("a"));
    assert_eq!(menu.selected_index, 0);
    assert!(menu.handle_shortcut('z').is_none());
    assert_eq!(menu.selected_index, 0);
}

#[test]
fn the_default_menus() {
    let manager = MenuManager::new();
    assert_eq!(manager.menus.len(), 5);
    let types: Vec<MenuType> = manager.menus.iter().map(|m| m.menu_type).collect();
    assert_eq!(
        types,
        vec![MenuType::Main, MenuType::NewGame, MenuType::Settings, MenuType::GameMenu, MenuType::Statistics]
    );
    let sizes: Vec<usize> = manager.menus.iter().map(|m| m.items.len()).collect();
    assert_eq!(sizes, vec![5, 4, 6, 6, 5]);
    assert!(manager.is_main_menu());
    assert_eq!(*manager.get_current_menu_type(), MenuType::Main);
    let main = manager.get_current_menu();
    assert_eq!(main.title, "Wild Pitch - Main Menu");
    assert!(main.is_active);
    assert!(manager.menus[1..].iter().all(|m| !m.is_active));
    let lines: Vec<String> = main.items.iter().map(|i| i.display_text()).collect();
    assert_eq!(
        lines,
        vec!["[n] New Game", "[l] Load Game", "[s] Settings", "[t] Statistics", "[q] Quit"]
    );
    assert!(matches!(main.items[0].action, MenuAction::SubMenu(MenuType::NewGame)));
    assert!(matches!(main.items[4].action, MenuAction::Quit));
    assert_eq!(manager.menus[2].title, "Game Settings");
    assert!(matches!(&manager.menus[2].items[4].action, MenuAction::Custom(name) if name == "mlb_analysis"));
    assert_eq!(manager.menus[3].items[3].shortcut, Some('e'));
    assert_eq!(manager.menus[4].items[3].label, "Game History");
}

#[test]
fn navigating_the_menus() {
    let mut manager = MenuManager::new();
    assert!(!manager.go_back());
    assert!(!manager.navigate_to_menu(MenuType::LoadGame));
    assert!(manager.is_main_menu());
    assert!(manager.navigate_to_menu(MenuType::Settings));
    assert_eq!(*manager.get_current_menu_type(), MenuType::Settings);
    assert!(!manager.menus[0].is_active);
    assert!(manager.menus[2].is_active);
    assert_eq!(manager.menu_stack, vec![0]);
    assert!(manager.process_action(MenuAction::SubMenu(MenuType::Statistics)).is_none());
    assert_eq!(manager.current_menu, 4);
    assert_eq!(manager.menu_stack, vec![0, 2]);
    assert!(manager.go_back());
    assert_eq!(manager.current_menu, 2);
    assert!(manager.menus[2].is_active && !manager.menus[4].is_active);
    assert!(manager.process_action(MenuAction::MainMenu).is_none());
    assert!(manager.is_main_menu());
    assert!(manager.menu_stack.is_empty());
    assert!(manager.menus[0].is_active && !manager.menus[2].is_active);
    assert!(matches!(manager.process_action(MenuAction::SaveGame), Some(MenuAction::SaveGame)));
    assert!(matches!(
        manager.process_action(MenuAction::Custom("x".to_string())),
        Some(MenuAction::Custom(name)) if name == "x"
    ));
    manager.get_current_menu_mut().selected_index = 3;
    assert_eq!(manager.get_current_menu().selected_index, 3);
}

#[test]
fn keys_in_the_menus() {
    let mut manager = MenuManager::new();
    assert!(manager.handle_key_event(press(Key::Down)).is_none());
    assert_eq!(manager.get_current_menu().selected_index, 1);
    assert!(matches!(manager.handle_key_event(press(Key::Enter)), Some(MenuAction::LoadGame)));
    assert!(manager.handle_key_event(press(Key::Up)).is_none());
    assert!(manager.handle_key_event(press(Key::Up)).is_none());
    assert_eq!(manager.get_current_menu().selected_index, 4);
    assert!(matches!(manager.handle_key_event(press(Key::Char('s'))), Some(MenuAction::SubMenu(MenuType::Settings))));
    assert_eq!(manager.get_current_menu().selected_index, 2);
    assert!(manager.handle_key_event(press(Key::Char('?'))).is_none());
    assert!(manager.handle_key_event(press(Key::Left)).is_none());
    assert!(matches!(manager.handle_key_event(press(Key::Esc)), Some(MenuAction::Quit)));
    manager.navigate_to_menu(MenuType::NewGame);
    assert!(manager.handle_key_event(press(Key::Esc)).is_none());
    assert!(manager.is_main_menu());
}

fn labels(dialog: &Dialog) -> Vec<&str> {
    dialog.buttons.iter().map(|b| b.as_str()).collect()
}

fn custom_result(result: &Option<DialogResult>) -> Option<&str> {
    match result {
        Some(DialogResult::Custom(text)) => Some(text.as_str()),
        _ => None,
    }
}

#[test]
fn dialogs_are_made_by_kind() {
    let d = Dialog::confirmation("Quit".to_string(), "Sure?".to_string());
    assert_eq!((d.dialog_type, d.title.as_str(), d.message.as_str()), (DialogType::Confirmation, "Quit", "Sure?"));
    assert_eq!(labels(&d), vec!["Yes", "No"]);
    assert!(!d.is_visible && d.selected_button == 0 && d.selected_option == 0);
    assert!(d.input_text.is_empty() && d.options.is_empty());
    assert_eq!(labels(&Dialog::information("t".to_string(), "m".to_string())), vec!["OK"]);
    assert_eq!(labels(&Dialog::error("t".to_string(), "m".to_string())), vec!["OK"]);
    assert_eq!(labels(&Dialog::warning("t".to_string(), "m".to_string())), vec!["OK", "Cancel"]);
    assert_eq!(labels(&Dialog::input("t".to_string(), "m".to_string())), vec!["OK", "Cancel"]);
    let s = Dialog::selection("t".to_string(), "m".to_string(), vec!["a".to_string(), "b".to_string()]);
    assert_eq!(labels(&s), vec!["OK", "Cancel"]);
    assert_eq!(s.options, vec!["a".to_string(), "b".to_string()]);
    assert_eq!(s.dialog_type, DialogType::Selection);
}

#[test]
fn dialog_heights() {
    assert_eq!(Dialog::input("t".to_string(), "m".to_string()).calculate_height(), 11);
    assert_eq!(Dialog::information("t".to_string(), "short".to_string()).calculate_height(), 8);
    assert_eq!(Dialog::information("t".to_string(), "x".repeat(49)).calculate_height(), 8);
    assert_eq!(Dialog::information("t".to_string(), "x".repeat(50)).calculate_height(), 9);
    assert_eq!(Dialog::warning("t".to_string(), "x".repeat(599)).calculate_height(), 19);
    assert_eq!(Dialog::warning("t".to_string(), "x".repeat(600)).calculate_height(), 20);
    assert_eq!(Dialog::error("t".to_string(), "x".repeat(100000)).calculate_height(), 20);
    let options = |n: usize| (0..n).map(|i| i.to_string()).collect::<Vec<String>>();
    assert_eq!(Dialog::selection("t".to_string(), "m".to_string(), options(0)).calculate_height(), 9);
    assert_eq!(Dialog::selection("t".to_string(), "m".to_string(), options(7)).calculate_height(), 16);
    assert_eq!(Dialog::selection("t".to_string(), "m".to_string(), options(8)).calculate_height(), 16);
    assert_eq!(Dialog::selection("t".to_string(), "m".to_string(), options(500)).calculate_height(), 16);
}

#[test]
fn confirmation_is_answered() {
    let mut d = Dialog::confirmation("Quit".to_string(), "Sure?".to_string());
    // a hidden dialog takes no keys
    assert!(d.handle_key_event(press(Key::Enter)).is_none());
    assert!(d.handle_key_event(press(Key::Right)).is_none());
    assert_eq!(d.selected_button, 0);
    d.show();
    assert!(d.is_visible);
    assert!(d.handle_key_event(press(Key::Right)).is_none());
    assert_eq!(d.selected_button, 1);
    assert!(matches!(d.get_result(), DialogResult::No));
    assert!(d.handle_key_event(press(Key::Right)).is_none());
    assert_eq!(d.selected_button, 0);
    assert!(d.handle_key_event(press(Key::Left)).is_none());
    assert_eq!(d.selected_button, 1);
    // up and down do nothing to the buttons
    assert!(d.handle_key_event(press(Key::Up)).is_none());
    assert!(d.handle_key_event(press(Key::Down)).is_none());
    assert_eq!(d.selected_button, 1);
    assert!(d.handle_key_event(press(Key::Char('x'))).is_none());
    assert!(d.input_text.is_empty());
    assert!(matches!(d.handle_key_event(press(Key::Enter)), Some(DialogResult::No)));
    assert!(!d.is_visible);
    d.show();
    assert!(matches!(d.handle_key_event(press(Key::Esc)), Some(DialogResult::Cancel)));
    assert!(!d.is_visible);
    d.selected_button = 0;
    assert!(matches!(d.get_result(), DialogResult::Yes));
    d.selected_button = 2;
    assert!(matches!(d.get_result(), DialogResult::Cancel));
    d.show();
    d.close();
    assert!(!d.is_visible);
}

#[test]
fn other_dialogs_are_answered() {
    assert!(matches!(Dialog::information("t".to_string(), "m".to_string()).get_result(), DialogResult::Okay));
    assert!(matches!(Dialog::error("t".to_string(), "m".to_string()).get_result(), DialogResult::Okay));
    let mut w = Dialog::warning("t".to_string(), "m".to_string());
    assert!(matches!(w.get_result(), DialogResult::Okay));
    w.selected_button = 1;
    assert!(matches!(w.get_result(), DialogResult::Cancel));

    let mut input = Dialog::input("Name".to_string(), "Who?".to_string());
    input.show();
    for c in "Babe!".chars() {
        assert!(input.handle_key_event(press(Key::Char(c))).is_none());
    }
    assert_eq!(input.input_text, "Babe!");
    assert!(input.handle_key_event(press(Key::Backspace)).is_none());
    assert_eq!(input.input_text, "Babe");
    let answer = input.handle_key_event(press(Key::Enter));
    assert_eq!(custom_result(&answer), Some("Babe"));
    input.show();
    for _ in 0..6 {
        input.handle_key_event(press(Key::Backspace));
    }
    assert_eq!(input.input_text, "");
    input.handle_key_event(press(Key::Right));
    assert!(matches!(input.handle_key_event(press(Key::Enter)), Some(DialogResult::Cancel)));

    let mut pick = Dialog::selection(
        "Team".to_string(),
        "Which?".to_string(),
        vec!["a".to_string(), "b".to_string(), "c".to_string()],
    );
    pick.show();
    pick.handle_key_event(press(Key::Down));
    assert_eq!(pick.selected_option, 1);
    pick.handle_key_event(press(Key::Right));
    assert_eq!(pick.selected_option, 2);
    pick.handle_key_event(press(Key::Down));
    assert_eq!(pick.selected_option, 0);
    pick.handle_key_event(press(Key::Up));
    assert_eq!(pick.selected_option, 2);
    pick.handle_key_event(press(Key::Left));
    assert_eq!(pick.selected_option, 1);
    assert_eq!(pick.selected_button, 0);
    let answer = pick.handle_key_event(press(Key::Enter));
    assert_eq!(custom_result(&answer), Some("b"));
    pick.selected_option = 7;
    assert!(matches!(pick.get_result(), DialogResult::Cancel));
}

#[test]
fn the_dialog_on_screen() {
    let mut manager = DialogManager::new();
    assert!(!manager.has_dialog());
    assert!(manager.handle_key_event(press(Key::Enter)).is_none());
    manager.show_dialog(Dialog::confirmation("Quit".to_string(), "Sure?".to_string()));
    assert!(manager.has_dialog());
    assert!(manager.handle_key_event(press(Key::Right)).is_none());
    assert!(manager.has_dialog());
    assert_eq!(manager.current_dialog.as_ref().unwrap().selected_button, 1);
    assert!(matches!(manager.handle_key_event(press(Key::Enter)), Some(DialogResult::No)));
    assert!(!manager.has_dialog());
    assert!(manager.current_dialog.is_none());
    manager.show_dialog(Dialog::information("t".to_string(), "m".to_string()));
    manager.hide_dialog();
    assert!(!manager.has_dialog());
    manager.show_dialog(Dialog::information("t".to_string(), "m".to_string()));
    assert!(matches!(manager.handle_key_event(press(Key::Esc)), Some(DialogResult::Cancel)));
    assert!(!manager.has_dialog());
}

#[test]
fn the_settings() {
    let mut config = wild_pitch::config::GameConfig::default();
    assert!(config.validate().is_empty());
    assert_eq!(config.get_innings_per_game(), 9);
    assert!(config.has_designated_hitter());
    assert_eq!(config.get_difficulty_modifier(), 100);
    assert_eq!(config.get_simulation_delay_ms(), 1000);
    assert!(config.should_show_detailed_stats());
    assert!(config.has_weather_effects());
    assert!(config.has_ballpark_effects());
    assert!(config.has_momentum_effects());
    assert!(config.is_fatigue_enabled());
    assert!(config.has_realistic_injuries());
    assert!(config.should_auto_save());
    assert!(!config.is_quick_play());
    assert_eq!(config.audio_settings.sound_volume, 70);
    assert_eq!(config.audio_settings.music_volume, 50);
    assert_eq!(config.simulation_settings.random_seed, None);

    config.game_settings.innings_per_game = 0;
    config.audio_settings.music_volume = 101;
    assert_eq!(
        config.validate(),
        vec!["Innings per game must be at least 1", "Music volume must be between 0.0 and 1.0"]
    );
    config.audio_settings.sound_volume = 255;
    config.audio_settings.music_volume = 100;
    config.game_settings.innings_per_game = 1;
    assert_eq!(config.validate(), vec!["Sound volume must be between 0.0 and 1.0"]);

    let levels = [
        (wild_pitch::config::DifficultyLevel::Rookie, 120),
        (wild_pitch::config::DifficultyLevel::Pro, 100),
        (wild_pitch::config::DifficultyLevel::AllStar, 90),
        (wild_pitch::config::DifficultyLevel::HallOfFame, 80),
    ];
    for (level, modifier) in levels {
        config.game_settings.difficulty_level = level;
        assert_eq!(config.get_difficulty_modifier(), modifier);
    }
    let speeds = [
        (wild_pitch::config::SimulationSpeed::Slow, 2000),
        (wild_pitch::config::SimulationSpeed::Normal, 1000),
        (wild_pitch::config::SimulationSpeed::Fast, 500),
        (wild_pitch::config::SimulationSpeed::Instant, 0),
    ];
    for (speed, delay) in speeds {
        config.simulation_settings.simulation_speed = speed;
        assert_eq!(config.get_simulation_delay_ms(), delay);
    }
}

fn screen() -> Area {
    Area { x: 0, y: 0, width: 120, height: 40 }
}

fn marks(layout: &LayoutManager) -> Vec<bool> {
    layout.get_windows().iter().map(|w| w.is_active).collect()
}

#[test]
fn default_layout_has_the_four_main_windows() {
    let layout = create_default_layout(screen());
    assert_eq!(layout.size, screen());
    assert_eq!(layout.active_window, 0);
    let windows: Vec<(WindowType, &str, bool)> =
        layout.get_windows().iter().map(|w| (w.window_type, w.title.as_str(), w.is_active)).collect();
    assert_eq!(
        windows,
        vec![
            (WindowType::Ballpark, "Ballpark", true),
            (WindowType::PlayByPlay, "Play-by-Play", false),
            (WindowType::Scoreboard, "Scoreboard", false),
            (WindowType::LineupCards, "Lineup Cards", false),
        ]
    );
    let active = layout.get_active_window().expect("four windows");
    assert_eq!(active.window_type, WindowType::Ballpark);
}

#[test]
fn active_window_goes_round() {
    let mut layout = create_default_layout(screen());
    layout.next_window();
    assert_eq!(layout.active_window, 1);
    assert_eq!(marks(&layout), vec![false, true, false, false]);
    layout.next_window();
    layout.next_window();
    assert_eq!(layout.active_window, 3);
    assert_eq!(marks(&layout), vec![false, false, false, true]);
    layout.next_window();
    assert_eq!(layout.active_window, 0);
    assert_eq!(marks(&layout), vec![true, false, false, false]);
    layout.previous_window();
    assert_eq!(layout.active_window, 3);
    assert_eq!(marks(&layout), vec![false, false, false, true]);
    layout.previous_window();
    assert_eq!(layout.active_window, 2);
    assert_eq!(marks(&layout), vec![false, false, true, false]);
    assert_eq!(layout.get_active_window().unwrap().title, "Scoreboard");

    layout.set_active_window(1);
    assert_eq!(layout.active_window, 1);
    assert_eq!(marks(&layout), vec![false, true, false, false]);
    layout.set_active_window(4);
    assert_eq!(layout.active_window, 1);
    assert_eq!(marks(&layout), vec![false, true, false, false]);

    layout.update_size(Area { x: 0, y: 0, width: 80, height: 24 });
    assert_eq!(layout.size, Area { x: 0, y: 0, width: 80, height: 24 });
    assert_eq!(layout.active_window, 1);
    assert_eq!(marks(&layout), vec![false, true, false, false]);
}

#[test]
fn layout_without_windows() {
    let mut layout = LayoutManager::new(screen());
    assert!(layout.get_windows().is_empty());
    assert!(layout.get_active_window().is_none());
    layout.next_window();
    layout.previous_window();
    layout.set_active_window(0);
    assert_eq!(layout.active_window, 0);
    assert!(layout.get_windows().is_empty());
    layout.add_window(WindowType::BoxScore, "Box Score".to_string());
    assert_eq!(marks(&layout), vec![true]);
    layout.add_window(WindowType::Menu, "Menu".to_string());
    assert_eq!(marks(&layout), vec![true, false]);
    layout.next_window();
    layout.next_window();
    assert_eq!(layout.active_window, 0);
}

#[test]
fn windows_and_their_places() {
    assert_eq!(WindowType::Ballpark.pane(), Pane::UpperLeft);
    assert_eq!(WindowType::PlayByPlay.pane(), Pane::LowerLeft);
    assert_eq!(WindowType::Scoreboard.pane(), Pane::UpperRight);
    assert_eq!(WindowType::LineupCards.pane(), Pane::LowerRight);
    assert_eq!(WindowType::Menu.pane(), Pane::MenuBar);
    for other in [
        WindowType::BattingStats,
        WindowType::PitchingStats,
        WindowType::TeamStats,
        WindowType::BoxScore,
        WindowType::Scorecard,
        WindowType::Dialog,
    ] {
        assert_eq!(other.pane(), Pane::Content);
    }
    let window = WindowLayout::new(WindowType::Scorecard, "Scorecard".to_string());
    assert!(!window.is_active);
    let window = window.with_active(true);
    assert!(window.is_active);
    assert_eq!((window.window_type, window.title.as_str()), (WindowType::Scorecard, "Scorecard"));
    assert!(!window.with_active(false).is_active);
}

#[test]
fn backspace_takes_whole_characters() {
    let mut input = Dialog::input("Name".to_string(), "Who?".to_string());
    input.show();
    for c in "José ⚾".chars() {
        assert!(input.handle_key_event(press(Key::Char(c))).is_none());
    }
    assert_eq!(input.input_text, "José ⚾");
    input.handle_key_event(press(Key::Backspace));
    assert_eq!(input.input_text, "José ");
    input.handle_key_event(press(Key::Backspace));
    input.handle_key_event(press(Key::Backspace));
    assert_eq!(input.input_text, "Jos");
    for _ in 0..3 {
        input.handle_key_event(press(Key::Backspace));
    }
    assert_eq!(input.input_text, "");
    input.handle_key_event(press(Key::Backspace));
    assert_eq!(input.input_text, "");
}
