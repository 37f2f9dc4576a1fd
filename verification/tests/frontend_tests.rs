use yarge_core::frontend::config::{
    Configuration, DataDir, FramerateLimit, Palette, Rgba, UiTheme, URStorage, WindowScale,
};
use yarge_core::frontend::menu::{
    entry_label, menu_path, Menu, MenuAction, MenuEffect, MenuKey, MenuLocation,
};
use yarge_core::frontend::saves::SaveManager;

#[test]
fn palettes() {
    assert_eq!(Palette::default().get_name(), "Grayscale");
    assert_eq!(Palette::GrayscaleDark.get_name(), "Grayscale (Dark)");
    assert_eq!(Palette::Green.get_map(), [0x00e0f8d0, 0x0088c070, 0x00346856, 0x00081820]);
    assert_eq!(Palette::Custom([1, 2, 3, 4]).get_map(), [1, 2, 3, 4]);
    assert_eq!(Palette::Custom([1, 2, 3, 4]).get_name(), "Custom");
    assert!(Palette::GrayscaleDark.is_dark());
    assert!(!Palette::Grayscale.is_dark());
}

#[test]
fn window_scale_and_theme() {
    assert_eq!(WindowScale::default().scale_or_default(), 2);
    assert_eq!(WindowScale::Scale(5).scale_or_default(), 5);
    assert_eq!(WindowScale::Fullscreen.scale_or_default(), 2);
    assert_eq!(UiTheme::default().resolve(), UiTheme::Light);
    assert_eq!(UiTheme::Dark.resolve(), UiTheme::Dark);
    let c = UiTheme::Dark.colors();
    assert_eq!(c.background, Rgba { r: 0x1e, g: 0x1e, b: 0x1e, a: 255 });
    assert_eq!(UiTheme::Light.colors().caret.a, 127);
    assert_eq!(FramerateLimit::default(), FramerateLimit::VSync);
}

#[test]
fn configuration_defaults_and_speed() {
    let c = Configuration::default();
    assert!(c.closed_properly);
    assert_eq!(c.default_speed, 1);
    assert_eq!(c.save_slot, 0);
    assert!(c.last_rom.is_none());
    let mut s = URStorage::default();
    assert_eq!(s.speed, 1);
    let c = Configuration { default_speed: 4, ..Configuration::default() };
    s.configure(&c);
    assert_eq!(s.speed, 4);
    assert_eq!(DataDir::dir_name(), ".yarge-sdl-data");
}

#[test]
fn menu_names() {
    assert_eq!(MenuLocation::Main.friendly_name(), "Main menu");
    assert_eq!(MenuLocation::SaveSlotConfirm(3).friendly_name(), "Confirm restart");
    let fe = MenuLocation::FileExplorer { path: String::from("."), items: vec![] };
    assert_eq!(fe.friendly_name(), "File explorer");
}

#[test]
fn save_file_names() {
    assert_eq!(SaveManager::file_name("Pokemon Red!", 3), "SAVE3_POKEMON__RED__.sav");
    assert_eq!(SaveManager::file_name("tetris", 0), "SAVE0_TETRIS.sav");
    assert_eq!(SaveManager::file_name("a.b", 123), "SAVE123_A__B.sav");
    assert_eq!(SaveManager::file_name("", 45), "SAVE45_.sav");
}

#[test]
fn menu_path_abbreviates() {
    assert_eq!(menu_path(&vec![MenuLocation::Main]), "Main menu");
    let stack = vec![MenuLocation::Main, MenuLocation::Options, MenuLocation::PalettePicker];
    assert_eq!(menu_path(&stack), "Mm>Op>Color palette");
    let stack = vec![
        MenuLocation::Main,
        MenuLocation::SaveSlotPicker,
        MenuLocation::SaveSlotConfirm(1),
    ];
    assert_eq!(menu_path(&stack), "Mm>Ss>Confirm restart");
    let stack = vec![MenuLocation::Main, MenuLocation::Options, MenuLocation::ScalePicker];
    assert_eq!(Menu { menu_stack: stack, ..Menu::new() }.path(), "Mm>Op>Display scale");
}

#[test]
fn menu_opens_and_navigates() {
    let mut m = Menu::new();
    assert!(!m.is_visible(false));
    m.process_evt(MenuKey::Escape, false, false);
    assert!(!m.is_active());
    m.has_game = true;
    m.process_evt(MenuKey::Escape, false, false);
    assert!(m.is_active());
    assert!(m.schedule_save);
    assert!(m.take_scheduled_save());
    assert!(!m.schedule_save);
    m.process_evt(MenuKey::Down, true, false);
    m.process_evt(MenuKey::Down, false, false);
    assert_eq!(m.cursor, 2);
    m.process_evt(MenuKey::Up, false, false);
    assert_eq!(m.cursor, 1);
    m.process_evt(MenuKey::Return, true, false);
    assert!(!m.clicked);
    m.process_evt(MenuKey::Return, false, false);
    assert!(m.clicked);
    m.menu_goto(MenuLocation::Options);
    assert_eq!(m.cursor, 0);
    assert!(!m.clicked);
    assert_eq!(m.menu_stack.len(), 2);
    m.menu_go_back();
    assert_eq!(m.menu_stack.len(), 1);
    m.cursor = -1;
    m.limit_cursor(8);
    assert_eq!(m.cursor, 7);
    m.cursor = 8;
    m.limit_cursor(8);
    assert_eq!(m.cursor, 0);
}

#[test]
fn menu_reopens_at_main_when_hidden() {
    let mut m = Menu::new();
    m.set_activated_state(true, false);
    m.menu_goto(MenuLocation::Options);
    m.set_activated_state(false, false);
    // Still animating: the place is kept.
    m.set_activated_state(true, true);
    assert_eq!(m.menu_stack.len(), 2);
    m.set_activated_state(false, false);
    m.set_activated_state(true, false);
    assert_eq!(m.menu_stack.len(), 1);
    assert!(matches!(m.menu_stack[0], MenuLocation::Main));
    m.closed_improperly(false);
    assert_eq!(m.cursor, 1);
    assert!(matches!(m.menu_stack[1], MenuLocation::ClosedImproperly));
}

#[test]
fn menu_entries() {
    let config = Configuration::default();
    let m = Menu::new();
    let e = m.entries(&config, false, false);
    assert_eq!(e.len(), 5);
    assert!(matches!(e[0], MenuAction::LoadRom));
    assert!(matches!(e[4], MenuAction::Exit));
    let with_rom = Configuration { last_rom: Some(String::from("/roms/t.gb")), ..Configuration::default() };
    let e = m.entries(&with_rom, false, false);
    assert!(matches!(e[0], MenuAction::ResumeLast));
    let mut m = Menu::new();
    m.has_game = true;
    assert_eq!(m.entries(&config, false, false).len(), 8);
    m.menu_goto(MenuLocation::ScalePicker);
    let e = m.entries(&config, false, false);
    assert_eq!(e.len(), 10);
    assert!(matches!(e[0], MenuAction::Back));
    assert!(matches!(e[2], MenuAction::ToggleDpiScalingFrac));
    m.menu_go_back();
    m.menu_goto(MenuLocation::FileExplorer {
        path: String::from("/roms"),
        items: vec![String::from("/roms/a.gb"), String::from("/roms/b.gb")],
    });
    let e = m.entries(&config, true, false);
    assert_eq!(e.len(), 5);
    assert!(matches!(e[4], MenuAction::ExplorerOpen(1)));
    m.menu_go_back();
    m.menu_goto(MenuLocation::ClosedImproperly);
    assert_eq!(m.entries(&config, false, true).len(), 6);
    assert_eq!(m.entries(&config, false, false).len(), 4);
}

#[test]
fn menu_clicks() {
    let mut config = Configuration::default();
    let mut m = Menu::new();
    m.has_game = true;
    m.set_activated_state(true, false);
    let fx = m.click(MenuAction::OpenSaveSlot, &mut config, None, false);
    assert!(fx.is_empty());
    let fx = m.click(MenuAction::PickSaveSlot(0), &mut config, None, false);
    assert!(fx.is_empty());
    assert_eq!(m.menu_stack.len(), 2);
    m.click(MenuAction::PickSaveSlot(2), &mut config, None, false);
    assert!(matches!(m.menu_stack[2], MenuLocation::SaveSlotConfirm(2)));
    assert_eq!(m.cursor, 1);
    let fx = m.click(MenuAction::ConfirmSaveSlot(2), &mut config, None, false);
    assert_eq!(config.save_slot, 2);
    assert!(!m.is_active());
    assert!(!m.has_game);
    assert!(matches!(fx[0], MenuEffect::SaveGame(0)));
    assert!(matches!(fx[1], MenuEffect::SaveConfig));
    assert!(matches!(fx[2], MenuEffect::ResetGameboy));
    assert!(matches!(fx[3], MenuEffect::SaveGame(2)));
    let fx = m.click(MenuAction::SetSpeed(4), &mut config, None, false);
    assert_eq!(config.default_speed, 4);
    assert!(matches!(fx[0], MenuEffect::SaveConfig));
    let fx = m.click(MenuAction::SetScale(WindowScale::Fullscreen), &mut config, None, false);
    assert!(matches!(fx[1], MenuEffect::ApplyScale(WindowScale::Fullscreen)));
    let fx = m.click(MenuAction::LoadRom, &mut config, None, false);
    assert!(matches!(fx[0], MenuEffect::ReadHomeDir));
    let fx = m.click(MenuAction::ExplorerParent, &mut config, Some(String::from("/home")), false);
    assert_eq!(config.last_path.as_deref(), Some("/home"));
    assert!(matches!(&fx[0], MenuEffect::ReadDir(p) if p == "/home"));
    m.set_activated_state(true, false);
    let fx = m.finish_open(String::from("/home/t.gb"), true, &mut config, false);
    assert!(matches!(&fx[0], MenuEffect::LoadFile(p) if p == "/home/t.gb"));
    assert_eq!(config.last_rom.as_deref(), Some("/home/t.gb"));
    assert!(!m.is_active());
}

#[test]
fn menu_labels() {
    let config = Configuration::default();
    assert_eq!(entry_label(MenuAction::SetSpeed(1), &config, false, ""), "> 1x");
    assert_eq!(entry_label(MenuAction::SetSpeed(10), &config, false, ""), "  10x");
    assert_eq!(entry_label(MenuAction::PickSaveSlot(0), &config, false, ""), "> Slot 1");
    assert_eq!(entry_label(MenuAction::PickSaveSlot(4), &config, false, ""), "  Slot 5");
    assert_eq!(entry_label(MenuAction::ToggleDpiScaling, &config, true, ""), "[X] HiDPI Scaling");
    assert_eq!(
        entry_label(MenuAction::ToggleDpiScalingFrac, &config, false, ""),
        "[ ] HiDPI Scaling: Allow fractional"
    );
    assert_eq!(
        entry_label(MenuAction::SetScale(WindowScale::Scale(2)), &config, false, ""),
        "> 2x (recommended)"
    );
    assert_eq!(entry_label(MenuAction::SetPalette(Palette::Green), &config, false, ""), "  Green");
    assert_eq!(entry_label(MenuAction::ResumeLast, &config, false, "t.gb"), "Resume t.gb");
    assert_eq!(entry_label(MenuAction::Notice(1), &config, true, ""), "close correcly");
    let m = Menu::new();
    let fx = m.selected(&vec![MenuAction::Exit]);
    assert!(fx.is_none());
}

#[test]
fn menu_notes_loaded_game() {
    let mut m = Menu::new();
    m.always_update("MBC1");
    assert!(m.has_game);
    m.always_update("N/A");
    assert!(!m.has_game);
    m.always_update("N/AB");
    assert!(m.has_game);
}

#[test]
fn menu_scroll_follows_cursor() {
    let mut m = Menu::new();
    m.scroll_to_cursor(Some(300), 100, 250);
    assert_eq!(m.scroll, 50);
    m.scroll_to_cursor(Some(90), 100, 250);
    assert_eq!(m.scroll, 22);
    m.scroll_to_cursor(Some(0), 100, 250);
    assert_eq!(m.scroll, 0);
    m.scroll = -5;
    m.scroll_to_cursor(None, 100, 250);
    assert_eq!(m.scroll, 0);
}

#[test]
fn menu_frame_end_consumes_click() {
    let mut m = Menu::new();
    m.set_activated_state(true, false);
    m.process_evt(MenuKey::Return, false, false);
    assert!(m.clicked);
    m.cursor = -1;
    m.end_frame(5, Some(300), 100, 250);
    assert!(!m.clicked);
    assert_eq!(m.cursor, 4);
    assert_eq!(m.scroll, 50);
    assert!(m.selected(&vec![MenuAction::Exit]).is_none());
}
