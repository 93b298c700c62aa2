use rosin::app::{AppLauncher, LaunchError};
use rosin::menu::{menu_item_title, MenuItem, StandardAction};

#[derive(Default, Debug, PartialEq)]
struct Config(u8);

#[test]
fn new_launcher_has_one_window_and_default_config() {
    let l: AppLauncher<u32, &str, Config, ()> = AppLauncher::new("main");
    assert_eq!(l.windows(), &vec!["main"]);
    assert_eq!(*l.first_window(), "main");
    assert_eq!(l.wgpu_config(), &Config(0));
    assert!(l.state().is_none());
    assert!(l.translation_map().is_none());
}

#[test]
fn builders_keep_the_other_parts() {
    let l: AppLauncher<u32, &str, Config, ()> = AppLauncher::new("main").add_window("second").with_wgpu_config(Config(3)).add_window("third");
    assert_eq!(l.windows(), &vec!["main", "second", "third"]);
    assert_eq!(*l.first_window(), "main");
    assert_eq!(l.wgpu_config(), &Config(3));
}

#[test]
fn run_holds_state_and_translations() {
    let l: AppLauncher<u32, &str, Config, &str> = AppLauncher::new("main");
    let running = l.run(7, "en", true).unwrap();
    assert_eq!(running.state(), Some(&7));
    assert_eq!(running.translation_map(), Some(&"en"));
    assert_eq!(running.windows(), &vec!["main"]);
    let (windows, tm, config, state) = running.into_parts();
    assert_eq!((windows, tm, config, state), (vec!["main"], Some("en"), Config(0), Some(7)));
}

#[test]
fn second_launch_is_refused() {
    let l: AppLauncher<u32, &str, Config, &str> = AppLauncher::new("main");
    assert!(matches!(l.run(7, "en", false), Err(LaunchError::AlreadyStarted)));
}

#[test]
fn menu_titles_are_zero_terminated_utf16() {
    let action = MenuItem::Action { title: String::from("Öffnen") };
    assert_eq!(menu_item_title(&action), vec![0xD6, 0x66, 0x66, 0x6E, 0x65, 0x6E, 0]);
    let sub = MenuItem::Submenu { title: String::from("File") };
    assert_eq!(menu_item_title(&sub), vec![0x46, 0x69, 0x6C, 0x65, 0]);
    let copy = MenuItem::Standard(StandardAction::Copy);
    let mut expected: Vec<u16> = "menu.copy".encode_utf16().collect();
    expected.push(0);
    assert_eq!(menu_item_title(&copy), expected);
}
