use doorways::catalog::{Game, ImageSource, Launcher};
use doorways::coordinator::ActivateDecision;
use doorways::status::{LaunchError, LaunchStatus, StatusStore};
use doorways::ui::{DisplayFilter, Doorways, HighlightKind, Key, Modifiers};

fn entry(id: &str, title: &str) -> Game {
    Game {
        id: id.to_string(),
        title: title.to_string(),
        image_path: None,
        image_src: ImageSource::Path(String::new()),
        installed: true,
        kids: None,
        hidden: Some(false),
        players: None,
        launch_url: None,
        install_directory: None,
        working_subdir_override: None,
        command: None,
        args: None,
        launcher: Launcher::Unknown,
    }
}

fn sample() -> Doorways {
    let mut d = Doorways::new();
    let mut kids_game = entry("k", "Kids Game");
    kids_game.kids = Some(true);
    let mut dad_game = entry("d", "Dad Game");
    dad_game.kids = Some(false);
    let unknown_game = entry("u", "Unknown Game");
    let mut hidden_game = entry("h", "Hidden Game");
    hidden_game.hidden = Some(true);
    let mut not_installed = entry("n", "Not Installed");
    not_installed.installed = false;
    d.games = vec![kids_game, dad_game, unknown_game, hidden_game, not_installed];
    d.update_filter(DisplayFilter::All);
    d
}

const NO_MODS: Modifiers = Modifiers { ctrl: false, shift: false };
const CTRL: Modifiers = Modifiers { ctrl: true, shift: false };

#[test]
fn filter_all_shows_installed_unhidden() {
    let d = sample();
    assert_eq!(*d.tiles(), vec![0, 1, 2]);
}

#[test]
fn filter_kids_dad_unknown() {
    let mut d = sample();
    d.update_filter(DisplayFilter::Kids);
    assert_eq!(*d.tiles(), vec![0]);
    d.update_filter(DisplayFilter::Dad);
    assert_eq!(*d.tiles(), vec![1]);
    d.update_filter(DisplayFilter::NotInterested);
    assert_eq!(*d.tiles(), vec![2]);
}

#[test]
fn filter_installed_variants() {
    let mut d = sample();
    d.display_installed = Some(false);
    d.update_filter(DisplayFilter::All);
    assert_eq!(*d.tiles(), vec![4]);
    d.display_installed = None;
    d.update_filter(DisplayFilter::All);
    assert_eq!(*d.tiles(), vec![0, 1, 2, 4]);
}

#[test]
fn edit_mode_keys_classify_the_selected_entry() {
    let mut d = sample();
    d.edit_mode = true;
    assert_eq!(d.key_down(2, Key::K, NO_MODS), None);
    assert_eq!(d.games[2].kids, Some(true));
    assert_eq!(d.key_down(2, Key::D, NO_MODS), None);
    assert_eq!(d.games[2].kids, Some(false));
    assert_eq!(d.key_down(2, Key::U, NO_MODS), None);
    assert_eq!(d.games[2].kids, None);
}

#[test]
fn ctrl_e_and_ctrl_f_toggle_modes() {
    let mut d = sample();
    assert_eq!(d.key_down(0, Key::E, CTRL), None);
    assert!(d.edit_mode);
    assert_eq!(d.key_down(0, Key::E, CTRL), None);
    assert!(!d.edit_mode);
    assert_eq!(d.key_down(0, Key::F, CTRL), None);
    assert!(d.allow_filter);
}

#[test]
fn ctrl_o_toggles_overlay_and_still_delegates() {
    let mut d = sample();
    assert!(d.show_overlay);
    assert_eq!(d.key_down(0, Key::O, CTRL), Some((Key::O, CTRL)));
    assert!(!d.show_overlay);
}

#[test]
fn locked_filter_delegates_keys() {
    let mut d = sample();
    assert!(!d.allow_filter);
    assert_eq!(d.key_down(0, Key::K, NO_MODS), Some((Key::K, NO_MODS)));
    assert_eq!(*d.tiles(), vec![0, 1, 2]);
}

#[test]
fn unlocked_filter_keys_switch_views() {
    let mut d = sample();
    d.allow_filter = true;
    assert_eq!(d.key_down(0, Key::K, NO_MODS), None);
    assert_eq!(d.display_filter, DisplayFilter::Kids);
    assert_eq!(*d.tiles(), vec![0]);
    assert_eq!(d.key_down(0, Key::A, NO_MODS), None);
    assert_eq!(*d.tiles(), vec![0, 1, 2]);
    let unhandled = Key::Other(17);
    assert_eq!(d.key_down(0, unhandled, NO_MODS), Some((unhandled, NO_MODS)));
}

#[test]
fn installed_key_cycles_and_shift_clears() {
    let mut d = sample();
    d.allow_filter = true;
    assert_eq!(d.display_installed, Some(true));
    assert_eq!(d.key_down(0, Key::I, NO_MODS), None);
    assert_eq!(d.display_installed, Some(false));
    assert_eq!(*d.tiles(), vec![4]);
    let shift = Modifiers { ctrl: false, shift: true };
    assert_eq!(d.key_down(0, Key::I, shift), None);
    assert_eq!(d.display_installed, None);
    assert_eq!(*d.tiles(), vec![0, 1, 2, 4]);
}

#[test]
fn window_title_shows_count_and_filters() {
    let mut d = sample();
    d.update_filter(DisplayFilter::Kids);
    assert_eq!(d.window_title(), "Doorways 1 (Filter: Kids[Installed]\u{1F512})");
    d.allow_filter = true;
    d.display_installed = None;
    d.update_filter(DisplayFilter::All);
    assert_eq!(d.window_title(), "Doorways 4 (Filter: All\u{1F511})");
}

#[test]
fn highlight_kind_follows_classification() {
    let d = sample();
    assert_eq!(d.highlight_kind(0), HighlightKind::Kids);
    assert_eq!(d.highlight_kind(1), HighlightKind::NotKids);
    assert_eq!(d.highlight_kind(2), HighlightKind::Unknown);
}

#[test]
fn act_records_missing_target() {
    let mut d = sample();
    d.update_filter(DisplayFilter::All);
    let mut store = StatusStore::new();
    let decision = d.act(0, &mut store, "/");
    assert!(matches!(decision, ActivateDecision::NoTarget));
    assert_eq!(
        store.get(0),
        Some(LaunchStatus::FailedToLaunch(LaunchError::MissingLaunchTarget))
    );
}
