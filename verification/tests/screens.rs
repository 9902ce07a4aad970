use sprig_emu::events::Event;
use sprig_emu::games::{Game, GameConsole};
use sprig_emu::input::InputStatus;
use sprig_emu::screens::{carousel, Direction, GamesScreen, Selection, Settings, SettingsAction};

static PICTURE: [u8; 2] = [7, 9];

fn three_games() -> Vec<Game> {
    vec![
        Game::new_nes("one", &PICTURE),
        Game::new_gameboy_advanced("two", &PICTURE),
        Game::new_gameboy("three", &PICTURE),
    ]
}

/// The input after one poll that saw exactly the named buttons go down.
fn pressed(up: bool, down: bool, left: bool, right: bool, a: bool, b: bool) -> InputStatus {
    let mut input = InputStatus::default();
    input.update(up, down, left, right, a, b);
    input
}

fn titles(games: &[Game]) -> Vec<&'static str> {
    games.iter().map(|game| game.get_title()).collect()
}

#[test]
fn a_new_games_screen_rests_on_the_first_game() {
    let screen = GamesScreen::new(three_games());
    assert_eq!(screen.games.len(), 3);
    assert_eq!(screen.frame, 0);
    assert_eq!(screen.dir, Direction::Still);
    assert_eq!(screen.selected_game, 0);
    assert_eq!(screen.slide_offset(), 0);
}

#[test]
fn without_input_the_carousel_stays_at_rest() {
    let mut screen = GamesScreen::new(three_games());
    assert!(!screen.advance(&InputStatus::default()));
    assert_eq!(screen.frame, 0);
    assert_eq!(screen.dir, Direction::Still);
    assert!(!screen.advance(&pressed(true, true, false, false, true, true)));
    assert_eq!(screen.frame, 0);
}

#[test]
fn right_moves_the_carousel_through_four_frames() {
    let mut screen = GamesScreen::new(three_games());
    let right = pressed(false, false, false, true, false, false);
    let nothing = InputStatus::default();
    assert!(screen.advance(&right));
    assert_eq!((screen.frame, screen.dir, screen.slide_offset()), (1, Direction::Right, -26));
    assert!(screen.advance(&nothing));
    assert_eq!((screen.frame, screen.dir, screen.slide_offset()), (2, Direction::Right, -52));
    assert!(screen.advance(&nothing));
    assert_eq!((screen.frame, screen.dir, screen.slide_offset()), (3, Direction::Right, -78));
    assert!(screen.advance(&nothing));
    assert_eq!((screen.frame, screen.dir, screen.slide_offset()), (0, Direction::Right, 0));
    assert!(!screen.advance(&nothing));
    assert_eq!((screen.frame, screen.dir, screen.slide_offset()), (0, Direction::Still, 0));
    assert_eq!(screen.selected_game, 0);
}

#[test]
fn left_moves_the_carousel_the_other_way() {
    let mut screen = GamesScreen::new(three_games());
    screen.selected_game = 1;
    let left = pressed(false, false, true, false, false, false);
    assert!(screen.advance(&left));
    assert_eq!((screen.frame, screen.dir, screen.slide_offset()), (1, Direction::Left, 26));
    assert!(screen.advance(&left));
    assert_eq!((screen.frame, screen.dir, screen.slide_offset()), (2, Direction::Left, 52));
}

#[test]
fn left_goes_before_right() {
    let mut screen = GamesScreen::new(three_games());
    screen.selected_game = 1;
    let both = pressed(false, false, true, true, false, false);
    assert!(screen.advance(&both));
    assert_eq!(screen.dir, Direction::Left);

    let mut screen = GamesScreen::new(three_games());
    assert!(!screen.advance(&both));
    assert_eq!(screen.dir, Direction::Still);
}

#[test]
fn the_carousel_does_not_move_past_its_ends() {
    let mut screen = GamesScreen::new(three_games());
    assert!(!screen.advance(&pressed(false, false, true, false, false, false)));
    assert_eq!((screen.frame, screen.dir), (0, Direction::Still));
    screen.selected_game = 2;
    assert!(!screen.advance(&pressed(false, false, false, true, false, false)));
    assert_eq!((screen.frame, screen.dir), (0, Direction::Still));
    screen.selected_game = 1;
    assert!(screen.advance(&pressed(false, false, false, true, false, false)));
    assert_eq!((screen.frame, screen.dir), (1, Direction::Right));
}

#[test]
fn a_held_button_moves_once_until_it_repeats() {
    let mut screen = GamesScreen::new(three_games());
    let mut input = InputStatus::default();
    input.update(false, false, false, true, false, false);
    assert!(screen.advance(&input));
    for _ in 0..3 {
        input.update(false, false, false, true, false, false);
        assert!(screen.advance(&input));
    }
    assert_eq!(screen.frame, 0);
    input.update(false, false, false, true, false, false);
    assert!(!screen.advance(&input));
}

#[test]
fn the_selected_game_is_shown_between_its_neighbours() {
    let mut screen = GamesScreen::new(three_games());
    assert_eq!(titles(&screen.visible()), vec!["Placeholder", "one", "two"]);
    assert_eq!(*screen.visible()[0].get_console(), GameConsole::Placeholder);
    screen.selected_game = 1;
    assert_eq!(titles(&screen.visible()), vec!["one", "two", "three"]);
    screen.selected_game = 2;
    assert_eq!(titles(&screen.visible()), vec!["two", "three"]);

    let alone = GamesScreen::new(vec![Game::new_nes("only", &PICTURE)]);
    assert_eq!(titles(&alone.visible()), vec!["Placeholder", "only"]);
}

#[test]
fn the_carousel_counts_two_or_three_games() {
    let games = three_games();
    assert_eq!(titles(&carousel(&games, 0)), vec!["Placeholder", "one", "two"]);
    assert_eq!(titles(&carousel(&games, 1)), vec!["one", "two", "three"]);
    assert_eq!(titles(&carousel(&games, 2)), vec!["two", "three"]);
    let two = vec![Game::new_nes("a", &PICTURE), Game::new_gameboy("b", &PICTURE)];
    assert_eq!(titles(&carousel(&two, 0)), vec!["Placeholder", "a", "b"]);
    assert_eq!(titles(&carousel(&two, 1)), vec!["a", "b"]);
    let shown = carousel(&two, 1);
    assert_eq!(*shown[0].get_console(), GameConsole::NES);
    assert_eq!(shown[1].get_image(), &PICTURE);
}

#[test]
fn the_title_follows_the_movement() {
    let mut screen = GamesScreen::new(three_games());
    assert_eq!(screen.title_index(), 0);
    screen.dir = Direction::Right;
    assert_eq!(screen.title_index(), 2);
    screen.dir = Direction::Left;
    assert_eq!(screen.title_index(), 1);
    screen.selected_game = 1;
    assert_eq!(screen.title_index(), 2);
    screen.selected_game = 2;
    assert_eq!(screen.title_index(), 2);
    screen.dir = Direction::Still;
    assert_eq!(screen.title_index(), 2);
}

#[test]
fn new_settings_are_at_full_brightness() {
    let settings = Settings::new(three_games(), 2);
    assert!(settings.events.is_empty());
    assert_eq!(settings.games.len(), 3);
    assert_eq!(settings.selected_game, 2);
    assert_eq!(settings.brightness, 65_535);
    assert_eq!(settings.selection, Selection::Nothing);
}

#[test]
fn down_and_up_move_the_selection() {
    let mut settings = Settings::new(three_games(), 0);
    let down = pressed(false, true, false, false, false, false);
    let up = pressed(true, false, false, false, false, false);
    assert_eq!(
        settings.advance(&down),
        SettingsAction::Reselect { from: Selection::Nothing, to: Selection::Brightness }
    );
    assert_eq!(settings.selection, Selection::Brightness);
    assert_eq!(
        settings.advance(&up),
        SettingsAction::Reselect { from: Selection::Brightness, to: Selection::Nothing }
    );
    assert_eq!(settings.selection, Selection::Nothing);
    let both = pressed(true, true, false, false, false, false);
    assert_eq!(
        settings.advance(&both),
        SettingsAction::Reselect { from: Selection::Nothing, to: Selection::Nothing }
    );
    assert_eq!(settings.selection, Selection::Nothing);
    assert!(settings.events.is_empty());
    assert_eq!(settings.brightness, 65_535);
}

#[test]
fn left_and_right_change_the_selected_brightness() {
    let mut settings = Settings::new(three_games(), 0);
    settings.selection = Selection::Brightness;
    let left = pressed(false, false, true, false, false, false);
    let right = pressed(false, false, false, true, false, false);
    assert_eq!(settings.advance(&left), SettingsAction::Adjusted { lowered: true });
    assert_eq!(settings.brightness, 61_680);
    assert_eq!(settings.advance(&left), SettingsAction::Adjusted { lowered: true });
    assert_eq!(settings.brightness, 57_825);
    assert_eq!(settings.advance(&right), SettingsAction::Adjusted { lowered: false });
    assert_eq!(settings.brightness, 61_680);
    let both = pressed(false, false, true, true, false, false);
    assert_eq!(settings.advance(&both), SettingsAction::Adjusted { lowered: false });
    assert_eq!(settings.brightness, 65_535);
    assert_eq!(
        settings.events(),
        vec![
            Event::BacklightBrightness(61_680),
            Event::BacklightBrightness(57_825),
            Event::BacklightBrightness(61_680),
            Event::BacklightBrightness(65_535),
        ]
    );
    assert!(settings.events.is_empty());
    assert!(settings.events().is_empty());
    assert_eq!(settings.brightness, 65_535);
    assert_eq!(settings.selection, Selection::Brightness);
}

#[test]
fn the_brightness_stops_at_both_ends() {
    let mut settings = Settings::new(three_games(), 0);
    settings.selection = Selection::Brightness;
    let left = pressed(false, false, true, false, false, false);
    let right = pressed(false, false, false, true, false, false);
    assert_eq!(settings.advance(&right), SettingsAction::Adjusted { lowered: false });
    assert_eq!(settings.brightness, 65_535);
    for _ in 0..17 {
        assert_eq!(settings.advance(&left), SettingsAction::Adjusted { lowered: true });
    }
    assert_eq!(settings.brightness, 0);
    assert_eq!(settings.advance(&left), SettingsAction::Adjusted { lowered: true });
    assert_eq!(settings.brightness, 0);
    settings.brightness = 3854;
    assert_eq!(settings.advance(&left), SettingsAction::Adjusted { lowered: true });
    assert_eq!(settings.brightness, 0);
    settings.brightness = 61_681;
    assert_eq!(settings.advance(&right), SettingsAction::Adjusted { lowered: false });
    assert_eq!(settings.brightness, 65_535);
}

#[test]
fn with_nothing_selected_left_and_right_do_nothing() {
    let mut settings = Settings::new(three_games(), 0);
    let right = pressed(false, false, false, true, false, false);
    assert_eq!(settings.advance(&right), SettingsAction::Idle);
    assert_eq!(settings.advance(&InputStatus::default()), SettingsAction::Idle);
    assert_eq!(settings.advance(&pressed(false, false, false, false, true, false)), SettingsAction::Idle);
    assert_eq!(settings.brightness, 65_535);
    assert!(settings.events.is_empty());
}

#[test]
fn b_leaves_the_settings() {
    let mut settings = Settings::new(three_games(), 1);
    settings.selection = Selection::Brightness;
    assert_eq!(
        settings.advance(&pressed(false, false, true, false, false, true)),
        SettingsAction::Leave
    );
    assert_eq!(settings.brightness, 65_535);
    assert!(settings.events.is_empty());
    assert_eq!(settings.selection, Selection::Brightness);
    // the selection still moves in the poll that leaves
    assert_eq!(
        settings.advance(&pressed(false, true, false, false, false, true)),
        SettingsAction::Leave
    );
    assert_eq!(settings.selection, Selection::Nothing);
    assert_eq!(settings.selected_game, 1);
}
