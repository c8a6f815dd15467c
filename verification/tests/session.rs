use falling_blocks::gameplay::game_manager::{GameManager, GameState, MenuKeys, PlayStyle, TitleChoice};
use falling_blocks::gameplay::game_renderer_sender::GameRendererSender;
use falling_blocks::gameplay::gameplay_manager::PlayerType;
use falling_blocks::gameplay::key_input::{KeyCode, KeyInput};
use std::sync::{Arc, Mutex};
use std::time::Duration;

/// A keyboard that plays back a script: one list of keys per poll.
struct Script {
    frames: Arc<Mutex<Vec<Vec<KeyCode>>>>,
    now: Vec<KeyCode>,
}

impl KeyInput for Script {
    fn poll_input(&mut self) -> Result<(), std::io::Error> {
        let mut frames = self.frames.lock().unwrap();
        self.now = if frames.is_empty() { vec![] } else { frames.remove(0) };
        Ok(())
    }
    fn is_press(&self, key: &KeyCode) -> bool {
        self.now.contains(key)
    }
    fn is_down(&self, key: &KeyCode) -> bool {
        self.now.contains(key)
    }
    fn is_up(&self, _key: &KeyCode) -> bool {
        false
    }
    fn calc_elapsed(&self, _key: &KeyCode) -> Duration {
        Duration::from_secs(0)
    }
}

struct Counter {
    frames: Arc<Mutex<Vec<usize>>>,
}

impl GameRendererSender for Counter {
    fn game_sender(&self, game: &GameManager) {
        self.frames.lock().unwrap().push(game.gameplay_managers.len());
    }
}

fn session(frames: Vec<Vec<KeyCode>>) -> GameManager {
    GameManager::new(Box::new(Script { frames: Arc::new(Mutex::new(frames)), now: vec![] }))
}

fn keys(up: bool, down: bool, left: bool, right: bool, decide: bool) -> MenuKeys {
    MenuKeys { up, down, left, right, decide }
}

#[test]
fn a_new_session_is_at_the_title() {
    let game = session(vec![]);
    assert!(*game.get_state() == GameState::Title);
    assert!(*game.get_title_choice_command() == TitleChoice::Play);
    assert!(*game.get_play_style() == PlayStyle::Solo);
    assert_eq!(game.get_high_score(), 0);
    assert!(!game.get_high_score_updated());
    assert!(game.gameplay_managers.is_empty());
}

#[test]
fn the_menu_steps_through_the_styles() {
    let mut game = session(vec![]);
    assert!(game.title_step(keys(false, false, false, true, false)));
    assert!(*game.get_play_style() == PlayStyle::WithNPC(1));
    assert!(game.title_step(keys(false, false, false, true, false)));
    assert!(*game.get_play_style() == PlayStyle::VSPlayer);
    assert!(game.title_step(keys(false, false, false, true, false)));
    assert!(*game.get_play_style() == PlayStyle::Solo);
    assert!(game.title_step(keys(false, false, true, false, false)));
    assert!(*game.get_play_style() == PlayStyle::VSPlayer);
    assert!(game.title_step(keys(false, false, true, false, false)));
    assert!(*game.get_play_style() == PlayStyle::WithNPC(1));
    assert!(game.title_step(keys(false, false, true, false, false)));
    assert!(*game.get_play_style() == PlayStyle::Solo);
    // Right and left in one frame cancel out.
    assert!(game.title_step(keys(false, false, true, true, false)));
    assert!(*game.get_play_style() == PlayStyle::Solo);
    // With "exit" selected the styles do not move.
    assert!(game.title_step(keys(true, false, false, true, false)));
    assert!(*game.get_title_choice_command() == TitleChoice::Exit);
    assert!(*game.get_play_style() == PlayStyle::Solo);
    assert!(game.title_step(keys(false, false, false, true, false)));
    assert!(*game.get_play_style() == PlayStyle::Solo);
    assert!(game.title_step(keys(false, true, false, false, false)));
    assert!(*game.get_title_choice_command() == TitleChoice::Play);
    assert!(game.title_step(keys(true, true, false, false, false)));
    assert!(*game.get_title_choice_command() == TitleChoice::Exit);
    assert!(*game.get_state() == GameState::Title);
    assert!(!game.title_step(keys(false, false, false, false, true)));
    assert!(*game.get_state() == GameState::Title);
    assert!(game.gameplay_managers.is_empty());
}

#[test]
fn deciding_starts_the_games_of_the_style() {
    let mut solo = session(vec![]);
    assert!(solo.title_step(keys(false, false, false, false, true)));
    assert!(*solo.get_state() == GameState::Playing);
    assert_eq!(solo.gameplay_managers.len(), 1);

    let mut with_npc = session(vec![]);
    assert!(with_npc.title_step(keys(false, false, false, true, true)));
    assert!(*with_npc.get_play_style() == PlayStyle::WithNPC(1));
    assert_eq!(with_npc.gameplay_managers.len(), 2);

    let mut versus = session(vec![]);
    assert!(versus.title_step(keys(false, false, true, false, true)));
    assert!(*versus.get_play_style() == PlayStyle::VSPlayer);
    assert_eq!(versus.gameplay_managers.len(), 2);
    assert_eq!(versus.gameplay_managers[0].get_stats().level, 1);

    let mut made = session(vec![]);
    made.create_player(PlayerType::Player1);
    made.create_player(PlayerType::Player2);
    made.create_npc();
    assert_eq!(made.gameplay_managers.len(), 3);
    assert!(*made.get_state() == GameState::Title);
}

#[test]
fn attacks_go_to_everybody_else() {
    let mut game = session(vec![]);
    game.create_npc();
    game.create_npc();
    game.create_npc();
    // Nothing was earned: nothing is handed on.
    game.exchange_attacks();
    for g in game.gameplay_managers.iter_mut() {
        assert_eq!(g.pop_attack_power(), 0);
    }
    // Game 0 earns two lines, game 2 earns one.
    game.gameplay_managers[0].count_lines(2, 200, 2, 0);
    game.gameplay_managers[2].count_lines(1, 100, 1, 0);
    game.exchange_attacks();
    let mut garbage = Vec::new();
    for g in game.gameplay_managers.iter_mut() {
        assert_eq!(g.pop_attack_power(), 0);
        // Through the pauses to the round in which the garbage arrives.
        for now in [500u128, 1000, 1000] {
            g.update_at(now, &Script { frames: Arc::new(Mutex::new(vec![])), now: vec![] });
        }
        let rows = g
            .get_field_data()
            .iter()
            .filter(|row| row.iter().any(|c| *c == falling_blocks::gameplay::block::block_datas::BlockType::Attacked))
            .count();
        garbage.push(rows);
    }
    assert_eq!(garbage, vec![1, 3, 2]);
}

#[test]
fn a_session_from_title_to_game() {
    let shown = Arc::new(Mutex::new(Vec::new()));
    let renderer = Counter { frames: shown.clone() };
    let mut game = session(vec![
        vec![KeyCode::Right],
        vec![KeyCode::Enter],
        vec![],
        vec![KeyCode::Esc],
    ]);
    assert!(game.update(&renderer));
    assert!(*game.get_play_style() == PlayStyle::WithNPC(1));
    assert!(game.update(&renderer));
    assert!(*game.get_state() == GameState::Playing);
    assert!(game.update(&renderer));
    assert!(*game.get_state() == GameState::Playing);
    // The first player's pause key.
    assert!(game.update(&renderer));
    assert!(*game.get_state() == GameState::Paused);
    assert!(game.update(&renderer));
    assert!(*game.get_state() == GameState::Paused);
    assert_eq!(*shown.lock().unwrap(), vec![0, 2, 2, 2, 2]);
    assert_eq!(game.get_high_score(), 0);
}

#[test]
fn leaving_from_the_title() {
    let shown = Arc::new(Mutex::new(Vec::new()));
    let renderer = Counter { frames: shown.clone() };
    let mut game = session(vec![vec![KeyCode::Down], vec![KeyCode::Enter]]);
    assert!(game.update(&renderer));
    assert!(*game.get_title_choice_command() == TitleChoice::Exit);
    assert!(!game.update(&renderer));
    // The frame that ends the session is not shown.
    assert_eq!(shown.lock().unwrap().len(), 1);
}

#[test]
fn the_best_score_is_kept() {
    let mut game = session(vec![]);
    game.create_player(PlayerType::Player1);
    game.create_npc();
    game.gameplay_managers[0].count_lines(3, 900, 3, 0);
    game.gameplay_managers[1].count_lines(3, 5000, 3, 0);
    // The computer's score is not shown.
    assert_eq!(game.best_shown_score(), 900);
    assert_eq!(session(vec![]).best_shown_score(), 0);
}

#[test]
fn the_highest_of_some_scores() {
    assert_eq!(GameManager::highest_score(&vec![]), 0);
    assert_eq!(GameManager::highest_score(&vec![0, 0]), 0);
    assert_eq!(GameManager::highest_score(&vec![3, 9, 4]), 9);
    assert_eq!(GameManager::highest_score(&vec![u64::MAX, 1]), u64::MAX);
    let mut game = session(vec![]);
    game.create_player(PlayerType::Player1);
    game.create_player(PlayerType::Player2);
    game.gameplay_managers[0].count_lines(1, 100, 1, 0);
    game.gameplay_managers[1].count_lines(1, 300, 1, 0);
    assert_eq!(game.best_shown_score(), 300);
}

#[test]
fn a_pause_ends_when_a_controller_asks() {
    let shown = Arc::new(Mutex::new(Vec::new()));
    let renderer = Counter { frames: shown.clone() };
    let mut game = session(vec![vec![KeyCode::Enter], vec![KeyCode::Esc], vec![], vec![KeyCode::Esc]]);
    assert!(game.update(&renderer));
    assert!(game.update(&renderer));
    assert!(*game.get_state() == GameState::Paused);
    assert!(game.update(&renderer));
    assert!(*game.get_state() == GameState::Paused);
    game.pause_step();
    assert!(*game.get_state() == GameState::Paused);
    game.resume_if(false);
    assert!(*game.get_state() == GameState::Paused);
    assert!(game.update(&renderer));
    assert!(*game.get_state() == GameState::Playing);
    assert_eq!(game.gameplay_managers.len(), 1);

    let mut other = session(vec![vec![KeyCode::Enter], vec![KeyCode::Esc]]);
    assert!(other.update(&renderer));
    assert!(other.update(&renderer));
    assert!(*other.get_state() == GameState::Paused);
    other.resume_if(true);
    assert!(*other.get_state() == GameState::Playing);
}
