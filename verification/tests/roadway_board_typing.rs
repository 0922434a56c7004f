use arcade_core::board;
use arcade_core::geometry::Position;
use arcade_core::roadway;
use arcade_core::typing;

#[test]
fn roadway_road_crash_edges() {
    let mut game = roadway::Game::new(800, 600);
    game.player.pos.x = 100;
    assert!(game.is_road_crash());
    game.player.pos.x = 101;
    assert!(!game.is_road_crash());
    game.player.pos.x = 600;
    assert!(game.is_road_crash());
    game.player.pos.x = 599;
    assert!(!game.is_road_crash());
}

#[test]
fn roadway_car_crash_on_corners() {
    let mut game = roadway::Game::new(800, 600);
    game.enemies.clear();
    game.player.pos = Position { x: 300, y: 300 };
    game.enemies.push(roadway::Enemy { pos: Position { x: 350, y: 250 } });
    // The enemy box (350..450, 250..350) holds the top-right corner (400, 300).
    assert!(game.is_car_crash());
    game.enemies[0].pos.x = 401;
    assert!(!game.is_car_crash());
    game.handle_car_crash();
    assert!(!game.is_game_over);
    game.enemies[0].pos.x = 350;
    game.handle_car_crash();
    assert!(game.is_game_over);
}

#[test]
fn roadway_road_crash_latches() {
    let mut game = roadway::Game::new(800, 600);
    game.player.pos.x = 50;
    game.handle_road_crash();
    assert!(game.is_game_over);
    game.player.pos.x = 400;
    game.handle_road_crash();
    assert!(game.is_game_over);
}

#[test]
fn roadway_spawn_cadence_and_motion() {
    let mut game = roadway::Game::new(800, 600);
    assert_eq!(game.enemies.len(), 1);
    for _ in 0..roadway::ADD_ENEMY_EVERY {
        game.add_enemy_conditional();
    }
    assert_eq!(game.enemies.len(), 2);
    let x = game.enemies[1].pos.x;
    assert!(roadway::ROAD_BORDE <= x && x < 800 - roadway::ROAD_BORDE - roadway::CAR_SIZE);
    let y0 = game.enemies[0].pos.y;
    game.mov_enemies();
    assert_eq!(game.enemies[0].pos.y, y0 + roadway::ENEMY_SPEED);
}

#[test]
fn roadway_road_scrolls() {
    let mut r = roadway::Road::new(600);
    r.mov();
    assert_eq!(r.y2, 5);
    assert_eq!(r.y1, -595);
    r.y2 = 600;
    r.mov();
    assert_eq!(r.y2, 0);
    assert_eq!(r.y1, -600);
}

#[test]
fn board_parses_dots() {
    let lines: Vec<Vec<u8>> = vec![b"..x".to_vec(), b"x.".to_vec()];
    let positions = board::init_obstacles(&lines);
    let got: Vec<(i32, i32)> = positions.iter().map(|p| (p.x, p.y)).collect();
    assert_eq!(got, vec![(0, 0), (1, 0), (1, 1)]);
}

#[test]
fn board_parses_empty_board() {
    let lines: Vec<Vec<u8>> = vec![];
    assert_eq!(board::init_obstacles(&lines).len(), 0);
    let blank: Vec<Vec<u8>> = vec![b"xxx".to_vec()];
    assert_eq!(board::init_obstacles(&blank).len(), 0);
}

#[test]
fn board_ball_bounces_vertically() {
    // An obstacle on the ball's own column and row triggers the
    // vertical flip before the step.
    let obstacles = vec![Position { x: 5, y: 1 }];
    let mut game = board::Game::new(obstacles);
    assert_eq!((game.ball_direction.x, game.ball_direction.y), (1, 1));
    game.mov();
    assert_eq!((game.ball_direction.x, game.ball_direction.y), (1, -1));
    assert_eq!((game.ball.x, game.ball.y), (6, 0));
}

#[test]
fn board_ball_moves_freely_without_contact() {
    let mut game = board::Game::new(vec![]);
    game.mov();
    assert_eq!((game.ball.x, game.ball.y), (6, 2));
    assert_eq!((game.ball_direction.x, game.ball_direction.y), (1, 1));
}

#[test]
fn board_ball_bounces_horizontally() {
    // An obstacle one cell to the right of the ball, on the same scaled
    // row line, triggers the horizontal flip.
    let obstacles = vec![Position { x: 6, y: 1 }];
    let mut game = board::Game::new(obstacles);
    assert!(game.is_crash_right());
    assert!(game.is_crash_left());
    assert!(!game.is_crash_up());
    game.mov();
    assert_eq!((game.ball_direction.x, game.ball_direction.y), (-1, 1));
    assert_eq!((game.ball.x, game.ball.y), (4, 2));
}

#[test]
fn typing_kill_first_matching_word() {
    let mut game = typing::Game::new(800);
    game.texts.push(typing::Text { pos: Position { x: 100, y: 100 }, word: 1 });
    game.texts.push(typing::Text { pos: Position { x: 200, y: 100 }, word: 0 });
    game.texts.push(typing::Text { pos: Position { x: 300, y: 100 }, word: 0 });

    for c in ['h', 'e', 'l', 'l'] {
        game.add_character(c);
        assert_eq!(game.texts.len(), 3);
    }
    game.add_character('o');
    // "hello" kills the first word-0 text and clears the buffer.
    assert_eq!(game.texts.len(), 2);
    assert_eq!(game.texts[0].word, 1);
    assert_eq!(game.texts[1].pos.x, 300);
    assert_eq!(game.current_text.len(), 0);
}

#[test]
fn typing_no_match_keeps_buffer() {
    let mut game = typing::Game::new(800);
    game.texts.push(typing::Text { pos: Position { x: 100, y: 100 }, word: 3 });
    game.add_character('g');
    game.add_character('o');
    assert_eq!(game.current_text, vec!['g', 'o']);
    assert_eq!(game.texts.len(), 1);
    game.add_character('d');
    assert_eq!(game.texts.len(), 0);
    assert_eq!(game.current_text.len(), 0);
}

#[test]
fn typing_reset_clears_buffer() {
    let mut game = typing::Game::new(800);
    game.add_character('z');
    assert_eq!(game.current_text, vec!['z']);
    game.reset();
    assert_eq!(game.current_text.len(), 0);
}

#[test]
fn typing_words_fall_and_spawn_on_cadence() {
    let mut game = typing::Game::new(800);
    game.texts.push(typing::Text { pos: Position { x: 100, y: 100 }, word: 2 });
    game.mov();
    assert_eq!(game.texts[0].pos.y, 110);
    assert_eq!(game.texts.len(), 1);
    game.mov();
    assert_eq!(game.texts.len(), 1);
    game.mov();
    // The third update crosses the cadence and adds a word.
    assert_eq!(game.texts.len(), 2);
    let added = &game.texts[1];
    assert!(100 <= added.pos.x && added.pos.x < 800 / 2 - 100);
    assert_eq!(added.pos.y, 100);
    assert!(added.word < typing::WORD_COUNT);
}

#[test]
fn typing_word_list() {
    assert_eq!(typing::word_chars(0), vec!['h', 'e', 'l', 'l', 'o']);
    assert_eq!(typing::word_chars(3), vec!['g', 'o', 'd']);
    let w = typing::Game::random_word();
    assert!(w.len() >= 3);
}

#[test]
fn roadway_latch_stops_updates() {
    let mut game = roadway::Game::new(800, 600);
    game.is_game_over = true;
    let enemies_before = game.enemies.len();
    let road_before = game.road.y2;
    game.mov();
    assert!(game.is_game_over);
    assert_eq!(game.enemies.len(), enemies_before);
    assert_eq!(game.road.y2, road_before);
}

#[test]
fn roadway_tick_advances_everything() {
    let mut game = roadway::Game::new(800, 600);
    let y0 = game.enemies[0].pos.y;
    game.mov();
    assert!(!game.is_game_over);
    assert_eq!(game.enemies[0].pos.y, y0 + roadway::ENEMY_SPEED);
    assert_eq!(game.road.y2, roadway::ROAD_SPEED);
    assert_eq!(game.last_enemy, 1);
}
