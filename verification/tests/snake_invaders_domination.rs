use arcade_core::domination;
use arcade_core::invaders;
use arcade_core::snake;

#[test]
fn snake_growth_on_food() {
    // Head at (0, 0) moving with direction (1, 0), food at (1, 0): one
    // movement step grows the chain to length 2 — the food cell is the
    // new head, the vacated cell is kept — and the food is resampled
    // within the board bounds.
    let mut game = snake::Game::new();
    game.food = snake::Square::new(1, 0);
    game.mov();
    assert_eq!(game.snake.len(), 2);
    assert_eq!((game.snake[0].x, game.snake[0].y), (1, 0));
    assert_eq!((game.snake[1].x, game.snake[1].y), (0, 0));
    assert!(snake::FOOD_MIN <= game.food.x && game.food.x < snake::FOOD_MAX);
    assert!(snake::FOOD_MIN <= game.food.y && game.food.y < snake::FOOD_MAX);
}

#[test]
fn snake_eat_inserts_food_cell_ahead() {
    // The eating test looks one step ahead: the food cell becomes the
    // new head and the old head stays behind it.
    let mut game = snake::Game::new();
    game.food = snake::Square::new(1, 0);
    let eated = game.eat();
    assert!(eated);
    assert_eq!(game.snake.len(), 2);
    assert_eq!((game.snake[0].x, game.snake[0].y), (1, 0));
    assert_eq!((game.snake[1].x, game.snake[1].y), (0, 0));
    assert_eq!((game.dir_x, game.dir_y), (1, 0));

    // With the food elsewhere, eating does nothing.
    let mut still = snake::Game::new();
    assert!(!still.eat());
    assert_eq!(still.snake.len(), 1);
}

#[test]
fn snake_growth_keeps_longer_bodies_whole() {
    let mut game = snake::Game::new();
    game.snake = vec![
        snake::Square::new(3, 0),
        snake::Square::new(2, 0),
        snake::Square::new(1, 0),
    ];
    game.food = snake::Square::new(4, 0);
    game.mov();
    let cells: Vec<(i32, i32)> = game.snake.iter().map(|s| (s.x, s.y)).collect();
    assert_eq!(cells, vec![(4, 0), (3, 0), (2, 0), (1, 0)]);
}

#[test]
fn snake_step_without_food_keeps_length() {
    let mut game = snake::Game::new();
    game.mov();
    assert_eq!(game.snake.len(), 1);
    assert_eq!((game.snake[0].x, game.snake[0].y), (1, 0));
    assert_eq!((game.food.x, game.food.y), (5, 5));
}

#[test]
fn snake_body_follows_head() {
    let mut game = snake::Game::new();
    game.snake = vec![
        snake::Square::new(3, 0),
        snake::Square::new(2, 0),
        snake::Square::new(1, 0),
    ];
    game.move_snake();
    assert_eq!((game.snake[0].x, game.snake[0].y), (4, 0));
    assert_eq!((game.snake[1].x, game.snake[1].y), (3, 0));
    assert_eq!((game.snake[2].x, game.snake[2].y), (2, 0));
}

#[test]
fn snake_turns_change_direction() {
    let mut game = snake::Game::new();
    game.up();
    assert_eq!((game.dir_x, game.dir_y), (0, -1));
    game.left();
    assert_eq!((game.dir_x, game.dir_y), (-1, 0));
    game.down();
    assert_eq!((game.dir_x, game.dir_y), (0, 1));
    game.right();
    assert_eq!((game.dir_x, game.dir_y), (1, 0));
}

#[test]
fn invader_crash_band_tests() {
    let invader = invaders::Invader {
        position: arcade_core::geometry::Position { x: 100, y: 50 },
        speed: 6,
    };
    let hit = invaders::Bullet::new(110, 60);
    assert!(invaders::Game::vertical_crash(&invader, &hit));
    assert!(invaders::Game::horizontal_crash(&invader, &hit));
    assert!(invaders::Game::is_crash(&invader, &hit));

    let far = invaders::Bullet::new(130, 60);
    assert!(!invaders::Game::vertical_crash(&invader, &far));
    assert!(!invaders::Game::is_crash(&invader, &far));

    let above = invaders::Bullet::new(110, 80);
    assert!(!invaders::Game::horizontal_crash(&invader, &above));

    let below = invaders::Bullet::new(110, 35);
    assert!(invaders::Game::horizontal_crash(&invader, &below));
}

#[test]
fn invader_crash_is_symmetric() {
    // Overlap symmetry: invader and bullet are equal squares, so
    // swapping their positions never changes the answer.
    let cases = [((0, 0), (0, 100)), ((0, 0), (0, 15)), ((10, 10), (25, 5)), ((5, 5), (5, 5))];
    for ((ax, ay), (bx, by)) in cases {
        let forward = invaders::Game::is_crash(
            &invaders::Invader {
                position: arcade_core::geometry::Position { x: ax, y: ay },
                speed: 6,
            },
            &invaders::Bullet::new(bx, by),
        );
        let backward = invaders::Game::is_crash(
            &invaders::Invader {
                position: arcade_core::geometry::Position { x: bx, y: by },
                speed: 6,
            },
            &invaders::Bullet::new(ax, ay),
        );
        assert_eq!(forward, backward);
    }
}

#[test]
fn invaders_collision_pass_removes_pairs() {
    let mut game = invaders::Game::new(800, 400, 580);
    game.invaders.push(invaders::Invader {
        position: arcade_core::geometry::Position { x: 100, y: 50 },
        speed: 6,
    });
    game.invaders.push(invaders::Invader {
        position: arcade_core::geometry::Position { x: 500, y: 0 },
        speed: 6,
    });
    game.bullets.push(invaders::Bullet::new(110, 60));
    game.handle_crash();
    assert_eq!(game.bullets.len(), 0);
    assert_eq!(game.invaders.len(), 1);
    assert_eq!(game.invaders[0].position.x, 500);
}

#[test]
fn invaders_spawn_cadence() {
    // With cadence 2, two update ticks create exactly one invader.
    let mut game = invaders::Game::new(800, 400, 580);
    game.create_invader();
    assert_eq!(game.invaders.len(), 0);
    game.create_invader();
    assert_eq!(game.invaders.len(), 1);
    let spawned = &game.invaders[0];
    assert!(0 <= spawned.position.x && spawned.position.x < 800);
    assert_eq!(spawned.position.y, 0);
}

#[test]
fn invaders_shot_and_moves() {
    let mut game = invaders::Game::new(800, 400, 580);
    game.shot();
    assert_eq!(game.bullets.len(), 1);
    assert_eq!(game.bullets[0].position.x, 400);
    game.mov_bullets();
    assert_eq!(game.bullets[0].position.y, 580 - 6);
    game.right();
    assert_eq!(game.ship.position.x, 420);
    game.left();
    game.left();
    assert_eq!(game.ship.position.x, 400 - 20);
}

#[test]
fn domination_crash_test_cases() {
    let enemy = domination::GameObject {
        id: 1,
        pos: arcade_core::geometry::Position { x: 100, y: 100 },
    };
    let hit = domination::GameObject {
        id: 2,
        pos: arcade_core::geometry::Position { x: 150, y: 150 },
    };
    assert!(domination::Domination::is_crash(&enemy, &hit));

    // Overlap reflexivity: coincident bodies crash.
    let coincident = domination::GameObject {
        id: 3,
        pos: arcade_core::geometry::Position { x: 100, y: 100 },
    };
    assert!(domination::Domination::is_crash(&enemy, &coincident));

    let too_high = domination::GameObject {
        id: 4,
        pos: arcade_core::geometry::Position { x: 150, y: 300 },
    };
    assert!(!domination::Domination::is_crash(&enemy, &too_high));

    let far_column = domination::GameObject {
        id: 5,
        pos: arcade_core::geometry::Position { x: 300, y: 100 },
    };
    assert!(!domination::Domination::is_crash(&enemy, &far_column));
}

#[test]
fn domination_scores_enemy_once_for_two_bullets() {
    // No double-scoring: one enemy crashed by two bullets in one frame
    // scores one, and all three entities leave the field.
    let mut game = domination::Domination::new(800, 600);
    game.enemies.push(domination::GameObject {
        id: 31,
        pos: arcade_core::geometry::Position { x: 100, y: 100 },
    });
    game.bullets.push(domination::GameObject {
        id: 41,
        pos: arcade_core::geometry::Position { x: 120, y: 120 },
    });
    game.bullets.push(domination::GameObject {
        id: 42,
        pos: arcade_core::geometry::Position { x: 80, y: 90 },
    });
    game.handle_crash();
    assert_eq!(game.score, 1);
    assert_eq!(game.enemies.len(), 0);
    assert_eq!(game.bullets.len(), 0);
}

#[test]
fn domination_scores_and_removes_crashed_pair() {
    let mut game = domination::Domination::new(800, 600);
    game.enemies.push(domination::GameObject {
        id: 11,
        pos: arcade_core::geometry::Position { x: 100, y: 100 },
    });
    game.enemies.push(domination::GameObject {
        id: 12,
        pos: arcade_core::geometry::Position { x: 600, y: 100 },
    });
    game.bullets.push(domination::GameObject {
        id: 21,
        pos: arcade_core::geometry::Position { x: 150, y: 150 },
    });
    game.handle_crash();
    assert_eq!(game.score, 1);
    assert_eq!(game.enemies.len(), 1);
    assert_eq!(game.enemies[0].id, 12);
    assert_eq!(game.bullets.len(), 0);
}

#[test]
fn domination_removal_is_idempotent() {
    // Removing a set of identifiers that were already removed leaves
    // the list unchanged.
    let mut game = domination::Domination::new(800, 600);
    game.enemies.push(domination::GameObject {
        id: 1,
        pos: arcade_core::geometry::Position { x: 10, y: 10 },
    });
    game.enemies.push(domination::GameObject {
        id: 2,
        pos: arcade_core::geometry::Position { x: 20, y: 10 },
    });
    let ids = vec![1u128];
    game.remove_enemies(&ids);
    assert_eq!(game.enemies.len(), 1);
    assert_eq!(game.enemies[0].id, 2);
    game.remove_enemies(&ids);
    assert_eq!(game.enemies.len(), 1);
    assert_eq!(game.enemies[0].id, 2);
}

#[test]
fn domination_spawn_cadence() {
    let mut game = domination::Domination::new(800, 600);
    for _ in 0..domination::ENEMY_EVERY - 1 {
        game.add_enemy_conditional();
        assert_eq!(game.enemies.len(), 0);
    }
    game.add_enemy_conditional();
    assert_eq!(game.enemies.len(), 1);
    assert_eq!(game.last_enemy, 0);
    let e = &game.enemies[0];
    assert!(0 <= e.pos.x && e.pos.x < 800);
    assert_eq!(e.pos.y, 10);
}

#[test]
fn domination_player_and_bullets_move() {
    let mut game = domination::Domination::new(800, 600);
    assert_eq!(game.player.pos.x, 400);
    assert_eq!(game.player.pos.y, 500);
    game.left();
    assert_eq!(game.player.pos.x, 395);
    game.right();
    game.right();
    assert_eq!(game.player.pos.x, 405);
    game.shot();
    assert_eq!(game.bullets.len(), 1);
    assert_eq!(game.bullets[0].pos.y, 450);
    game.mov_bullets();
    assert_eq!(game.bullets[0].pos.y, 445);
    game.enemies.push(domination::GameObject {
        id: 7,
        pos: arcade_core::geometry::Position { x: 0, y: 0 },
    });
    game.mov_enemies();
    assert_eq!(game.enemies[0].pos.y, 1);
}
