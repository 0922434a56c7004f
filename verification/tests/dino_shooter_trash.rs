use arcade_core::dino;
use arcade_core::geometry::Position;
use arcade_core::shooter;
use arcade_core::trash;

#[test]
fn dino_jump_trajectory() {
    let mut d = dino::Dinosaur::new(100);
    assert_eq!(d.pos.y, 100);
    d.jump();
    assert_eq!(d.jump_force, 30);
    d.mov_jump();
    assert_eq!(d.pos.y, 70);
    assert_eq!(d.jump_force, 28);
    d.mov_jump();
    assert_eq!(d.pos.y, 42);
    assert_eq!(d.jump_force, 26);
}

#[test]
fn dino_settles_on_ground() {
    let mut d = dino::Dinosaur::new(100);
    d.jump_force = -4;
    d.pos.y = 105;
    d.mov_jump();
    assert_eq!(d.pos.y, 100);
    assert_eq!(d.jump_force, 0);
}

#[test]
fn dino_vertices_and_cactus_overlap() {
    let d = dino::Dinosaur::new(100);
    let vs = d.get_vertices();
    assert_eq!(vs.len(), 4);
    assert_eq!((vs[0].x, vs[0].y), (150, 100));
    assert_eq!((vs[1].x, vs[1].y), (100, 100));
    assert_eq!((vs[2].x, vs[2].y), (100, 200));
    assert_eq!((vs[3].x, vs[3].y), (150, 200));

    let c = dino::Cactus::new(140, 90);
    assert!(c.overlaps(&vs[0]));
    let far = dino::Cactus::new(400, 90);
    assert!(!far.overlaps(&vs[0]));
}

#[test]
fn dino_cactus_drifts_left() {
    let mut c = dino::Cactus::new(700, 100);
    c.mov();
    assert_eq!(c.pos.x, 690);
    assert_eq!(c.pos.y, 100);
}

#[test]
fn dino_game_over_latch_stops_updates() {
    let mut game = dino::Game::new(800, 400);
    game.game_over = true;
    let cactus_before = game.cactus.len();
    let dino_before = game.dinosaur.pos.y;
    game.mov();
    assert!(game.game_over);
    assert_eq!(game.cactus.len(), cactus_before);
    assert_eq!(game.dinosaur.pos.y, dino_before);
}

#[test]
fn dino_crash_latches_game_over() {
    let mut game = dino::Game::new(800, 400);
    // Put a cactus right on the dinosaur.
    game.cactus.push(dino::Cactus::new(100, 100));
    game.handle_crash();
    assert!(game.game_over);
    // The latch never clears, even with the cactus gone.
    game.cactus.clear();
    game.handle_crash();
    assert!(game.game_over);
}

#[test]
fn dino_spawn_cadence_randomizes_next_period() {
    let mut game = dino::Game::new(800, 400);
    for _ in 0..dino::CACTUS_EVERY_SHORT - 1 {
        game.add_cactus_conditional();
    }
    assert_eq!(game.cactus.len(), 1);
    game.add_cactus_conditional();
    assert_eq!(game.cactus.len(), 2);
    assert_eq!(game.last_cactus, 0);
    assert!(
        game.cactus_every == dino::CACTUS_EVERY_SHORT
            || game.cactus_every == dino::CACTUS_EVERY_LONG
    );
}

#[test]
fn shooter_bullet_hits_target_and_counts() {
    // A size-9 bullet at (10, 10): its centre (14, 14) lies inside the
    // boss body spanning from (5, 5). One collision-resolution pass
    // removes the bullet and registers exactly one hit.
    let mut game = shooter::Game::new(800, 600);
    game.enemy.pos = Position { x: 5, y: 5 };
    game.bullets.push(shooter::Bullet::new(Position { x: 10, y: 10 }, -2, 0));
    let life_before = game.enemy.life;
    game.handle_enemy_hit();
    assert_eq!(game.bullets.len(), 0);
    assert_eq!(game.enemy.life, life_before - 1);
    assert!(game.enemy.is_hurt);
}

#[test]
fn shooter_bullet_center() {
    let b = shooter::Bullet::new(Position { x: 10, y: 10 }, 1, 0);
    let c = b.get_center();
    assert_eq!((c.x, c.y), (14, 14));
}

#[test]
fn shooter_enemy_patrol_reflects() {
    // The patrol band of a 600-high field is (50, 250); the boss never
    // passes either edge: on contact it holds position and turns.
    let mut e = shooter::Enemy::new(800, 600);
    e.pos.y = 51;
    e.dir_y = -1;
    e.mov();
    assert_eq!(e.pos.y, 51);
    assert_eq!(e.dir_y, 1);
    e.mov();
    assert_eq!(e.pos.y, 52);
    assert_eq!(e.dir_y, 1);
    e.pos.y = 249;
    e.mov();
    assert_eq!(e.pos.y, 249);
    assert_eq!(e.dir_y, -1);
    e.mov();
    assert_eq!(e.pos.y, 248);
    assert_eq!(e.dir_y, -1);
}

#[test]
fn shooter_multi_shoot_fans_five() {
    let mut game = shooter::Game::new(800, 600);
    game.enemy_multi_shoot();
    assert_eq!(game.bullets.len(), 5);
    let dirs: Vec<(i32, i32)> = game.bullets.iter().map(|b| (b.dir_x, b.dir_y)).collect();
    assert_eq!(dirs, vec![(-2, 0), (-2, 1), (-2, 2), (-2, -1), (-2, -2)]);
}

#[test]
fn shooter_ship_hit_latches_game_over() {
    let mut game = shooter::Game::new(800, 600);
    let ship_pos = game.spaceship.pos;
    game.bullets.push(shooter::Bullet::new(ship_pos, -2, 0));
    game.handle_spaceship_hit();
    assert!(game.game_over);
    assert_eq!(game.bullets.len(), 0);
}

#[test]
fn shooter_life_floors_at_zero() {
    let mut e = shooter::Enemy::new(800, 600);
    e.hit(250);
    assert_eq!(e.life, 0);
}

#[test]
fn shooter_background_scrolls_and_loops() {
    let mut bg = shooter::Background::new(800);
    bg.mov();
    assert_eq!(bg.x1, -5);
    assert_eq!(bg.x2, 795);
    bg.x1 = -800;
    bg.mov();
    assert_eq!(bg.x1, 0);
    assert_eq!(bg.x2, 800);
}

#[test]
fn trash_drag_wears_force_down() {
    let mut h = trash::Head {
        pos: Position { x: 0, y: 60000 },
        force_x: 1000,
        force_y: 3000,
    };
    h.mov();
    assert_eq!((h.pos.x, h.pos.y), (1000, 57000));
    assert_eq!(h.force_x, 980);
    // Gravity first, then drag: (3000 - 50) * 98 / 100, truncated.
    assert_eq!(h.force_y, 2891);
    h.force_x = -999;
    h.mov();
    // Negative forces are dragged towards zero, truncating towards zero.
    assert_eq!(h.force_x, -979);
}

#[test]
fn trash_can_patrol_reflects_at_band_edges() {
    let mut t = trash::TrashCan::new(60000, 80000);
    assert_eq!(t.pos.x, 30000);
    assert_eq!(t.dir_x, 1);
    t.mov();
    assert_eq!(t.pos.x, 30500);
    t.pos.x = 50800;
    t.mov();
    // Next step would reach the right band edge: stand still and turn.
    assert_eq!(t.pos.x, 50800);
    assert_eq!(t.dir_x, -1);
    t.pos.x = 20400;
    t.mov();
    assert_eq!(t.pos.x, 20400);
    assert_eq!(t.dir_x, 1);
}

#[test]
fn trash_catch_scores_and_removes() {
    let mut game = trash::Game::new(60000, 80000);
    let can_x = game.trash.pos.x;
    let can_y = game.trash.pos.y;
    // A head whose bottom centre lands inside the can.
    game.heads.push(trash::Head {
        pos: Position { x: can_x, y: can_y - trash::HEAD_SIZE + 100 },
        force_x: 0,
        force_y: 0,
    });
    // A head far away stays.
    game.heads.push(trash::Head {
        pos: Position { x: 0, y: 0 },
        force_x: 0,
        force_y: 0,
    });
    game.handle_crash();
    assert_eq!(game.score, 1);
    assert_eq!(game.heads.len(), 1);
    assert_eq!(game.heads[0].pos.x, 0);
}

#[test]
fn trash_cannon_elevation() {
    let mut game = trash::Game::new(60000, 80000);
    assert_eq!(game.canion.angle, 45);
    game.left();
    assert_eq!(game.canion.angle, 46);
    game.right();
    game.right();
    assert_eq!(game.canion.angle, 44);
}

#[test]
fn trash_shoot_launches_head() {
    let mut game = trash::Game::new(60000, 80000);
    game.shoot(Position { x: 1500, y: 76000 }, Position { x: 1414, y: 1414 });
    assert_eq!(game.heads.len(), 1);
    assert_eq!(game.heads[0].pos.x, 1500);
    assert_eq!(game.heads[0].force_y, 1414);
}

#[test]
fn dino_desert_scrolls_and_loops() {
    let mut d = dino::Desert::new(800, 600);
    assert_eq!((d.x1, d.x2), (-800, 0));
    d.mov();
    assert_eq!((d.x1, d.x2), (-790, 10));
    d.x2 = 600;
    d.mov();
    assert_eq!((d.x1, d.x2), (-800, 0));
}

#[test]
fn shooter_latch_keeps_state_but_backdrop() {
    let mut game = shooter::Game::new(800, 600);
    game.game_over = true;
    game.bullets.push(shooter::Bullet::new(Position { x: 10, y: 10 }, -2, 0));
    let enemy_before = game.enemy.pos;
    game.mov(1, 0);
    assert!(game.game_over);
    assert_eq!(game.bullets.len(), 1);
    assert_eq!(game.bullets[0].pos.x, 10);
    assert_eq!(game.enemy.pos, enemy_before);
    // The backdrop alone keeps sliding under the game-over banner.
    assert_eq!(game.background.x1, -5);
}

#[test]
fn shooter_tick_advances_frame() {
    let mut game = shooter::Game::new(800, 600);
    game.space_ship_shoot();
    let bullet_x = game.bullets[0].pos.x;
    game.mov(1, 0);
    assert!(!game.game_over);
    assert_eq!(game.bullets.len(), 1);
    assert_eq!(game.bullets[0].pos.x, bullet_x + 4);
    assert_eq!(game.last_shoot, 1);
    assert_eq!(game.enemy.last_hurt, 1);
}
