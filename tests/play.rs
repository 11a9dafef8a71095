use game::actor::{find_hit, walk_axis, Actor, MAX_LIFE, PLAYER_OFFSET_X};
use game::game::{Game, Key, MouseButton, Phase};
use game::transition::Transition;

fn playing() -> Game {
    let mut g = Game::new();
    g.phase = Phase::Playing;
    g.transition = Transition::Finished;
    g
}

#[test]
fn new_game_starts_on_welcome() {
    let g = Game::new();
    assert_eq!(g.phase, Phase::Welcome);
    assert_eq!(g.transition, Transition::Idle);
    assert_eq!((g.player.x, g.player.y, g.player.life), (200, 700, 5));
    assert_eq!((g.enemy.x, g.enemy.y, g.enemy.life), (1200, 600, 5));
    assert!(g.player.projectiles.is_empty());
    assert_eq!((g.marker_x, g.marker_y), (0, 0));
    assert_eq!((g.cursor_x, g.cursor_y), (-100, -100));
    assert!(g.is_within_limits());
}

#[test]
fn click_in_welcome_leads_to_play() {
    let mut g = Game::new();
    g.mouse_button_up(MouseButton::Left, 600, 500);
    assert_eq!((g.marker_x, g.marker_y), (510, 410));
    assert_eq!((g.cursor_x, g.cursor_y), (600, 500));
    assert_eq!(g.transition, Transition::Sliding { offset: 0 });
    assert_eq!((g.player.life, g.enemy.life), (5, 5));
    for _ in 0..1274 {
        g.update();
        assert_eq!(g.phase, Phase::Welcome);
    }
    assert_eq!(g.transition, Transition::Rising { depth: 2 });
    g.update();
    assert_eq!(g.phase, Phase::Playing);
    assert_eq!(g.transition, Transition::Finished);
    assert_eq!(g.transition.drop_depth(), 1);
}

#[test]
fn animation_stage_boundaries() {
    let mut g = Game::new();
    g.mouse_button_up(MouseButton::Left, 600, 500);
    for _ in 0..700 {
        g.update();
    }
    assert_eq!(g.transition, Transition::Sliding { offset: 700 });
    g.update();
    assert_eq!(g.transition, Transition::Dropping { depth: 1 });
    for _ in 0..287 {
        g.update();
    }
    assert_eq!(g.transition, Transition::Rising { depth: 288 });
    g.update();
    assert_eq!(g.transition, Transition::Rising { depth: 287 });
}

#[test]
fn transition_steps() {
    assert_eq!(Transition::Idle.next(), (Transition::Idle, false));
    assert_eq!(Transition::Sliding { offset: 3 }.next(), (Transition::Sliding { offset: 4 }, false));
    assert_eq!(Transition::Sliding { offset: 700 }.next(), (Transition::Dropping { depth: 1 }, false));
    assert_eq!(Transition::Dropping { depth: 287 }.next(), (Transition::Rising { depth: 288 }, false));
    assert_eq!(Transition::Rising { depth: 3 }.next(), (Transition::Rising { depth: 2 }, false));
    assert_eq!(Transition::Rising { depth: 2 }.next(), (Transition::Finished, true));
    assert_eq!(Transition::Finished.next(), (Transition::Finished, false));
    assert_eq!(Transition::Idle.started(), Transition::Sliding { offset: 0 });
    assert_eq!(Transition::Dropping { depth: 9 }.started(), Transition::Dropping { depth: 9 });
    assert_eq!(Transition::Dropping { depth: 9 }.slide_offset(), 700);
    assert_eq!(Transition::Sliding { offset: 9 }.drop_depth(), 0);
}

#[test]
fn second_click_does_not_restart_animation() {
    let mut g = Game::new();
    g.mouse_button_up(MouseButton::Left, 600, 500);
    g.update();
    g.update();
    g.mouse_button_up(MouseButton::Left, 300, 300);
    assert_eq!(g.transition, Transition::Sliding { offset: 2 });
}

#[test]
fn enemy_at_no_health_is_beaten() {
    let mut g = playing();
    g.enemy.life = 0;
    g.update();
    assert_eq!(g.phase, Phase::Win);
}

#[test]
fn last_hit_wins() {
    let mut g = playing();
    g.enemy.life = 1;
    g.player.projectiles.push((1250, 800));
    g.update();
    assert_eq!(g.enemy.life, 0);
    assert!(g.player.projectiles.is_empty());
    assert_eq!(g.phase, Phase::Win);
}

#[test]
fn loss_takes_priority_over_win() {
    let mut g = playing();
    g.enemy.life = 0;
    g.player.life = 0;
    g.update();
    assert_eq!(g.phase, Phase::Lose);
}

#[test]
fn player_without_health_loses() {
    let mut g = playing();
    g.player.life = 0;
    g.update();
    assert_eq!(g.phase, Phase::Lose);
}

#[test]
fn click_on_win_screen_restarts() {
    let mut g = playing();
    g.phase = Phase::Win;
    g.enemy.life = 0;
    g.player.life = 3;
    g.mouse_button_up(MouseButton::Left, 700, 400);
    assert_eq!((g.player.life, g.enemy.life), (5, 5));
    assert_eq!(g.phase, Phase::Playing);
}

#[test]
fn click_on_lose_screen_restarts() {
    let mut g = playing();
    g.phase = Phase::Lose;
    g.player.life = 0;
    g.mouse_button_up(MouseButton::Left, 700, 400);
    assert_eq!((g.player.life, g.enemy.life), (MAX_LIFE, MAX_LIFE));
    assert_eq!(g.phase, Phase::Playing);
}

#[test]
fn fire_from_origin() {
    let mut g = Game::new();
    g.player.x = 0;
    g.player.y = 0;
    g.key_down(Key::Space);
    assert_eq!(g.player.projectiles, vec![(355, 700)]);
    g.update();
    assert_eq!(g.player.projectiles, vec![(358, 700)]);
}

#[test]
fn fire_appends_after_existing() {
    let mut g = Game::new();
    g.player.projectiles.push((1, 2));
    g.fire();
    assert_eq!(g.player.projectiles, vec![(1, 2), (555, 1400)]);
}

#[test]
fn other_key_does_nothing() {
    let mut g = Game::new();
    g.key_down(Key::Other);
    assert!(g.player.projectiles.is_empty());
}

#[test]
fn one_hit_per_frame() {
    let mut g = Game::new();
    g.player.projectiles = vec![(100, 5), (1250, 6), (1300, 7)];
    g.update();
    assert_eq!(g.enemy.life, 4);
    assert_eq!(g.player.projectiles, vec![(103, 5), (1303, 7)]);
}

#[test]
fn hit_zone_edges() {
    let shots = vec![(1199, 0), (1401, 0), (1400, 0)];
    assert_eq!(find_hit(&shots, 1200), Some(2));
    let shots = vec![(1200, 0), (1400, 0)];
    assert_eq!(find_hit(&shots, 1200), Some(0));
    let shots = vec![(1199, 0), (1401, 0)];
    assert_eq!(find_hit(&shots, 1200), None);
    assert_eq!(find_hit(&Vec::new(), 1200), None);
}

#[test]
fn no_hit_when_enemy_has_no_health() {
    let mut g = Game::new();
    g.enemy.life = 0;
    g.player.projectiles = vec![(1250, 6)];
    g.update();
    assert_eq!(g.enemy.life, 0);
    assert_eq!(g.player.projectiles, vec![(1253, 6)]);
}

#[test]
fn projectiles_advance_without_hit() {
    let mut g = Game::new();
    g.player.projectiles = vec![(0, 1), (-50, 2), (5000, 3)];
    g.update();
    assert_eq!(g.player.projectiles, vec![(3, 1), (-47, 2), (5003, 3)]);
    g.update();
    assert_eq!(g.player.projectiles, vec![(6, 1), (-44, 2), (5006, 3)]);
}

#[test]
fn player_walks_toward_marker() {
    let mut g = playing();
    g.mouse_button_up(MouseButton::Left, 1090, 1490);
    // target (1000 - 40, 1400 - 40); sprite at (400, 1350)
    g.update();
    assert_eq!((g.player.x, g.player.y), (204, 704));
}

#[test]
fn walk_axis_cases() {
    // sprite at 400: a step that would reach the target holds still
    assert_eq!(walk_axis(200, PLAYER_OFFSET_X, 445), 204);
    assert_eq!(walk_axis(200, PLAYER_OFFSET_X, 444), 200);
    assert_eq!(walk_axis(200, PLAYER_OFFSET_X, 441), 200);
    assert_eq!(walk_axis(200, PLAYER_OFFSET_X, 440), 196);
    assert_eq!(walk_axis(200, PLAYER_OFFSET_X, 0), 196);
}

#[test]
fn enemy_pursues_player() {
    let mut g = playing();
    g.update();
    // player sprite at (400, 1350): enemy at (1200, 600) moves left and down
    assert_eq!((g.enemy.x, g.enemy.y), (1199, 601));
    g.enemy.x = 300;
    g.enemy.y = 2000;
    g.update();
    assert_eq!((g.enemy.x, g.enemy.y), (301, 1999));
}

#[test]
fn nothing_moves_outside_play() {
    let mut g = Game::new();
    g.marker_x = 1000;
    g.marker_y = 1000;
    g.update();
    assert_eq!((g.player.x, g.player.y), (200, 700));
    assert_eq!((g.enemy.x, g.enemy.y), (1200, 600));
}

#[test]
fn right_click_hides_marker_and_stops_walking() {
    let mut g = playing();
    g.mouse_button_up(MouseButton::Left, 1090, 1490);
    g.mouse_button_up(MouseButton::Right, 5, 5);
    assert_eq!((g.marker_x, g.marker_y), (-80, -80));
    assert_eq!((g.cursor_x, g.cursor_y), (1090, 1490));
    g.update();
    assert_eq!((g.player.x, g.player.y), (200, 700));
}

#[test]
fn other_button_does_nothing() {
    let mut g = Game::new();
    g.mouse_button_up(MouseButton::Other, 5, 5);
    assert_eq!(g.transition, Transition::Idle);
    assert_eq!((g.marker_x, g.cursor_x), (0, -100));
}

#[test]
fn motion_moves_cursor() {
    let mut g = Game::new();
    g.mouse_motion(17, -3);
    assert_eq!((g.cursor_x, g.cursor_y), (17, -3));
    assert_eq!(g.transition, Transition::Idle);
}

#[test]
fn health_stays_in_range() {
    let mut g = Game::new();
    for k in 0..8 {
        g.player.projectiles.push((1210 + k, 0));
    }
    for _ in 0..8 {
        g.update();
        assert!(g.enemy.life <= MAX_LIFE);
    }
    assert_eq!(g.enemy.life, 0);
    assert_eq!(g.phase, Phase::Win);
}

#[test]
fn limits_are_checked() {
    let mut g = Game::new();
    g.player.projectiles.push((2_000_000_000_000, 0));
    assert!(!g.is_within_limits());
    let a = Actor { x: 0, y: -1_000_000_000_001, life: 5, projectiles: Vec::new() };
    assert!(!a.is_within_limits());
}
