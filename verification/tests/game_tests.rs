use snake_game::canvas::{Paint, Rect};
use snake_game::game::{Game, Key, FOOD_DRAWS, MOVING_PERIOD, RESTART_TIME};
use snake_game::snake::Direction;

const TICK: u64 = 310_000;

fn border(x: i32, y: i32, width: i32, height: i32) -> Rect {
    Rect { paint: Paint::Border, x, y, width, height }
}

#[test]
fn new_game_is_in_its_first_state() {
    let g = Game::new(20, 20);
    assert_eq!(g.snake().body(), vec![(4, 2), (3, 2), (2, 2)]);
    assert_eq!(g.snake().head_direction(), Direction::Right);
    assert_eq!(g.food(), Some((6, 4)));
    assert!(!g.is_over());
    assert_eq!(g.waiting_time(), 0);
    assert_eq!(g.width(), 20);
    assert_eq!(g.height(), 20);
}

#[test]
fn periods_are_in_microseconds() {
    assert_eq!(MOVING_PERIOD, 300_000);
    assert_eq!(RESTART_TIME, 1_000_000);
    assert!(FOOD_DRAWS > 0);
}

#[test]
fn keys_map_to_directions() {
    assert_eq!(Key::Up.direction(), Some(Direction::Up));
    assert_eq!(Key::W.direction(), Some(Direction::Up));
    assert_eq!(Key::Down.direction(), Some(Direction::Down));
    assert_eq!(Key::S.direction(), Some(Direction::Down));
    assert_eq!(Key::Left.direction(), Some(Direction::Left));
    assert_eq!(Key::A.direction(), Some(Direction::Left));
    assert_eq!(Key::Right.direction(), Some(Direction::Right));
    assert_eq!(Key::D.direction(), Some(Direction::Right));
    assert_eq!(Key::Other.direction(), None);
}

#[test]
fn update_below_the_period_only_counts_time() {
    let mut g = Game::new(20, 20);
    g.update(300_000);
    assert_eq!(g.waiting_time(), 300_000);
    assert_eq!(g.snake().body(), vec![(4, 2), (3, 2), (2, 2)]);
    g.update(1);
    assert_eq!(g.waiting_time(), 0);
    assert_eq!(g.snake().body(), vec![(5, 2), (4, 2), (3, 2)]);
}

#[test]
fn update_saturates_the_clock() {
    let mut g = Game::new(20, 20);
    g.update(299_999);
    g.update(u64::MAX);
    assert_eq!(g.waiting_time(), 0);
    assert_eq!(g.snake().head_position(), (5, 2));
}

#[test]
fn accepted_move_puts_head_on_next_head() {
    let mut g = Game::new(20, 20);
    let ahead = g.snake().next_head(Some(Direction::Down));
    let before = g.snake().len();
    g.update_snake(Some(Direction::Down));
    assert_eq!(g.snake().head_position(), ahead);
    assert_eq!(g.snake().len(), before);
    assert!(!g.is_over());
    assert_eq!(g.waiting_time(), 0);
}

#[test]
fn key_press_moves_at_once_and_resets_the_clock() {
    let mut g = Game::new(20, 20);
    g.update(100_000);
    g.key_pressed(Key::S);
    assert_eq!(g.snake().body(), vec![(4, 3), (4, 2), (3, 2)]);
    assert_eq!(g.snake().head_direction(), Direction::Down);
    assert_eq!(g.waiting_time(), 0);
}

#[test]
fn reversal_key_is_dropped() {
    let mut g = Game::new(20, 20);
    g.update(100_000);
    g.key_pressed(Key::Left);
    assert_eq!(g.snake().body(), vec![(4, 2), (3, 2), (2, 2)]);
    assert_eq!(g.snake().head_direction(), Direction::Right);
    assert_eq!(g.waiting_time(), 100_000);
    g.key_pressed(Key::A);
    assert_eq!(g.snake().body(), vec![(4, 2), (3, 2), (2, 2)]);
    assert!(!g.is_over());
}

#[test]
fn unknown_key_is_ignored() {
    let mut g = Game::new(20, 20);
    g.update(100_000);
    g.key_pressed(Key::Other);
    assert_eq!(g.snake().body(), vec![(4, 2), (3, 2), (2, 2)]);
    assert_eq!(g.waiting_time(), 100_000);
    assert!(!g.is_over());
}

#[test]
fn key_in_the_current_direction_moves_forward() {
    let mut g = Game::new(20, 20);
    g.key_pressed(Key::D);
    assert_eq!(g.snake().body(), vec![(5, 2), (4, 2), (3, 2)]);
}

#[test]
fn check_if_snake_alive_looks_one_step_ahead() {
    let g = Game::new(20, 20);
    assert!(g.check_if_snake_alive(None));
    assert!(g.check_if_snake_alive(Some(Direction::Up)));
    assert!(g.check_if_snake_alive(Some(Direction::Down)));
    assert!(!g.check_if_snake_alive(Some(Direction::Left)));
}

#[test]
fn top_border_ends_the_run() {
    let mut g = Game::new(20, 20);
    g.key_pressed(Key::Up);
    assert_eq!(g.snake().head_position(), (4, 1));
    assert!(!g.is_over());
    g.key_pressed(Key::Up);
    assert!(g.is_over());
    assert_eq!(g.snake().body(), vec![(4, 1), (4, 2), (3, 2)]);
}

#[test]
fn smallest_board_ends_the_run_on_the_first_move() {
    let mut g = Game::new(6, 4);
    assert!(!g.check_if_snake_alive(None));
    g.update(TICK);
    assert!(g.is_over());
    assert_eq!(g.snake().body(), vec![(4, 2), (3, 2), (2, 2)]);
}

#[test]
fn self_collision_ends_the_run() {
    let mut g = Game::new(20, 20);
    // grow to five cells so that the snake can reach its own body
    g.place_food(5, 2);
    g.update_snake(None);
    g.place_food(6, 2);
    g.update_snake(None);
    assert_eq!(g.snake().len(), 5);
    g.place_food(18, 18);
    g.update_snake(Some(Direction::Down));
    g.update_snake(Some(Direction::Left));
    assert!(!g.is_over());
    let before = g.snake().body();
    assert_eq!(before, vec![(5, 3), (6, 3), (6, 2), (5, 2), (4, 2)]);
    g.update_snake(Some(Direction::Up));
    assert!(g.is_over());
    assert_eq!(g.snake().body(), before);
}

#[test]
fn head_may_enter_the_cell_the_tail_leaves() {
    let mut g = Game::new(20, 20);
    g.place_food(5, 2);
    g.update_snake(None);
    assert_eq!(g.snake().body(), vec![(5, 2), (4, 2), (3, 2), (2, 2)]);
    g.place_food(18, 18);
    g.update_snake(Some(Direction::Down));
    g.update_snake(Some(Direction::Left));
    assert_eq!(g.snake().body(), vec![(4, 3), (5, 3), (5, 2), (4, 2)]);
    g.update_snake(Some(Direction::Up));
    assert!(!g.is_over());
    assert_eq!(g.snake().body(), vec![(4, 2), (4, 3), (5, 3), (5, 2)]);
}

#[test]
fn eating_removes_food_and_grows_by_one() {
    let mut g = Game::new(20, 20);
    assert!(g.place_food(5, 2));
    let before = g.snake().len();
    g.update_snake(None);
    assert_eq!(g.food(), None);
    assert_eq!(g.snake().len(), before + 1);
    assert_eq!(g.snake().body(), vec![(5, 2), (4, 2), (3, 2), (2, 2)]);
}

#[test]
fn check_eating_without_food_under_the_head_changes_nothing() {
    let mut g = Game::new(20, 20);
    g.update_snake(None);
    g.check_eating();
    assert_eq!(g.food(), Some((6, 4)));
    assert_eq!(g.snake().len(), 3);
}

#[test]
fn place_food_accepts_only_free_interior_cells() {
    let mut g = Game::new(20, 20);
    assert!(!g.place_food(0, 5));
    assert!(!g.place_food(5, 0));
    assert!(!g.place_food(19, 5));
    assert!(!g.place_food(5, 19));
    assert!(!g.place_food(4, 2));
    assert!(!g.place_food(3, 2));
    assert_eq!(g.food(), Some((6, 4)));
    assert!(g.place_food(2, 2));
    assert_eq!(g.food(), Some((2, 2)));
    assert!(g.place_food(18, 18));
    assert_eq!(g.food(), Some((18, 18)));
    assert!(g.place_food(1, 1));
    assert_eq!(g.food(), Some((1, 1)));
}

#[test]
fn add_food_puts_food_on_a_free_interior_cell() {
    let mut g = Game::new(20, 20);
    for _ in 0..200 {
        g.add_food();
        let (x, y) = g.food().unwrap();
        assert!(x > 0 && x < 19 && y > 0 && y < 19);
        assert!(!g.snake().overlap_tail(x, y));
    }
    assert_eq!(g.snake().body(), vec![(4, 2), (3, 2), (2, 2)]);
    assert!(!g.is_over());
}

#[test]
fn add_food_draws_different_cells() {
    let mut g = Game::new(20, 20);
    let mut seen: Vec<(i32, i32)> = Vec::new();
    for _ in 0..400 {
        g.add_food();
        let cell = g.food().unwrap();
        if !seen.contains(&cell) {
            seen.push(cell);
        }
    }
    assert!(seen.len() > 1);
    assert!(seen.iter().any(|&(x, _)| x != 1));
    assert!(seen.iter().any(|&(_, y)| y != 1));
}

#[test]
fn add_food_finds_the_only_free_cell() {
    // interior of a 6 by 4 board: x in 1..=4, y in 1..=2
    let mut g = Game::new(6, 4);
    g.place_food(4, 1);
    g.update_snake(Some(Direction::Up));
    g.place_food(3, 1);
    g.update_snake(Some(Direction::Left));
    g.place_food(2, 1);
    g.update_snake(Some(Direction::Left));
    g.place_food(1, 1);
    g.update_snake(Some(Direction::Left));
    assert_eq!(
        g.snake().body(),
        vec![(1, 1), (2, 1), (3, 1), (4, 1), (4, 2), (3, 2), (2, 2)]
    );
    assert_eq!(g.food(), None);
    // free: (1,2), and (2,2) under the last block
    for _ in 0..50 {
        g.add_food();
        let cell = g.food().unwrap();
        assert!(cell == (1, 2) || cell == (2, 2));
    }
}

#[test]
fn add_food_leaves_a_full_board_alone() {
    let mut g = Game::new(6, 4);
    g.place_food(4, 1);
    g.update_snake(Some(Direction::Up));
    g.place_food(3, 1);
    g.update_snake(Some(Direction::Left));
    g.place_food(2, 1);
    g.update_snake(Some(Direction::Left));
    g.place_food(1, 1);
    g.update_snake(Some(Direction::Left));
    g.place_food(1, 2);
    g.update_snake(Some(Direction::Down));
    g.place_food(2, 2);
    g.update_snake(Some(Direction::Right));
    // the head has entered the cell that the tail left, and the snake has
    // grown back onto it: every interior cell lies under the body
    assert_eq!(g.snake().len(), 9);
    assert_eq!(g.food(), None);
    assert!(!g.is_over());
    g.add_food();
    assert_eq!(g.food(), None);
}

#[test]
fn update_spawns_food_when_none_exists() {
    let mut g = Game::new(20, 20);
    g.place_food(5, 2);
    g.update_snake(None);
    assert_eq!(g.food(), None);
    g.update(1);
    let (x, y) = g.food().unwrap();
    assert!(x > 0 && x < 19 && y > 0 && y < 19);
    assert!(!g.snake().overlap_tail(x, y));
    assert_eq!(g.snake().len(), 4);
    assert_eq!(g.waiting_time(), 1);
}

#[test]
fn game_over_ignores_keys() {
    let mut g = Game::new(20, 20);
    g.key_pressed(Key::Up);
    g.key_pressed(Key::Up);
    assert!(g.is_over());
    let before = g.snake().body();
    g.key_pressed(Key::Right);
    g.key_pressed(Key::S);
    assert!(g.is_over());
    assert_eq!(g.snake().body(), before);
    assert_eq!(g.snake().head_direction(), Direction::Up);
}

#[test]
fn game_over_waits_for_the_restart_time() {
    let mut g = Game::new(20, 20);
    g.key_pressed(Key::Up);
    g.key_pressed(Key::Up);
    assert!(g.is_over());
    g.update(1_000_000);
    assert!(g.is_over());
    assert_eq!(g.waiting_time(), 1_000_000);
    assert_eq!(g.snake().body(), vec![(4, 1), (4, 2), (3, 2)]);
    g.update(1);
    assert!(!g.is_over());
}

#[test]
fn restart_restores_the_first_state() {
    let mut g = Game::new(20, 14);
    g.place_food(5, 2);
    g.update_snake(None);
    g.key_pressed(Key::Up);
    g.key_pressed(Key::Up);
    assert!(g.is_over());
    assert_eq!(g.snake().len(), 4);
    assert_eq!(g.food(), None);
    g.update(1_000_001);
    assert!(!g.is_over());
    assert_eq!(g.snake().body(), vec![(4, 2), (3, 2), (2, 2)]);
    assert_eq!(g.snake().head_direction(), Direction::Right);
    assert_eq!(g.snake().tail(), None);
    assert_eq!(g.food(), Some((6, 4)));
    assert_eq!(g.waiting_time(), 0);
    assert_eq!(g.width(), 20);
    assert_eq!(g.height(), 14);
}

#[test]
fn restart_can_be_called_on_a_running_game() {
    let mut g = Game::new(20, 20);
    g.key_pressed(Key::S);
    g.update(5);
    g.restart();
    assert_eq!(g.snake().body(), vec![(4, 2), (3, 2), (2, 2)]);
    assert_eq!(g.food(), Some((6, 4)));
    assert_eq!(g.waiting_time(), 0);
    assert!(!g.is_over());
}

#[test]
fn draw_lists_snake_food_and_borders() {
    let g = Game::new(20, 15);
    let expected = vec![
        Rect::block(Paint::Snake, 4, 2),
        Rect::block(Paint::Snake, 3, 2),
        Rect::block(Paint::Snake, 2, 2),
        Rect::block(Paint::Food, 6, 4),
        border(0, 0, 20, 1),
        border(0, 14, 19, 1),
        border(0, 0, 1, 15),
        border(19, 0, 1, 15),
    ];
    assert_eq!(g.draw(), expected);
}

#[test]
fn draw_leaves_out_food_that_was_eaten() {
    let mut g = Game::new(20, 20);
    g.place_food(5, 2);
    g.update_snake(None);
    let frame = g.draw();
    assert_eq!(frame.len(), 8);
    assert!(frame.iter().all(|r| r.paint != Paint::Food));
    assert_eq!(frame[3], Rect::block(Paint::Snake, 2, 2));
    assert_eq!(frame[4], border(0, 0, 20, 1));
}

#[test]
fn scenario_eat_the_first_food() {
    let mut g = Game::new(20, 20);
    assert_eq!(g.snake().body(), vec![(4, 2), (3, 2), (2, 2)]);
    assert_eq!(g.food(), Some((6, 4)));
    assert!(!g.snake().overlap_tail(6, 4));

    g.update(TICK);
    assert_eq!(g.snake().head_position(), (5, 2));
    assert_eq!(g.snake().len(), 3);
    g.update(TICK);
    assert_eq!(g.snake().head_position(), (6, 2));
    assert_eq!(g.snake().len(), 3);
    assert_eq!(g.food(), Some((6, 4)));

    g.key_pressed(Key::Down);
    assert_eq!(g.snake().head_position(), (6, 3));
    assert_eq!(g.snake().len(), 3);
    assert_eq!(g.food(), Some((6, 4)));

    g.update(TICK);
    assert_eq!(g.snake().head_position(), (6, 4));
    assert_eq!(g.snake().len(), 4);
    assert_eq!(g.food(), None);
    assert_eq!(g.snake().body(), vec![(6, 4), (6, 3), (6, 2), (5, 2)]);
}

#[test]
fn scenario_turn_before_the_food_column() {
    let mut g = Game::new(20, 20);
    g.update(TICK);
    assert_eq!(g.snake().head_position(), (5, 2));
    g.key_pressed(Key::S);
    assert_eq!(g.snake().body(), vec![(5, 3), (5, 2), (4, 2)]);
    g.update(TICK);
    assert_eq!(g.snake().body(), vec![(5, 4), (5, 3), (5, 2)]);
    assert_eq!(g.food(), Some((6, 4)));
    g.key_pressed(Key::D);
    assert_eq!(g.snake().body(), vec![(6, 4), (5, 4), (5, 3), (5, 2)]);
    assert_eq!(g.food(), None);
}

#[test]
fn scenario_run_into_the_right_wall() {
    let mut g = Game::new(20, 20);
    for step in 0..14 {
        g.update(TICK);
        assert!(!g.is_over());
        assert_eq!(g.snake().head_position(), (5 + step, 2));
    }
    let before = g.snake().body();
    assert_eq!(before, vec![(18, 2), (17, 2), (16, 2)]);
    let calm = g.draw();
    assert!(calm.iter().all(|r| r.paint != Paint::GameOver));

    g.update(TICK);
    assert!(g.is_over());
    assert_eq!(g.snake().body(), before);
    assert_eq!(g.waiting_time(), 0);

    let frame = g.draw();
    assert_eq!(
        frame.last(),
        Some(&Rect { paint: Paint::GameOver, x: 0, y: 0, width: 20, height: 20 })
    );
    assert_eq!(frame.len(), 9);
}

#[test]
fn left_border_ends_the_run() {
    let mut g = Game::new(20, 20);
    g.key_pressed(Key::W);
    g.key_pressed(Key::A);
    g.key_pressed(Key::A);
    g.key_pressed(Key::A);
    assert_eq!(g.snake().head_position(), (1, 1));
    assert!(!g.is_over());
    let before = g.snake().body();
    g.update(TICK);
    assert!(g.is_over());
    assert_eq!(g.snake().body(), before);
    assert_eq!(g.snake().head_direction(), Direction::Left);
}

#[test]
fn bottom_border_ends_the_run() {
    let mut g = Game::new(20, 8);
    for y in 3..7 {
        g.key_pressed(Key::Down);
        assert_eq!(g.snake().head_position(), (4, y));
        assert!(!g.is_over());
    }
    let before = g.snake().body();
    g.key_pressed(Key::Down);
    assert!(g.is_over());
    assert_eq!(g.snake().body(), before);
    assert_eq!(g.food(), Some((6, 4)));
}

#[test]
fn body_cells_stay_one_step_apart() {
    let mut g = Game::new(20, 20);
    let keys = [Key::S, Key::D, Key::D, Key::S, Key::A, Key::S, Key::D, Key::W, Key::Other];
    for key in keys {
        g.key_pressed(key);
        g.update(TICK);
        let body = g.snake().body();
        for pair in body.windows(2) {
            let dx = (pair[0].0 - pair[1].0).abs();
            let dy = (pair[0].1 - pair[1].1).abs();
            assert_eq!(dx + dy, 1);
        }
    }
    assert!(g.snake().len() >= 4);
}
