use snake_game::{
    board_is_playable, build_snake, Game, Key, Phase, Point, Snake, DIRECTION_LEFT, DIRECTION_UP,
};

fn cell(x: i16, y: i16, char: char) -> Point {
    Point { x, y, char }
}

fn game_with_fruit_at(x: i16, y: i16) -> Game {
    let mut game = Game::new(30, 20);
    game.fruit = cell(x, y, 'X');
    game
}

#[test]
fn a_new_game_is_running() {
    let game = Game::new(30, 20);
    assert_eq!(game.phase, Phase::Running);
    assert_eq!((game.cols, game.rows), (30, 20));
    assert_eq!(game.snake.body, build_snake().body);
    assert_eq!(game.snake.direction, DIRECTION_UP);
    assert!(5 <= game.fruit.x && game.fruit.x < 25);
    assert!(5 <= game.fruit.y && game.fruit.y < 15);
    assert_eq!(game.fruit.char, 'X');
    assert_eq!(game.score(), 0);
    assert!(game.is_consistent());
}

#[test]
fn end_to_end_run_into_the_top_border() {
    let mut game = game_with_fruit_at(20, 15);
    assert_eq!(game.tick(None), Phase::Running);
    let places: Vec<(i16, i16)> = game.snake.body.iter().map(|p| (p.x, p.y)).collect();
    assert_eq!(places, vec![(1, 9), (1, 10), (1, 11), (1, 12)]);
    assert_eq!(game.snake.body[0].char, 'O');
    assert_eq!(game.snake.body[1].char, ' ');
    for _ in 2..=10 {
        assert_eq!(game.tick(None), Phase::Running);
    }
    assert_eq!(game.snake.body[0], cell(1, 0, 'O'));
    assert_eq!(game.tick(None), Phase::GameOver);
    assert_eq!(game.snake.body[0], cell(1, -1, 'O'));
    assert!(game.snake.is_dead(30, 20));
    assert_eq!(game.phase, Phase::GameOver);
    assert_eq!(game.score(), 0);
    assert_eq!(game.fruit, cell(20, 15, 'X'));
}

#[test]
fn a_tick_turns_before_it_moves() {
    let mut game = game_with_fruit_at(20, 15);
    assert_eq!(game.tick(Some(Key::Right)), Phase::Running);
    assert_eq!(game.snake.body[0], cell(2, 10, 'O'));
    assert_eq!(game.tick(Some(Key::Left)), Phase::Running);
    assert_eq!(game.snake.body[0], cell(3, 10, 'O'));
    assert_eq!(game.tick(Some(Key::Other)), Phase::Running);
    assert_eq!(game.snake.body[0], cell(4, 10, 'O'));
    assert_eq!(game.tick(Some(Key::Down)), Phase::Running);
    assert_eq!(game.snake.body[0], cell(4, 11, 'O'));
    assert_eq!(game.score(), 0);
}

#[test]
fn eating_scores_and_replaces_the_fruit() {
    let mut game = game_with_fruit_at(1, 9);
    assert_eq!(game.tick(None), Phase::Running);
    assert_eq!(game.snake.body.len(), 5);
    assert_eq!(game.score(), 1);
    assert!(5 <= game.fruit.x && game.fruit.x < 25);
    assert!(5 <= game.fruit.y && game.fruit.y < 15);
    assert_eq!(game.fruit.char, 'X');
    game.fruit = cell(1, 8, 'X');
    assert_eq!(game.tick(None), Phase::Running);
    assert_eq!(game.score(), 2);
    assert_eq!(game.snake.body.len(), 6);
    let kept = game.fruit;
    assert_eq!(game.tick(None), Phase::Running);
    assert_eq!(game.score(), 2);
    assert_eq!(game.fruit, kept);
    assert!(game.is_consistent());
}

#[test]
fn hitting_the_left_wall_ends_the_game() {
    let mut game = game_with_fruit_at(20, 15);
    assert_eq!(game.tick(Some(Key::Left)), Phase::Running);
    assert_eq!(game.snake.body[0], cell(0, 10, 'O'));
    assert_eq!(game.tick(None), Phase::GameOver);
    assert_eq!(game.snake.body[0], cell(-1, 10, 'O'));
    assert_eq!(game.snake.direction, DIRECTION_LEFT);
}

#[test]
fn a_finished_game_stays_as_it_is() {
    let mut game = game_with_fruit_at(20, 15);
    game.tick(Some(Key::Left));
    assert_eq!(game.tick(None), Phase::GameOver);
    let body = game.snake.body.clone();
    for key in [None, Some(Key::Up), Some(Key::Right), Some(Key::Other)] {
        assert_eq!(game.tick(key), Phase::GameOver);
        assert_eq!(game.snake.body, body);
        assert_eq!(game.snake.direction, DIRECTION_LEFT);
        assert_eq!(game.fruit, cell(20, 15, 'X'));
        assert_eq!(game.phase, Phase::GameOver);
    }
}

#[test]
fn biting_itself_ends_the_game() {
    let mut game = game_with_fruit_at(20, 15);
    game.snake = Snake {
        body: vec![
            cell(5, 5, 'O'),
            cell(6, 5, 'O'),
            cell(6, 6, 'O'),
            cell(5, 6, 'O'),
            cell(4, 6, 'O'),
            cell(3, 6, ' '),
        ],
        direction: DIRECTION_LEFT,
    };
    assert!(game.is_consistent());
    assert_eq!(game.score(), 2);
    assert_eq!(game.tick(Some(Key::Down)), Phase::GameOver);
    assert_eq!(game.snake.body[0], cell(5, 6, 'O'));
    assert_eq!(game.score(), 2);
}

#[test]
fn states_that_no_game_reaches_are_told_apart() {
    let mut game = game_with_fruit_at(20, 15);
    game.cols = 10;
    assert!(!game.is_consistent());
    game.cols = 32768;
    assert!(!game.is_consistent());
    game.cols = 32767;
    assert!(game.is_consistent());
    game.rows = 10;
    assert!(!game.is_consistent());
    game.rows = 20;
    game.snake.body.pop();
    assert!(!game.is_consistent());
    game.snake = build_snake();
    game.snake.body[0] = cell(-1, 10, 'O');
    assert!(!game.is_consistent());
    game.phase = Phase::GameOver;
    assert!(game.is_consistent());
}

#[test]
fn the_smallest_and_the_largest_board_can_be_played() {
    let mut game = Game::new(11, 11);
    assert_eq!(game.fruit, cell(5, 5, 'X'));
    assert_eq!(game.tick(None), Phase::Running);
    let mut game = Game::new(32767, 32767);
    assert!(game.is_consistent());
    assert_eq!(game.tick(Some(Key::Right)), Phase::Running);
}

#[test]
fn boards_that_can_be_played_on() {
    assert!(board_is_playable(30, 20));
    assert!(board_is_playable(11, 11));
    assert!(board_is_playable(32767, 32767));
    assert!(!board_is_playable(10, 20));
    assert!(!board_is_playable(30, 10));
    assert!(!board_is_playable(32768, 20));
    assert!(!board_is_playable(30, 32768));
    assert!(!board_is_playable(0, 0));
}
