use matopeli::food::Food;
use matopeli::grid::{black, Point};
use matopeli::snake::{dir_right, Snake};

#[test]
fn new_food_lies_on_the_grid() {
    for _ in 0..200 {
        let food = Food::new();
        assert!(food.position.x >= 0 && food.position.x < 80);
        assert!(food.position.y >= 0 && food.position.y < 50);
    }
}

#[test]
fn overlap_with_snake_sees_the_whole_path() {
    let snake = Snake::new();
    let food = Food { position: Point { x: 10, y: 10 } };
    // Tail, middle and head all count as occupied for food placement.
    assert!(food.overlap_with_snake(Point { x: 0, y: 0 }, &snake));
    assert!(food.overlap_with_snake(Point { x: 1, y: 0 }, &snake));
    assert!(food.overlap_with_snake(Point { x: 2, y: 0 }, &snake));
    assert!(!food.overlap_with_snake(Point { x: 3, y: 0 }, &snake));
}

#[test]
fn respawn_avoids_the_snake() {
    let snake = Snake::new();
    let mut food = Food { position: Point { x: 0, y: 0 } };
    for _ in 0..200 {
        food.respawn(&snake);
        assert!(food.position.x >= 0 && food.position.x < 80);
        assert!(food.position.y >= 0 && food.position.y < 50);
        assert!(!snake.snake_path.contains(&food.position));
    }
}

#[test]
fn respawn_finds_the_single_free_cell() {
    // A path covering every cell of the grid but (79,49): the food must
    // land exactly there, however unlucky the random draws are.
    let mut path: Vec<Point> = Vec::new();
    for y in 0..50 {
        for x in 0..80 {
            if !(x == 79 && y == 49) {
                path.push(Point { x, y });
            }
        }
    }
    let snake = Snake {
        snake_path: path,
        direction: dir_right(),
        score: 0,
        body_char: '*',
        bg: black(),
        new_bg_frames_left: 0,
    };
    let mut food = Food { position: Point { x: 0, y: 0 } };
    food.respawn(&snake);
    assert_eq!(food.position, Point { x: 79, y: 49 });
}

#[test]
fn entered_food_tile_relocates_and_arms_flash() {
    let mut snake = Snake::new();
    let mut food = Food { position: Point { x: 2, y: 0 } };
    let ate = snake.entered_food_tile(Point { x: 2, y: 0 }, &mut food);
    assert!(ate);
    assert_eq!(snake.new_bg_frames_left, 15);
    assert_eq!(snake.body_char, 'X');
    assert_eq!(snake.bg, matopeli::grid::greenyellow());
    assert!(!snake.snake_path.contains(&food.position));
}

#[test]
fn entered_food_tile_misses_and_decays() {
    let mut snake = Snake::new();
    snake.new_bg_frames_left = 3;
    let mut food = Food { position: Point { x: 9, y: 9 } };
    let ate = snake.entered_food_tile(Point { x: 2, y: 0 }, &mut food);
    assert!(!ate);
    assert_eq!(snake.new_bg_frames_left, 2);
    assert_eq!(food.position, Point { x: 9, y: 9 });
}
