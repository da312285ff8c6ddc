use snek::game::food::Food;
use snek::game::grid::Grid;
use snek::game::snek::Snek;
use snek::game::state::GameState;
use snek::game::vec2::Vec2;
use snek::rng::ChaChaSource;

#[test]
fn grid_xy_calcs() {
    let grid = Grid::new(5, 5).unwrap();

    assert_eq!(grid.index_at_xy(Vec2::new(0, 0)), Some(0));
    assert_eq!(grid.index_at_xy(Vec2::new(4, 0)), Some(4));
    assert_eq!(grid.index_at_xy(Vec2::new(0, 1)), Some(5));
    assert_eq!(grid.index_at_xy(Vec2::new(4, 4)), Some(24));
    assert_eq!(grid.index_at_xy(Vec2::new(4, 5)), None);
    assert_eq!(grid.index_at_xy(Vec2::new(5, 0)), None);
    assert_eq!(grid.index_at_xy(Vec2::new(0, 5)), None);
    assert_eq!(grid.index_at_xy(Vec2::new(5, 6)), None);

    assert_eq!(grid.xy_at_index(0), Some(Vec2::new(0, 0)));
    assert_eq!(grid.xy_at_index(10), Some(Vec2::new(0, 2)));
    assert_eq!(grid.xy_at_index(17), Some(Vec2::new(2, 3)));
    assert_eq!(grid.xy_at_index(24), Some(Vec2::new(4, 4)));
    assert_eq!(grid.xy_at_index(25), None);
    assert_eq!(grid.xy_at_index(26), None);
}

#[test]
fn wrap_test() {
    let bounds = Vec2::new(5, 5);

    let pos = Vec2::new(0, 0);
    assert_eq!(Grid::wrap(&bounds, &pos), Vec2::new(0, 0));

    let pos = Vec2::new(4, 5);
    assert_eq!(Grid::wrap(&bounds, &pos), Vec2::new(4, 0));

    let pos = Vec2::new(6, 6);
    assert_eq!(Grid::wrap(&bounds, &pos), Vec2::new(1, 1));

    let pos = Vec2::new(-2, 6);
    assert_eq!(Grid::wrap(&bounds, &pos), Vec2::new(3, 1));

    let pos = Vec2::new(-3, -1);
    assert_eq!(Grid::wrap(&bounds, &pos), Vec2::new(2, 4));
}

#[test]
fn grid_iterator() {
    let grid = Grid::new(5, 5).unwrap();

    let mut cells = grid.iter();
    while let Some(pos) = cells.next() {
        println!("{:?}", pos);
    }
}

#[test]
fn grid_dimensions() {
    let grid = Grid::new(4, 3).unwrap();

    assert_eq!(grid.len(), 12);
    assert_eq!(grid.width(), 4);
    assert_eq!(grid.height(), 3);
    assert_eq!(grid.columns(), 4);
    assert_eq!(grid.rows(), 3);
    assert_eq!(grid.centre(), Vec2::new(2, 1));
    assert_eq!(grid.bounds(), &Vec2::new(4, 3));
    assert!(!grid.is_empty());

    assert!(Grid::new(0, 5).is_none());
    assert!(Grid::new(5, 0).is_none());
}

#[test]
fn default_snek() {
    let snek = Snek::default();

    assert_eq!(snek.head(), &Vec2::new(0, 0));
    assert_eq!(snek.orientation(), &Vec2::new(0, 1));
}

#[test]
fn new_snek() {
    let snek = Snek::new(Vec2::new(5, 5));

    assert_eq!(snek.head(), &Vec2::new(5, 5));
    assert_eq!(snek.orientation(), &Vec2::new(0, 1));
}

#[test]
fn snek_advance() {
    let mut prng = ChaChaSource::from_seed(0);

    let bounds = Vec2::new(10, 10);
    let mut snek = Snek::default();
    let food = Food::random(&bounds, &snek, &mut prng);

    snek.advance(&bounds, food.pos());

    assert_eq!(snek.head(), &Vec2::new(0, 1));

    snek.set_orientation(Vec2::new(-1, 0));
    snek.advance(&bounds, food.pos());

    assert_eq!(snek.head(), &Vec2::new(9, 1));

    snek.advance(&bounds, food.pos());
    assert_eq!(snek.head(), &Vec2::new(8, 1));
}

#[test]
fn snek_turning() {
    let mut snek = Snek::default();

    assert_eq!(snek.orientation(), &Vec2::new(0, 1)); // Up

    snek.turn_left();
    assert_eq!(snek.orientation(), &Vec2::new(-1, 0)); // Left

    snek.turn_left();
    assert_eq!(snek.orientation(), &Vec2::new(0, -1)); // Down

    snek.turn_left();
    assert_eq!(snek.orientation(), &Vec2::new(1, 0)); // Right

    snek.turn_left();
    assert_eq!(snek.orientation(), &Vec2::new(0, 1)); // Up

    snek.turn_right();
    assert_eq!(snek.orientation(), &Vec2::new(1, 0)); // Right

    snek.turn_right();
    assert_eq!(snek.orientation(), &Vec2::new(0, -1)); // Down

    snek.turn_right();
    assert_eq!(snek.orientation(), &Vec2::new(-1, 0)); // Left

    snek.turn_right();
    assert_eq!(snek.orientation(), &Vec2::new(0, 1)); // Up
}

#[test]
fn snek_touching_and_hitting() {
    let snek = Snek::new(Vec2::new(2, 2));

    assert!(snek.touches(&Vec2::new(2, 2)));
    assert!(!snek.touches(&Vec2::new(1, 2)));
    assert!(snek.head_is_touching(&Vec2::new(2, 2)));
    assert!(!snek.hit_self());
    assert!(snek.is_empty());
    assert_eq!(snek.len(), 0);
    assert_eq!(snek.parts(), vec![Vec2::new(2, 2)]);
}

#[test]
fn new_food() {
    let food = Food::new(Vec2::new(0, 0));

    assert_eq!(food.pos(), &Vec2::new(0, 0));
}

#[test]
fn random_food() {
    let mut prng = ChaChaSource::from_seed(0);

    let bounds = Vec2::new(10, 10);
    let snek = Snek::default();
    let food = Food::random(&bounds, &snek, &mut prng);

    let pos = *food.pos();
    assert!(pos.x() >= 0 && pos.x() < 10);
    assert!(pos.y() >= 0 && pos.y() < 10);
    assert!(!snek.touches(&pos));
}

#[test]
fn new_gamestate() {
    let prng = ChaChaSource::from_seed(0);

    let grid = Grid::new(5, 5).unwrap();
    let state = GameState::new(grid, prng);

    assert_eq!(state.grid.len(), 25);
    assert_eq!(state.snek.head(), &Vec2::new(0, 0));
    let food = *state.food.pos();
    assert!(food.x() >= 0 && food.x() < 5);
    assert!(food.y() >= 0 && food.y() < 5);
    assert!(!state.snek.touches(&food));
    assert!(state.play);
}

#[test]
fn gamestate_steps() {
    let prng = ChaChaSource::from_seed(1);

    let grid = Grid::new(6, 6).unwrap();
    let mut state = GameState::new(grid, prng);

    // One step up from the origin, wherever the food landed.
    state.step(Vec2::new(0, 1));
    assert_eq!(state.snek.head(), &Vec2::new(0, 1));
    assert!(state.play);

    // One step right.
    state.step(Vec2::new(1, 0));
    assert_eq!(state.snek.head(), &Vec2::new(1, 1));
    assert!(state.play);
}

#[test]
fn addition() {
    let v1 = Vec2::new(1, 0);
    let v2 = v1 + Vec2::new(-2, 1);

    assert_eq!(v2, Vec2::new(-1, 1));
}

#[test]
fn subtraction() {
    let v1 = Vec2::new(1, 0);
    let v2 = v1 - Vec2::new(-2, 1);

    assert_eq!(v2, Vec2::new(3, -1));
}

#[test]
fn addition_ref() {
    let v1 = &Vec2::new(1, 0);
    let v2 = v1 + &Vec2::new(-2, 1);

    assert_eq!(v2, Vec2::new(-1, 1));
}

#[test]
fn subtraction_ref() {
    let v1 = &Vec2::new(1, 0);
    let v2 = v1 - &Vec2::new(-2, 1);

    assert_eq!(v2, Vec2::new(3, -1));
}
