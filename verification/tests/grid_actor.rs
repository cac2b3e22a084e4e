use gridflow::actor::{ActorController, Direction, Facing};
use gridflow::grid::{create_board, GridCoordinate, DEFAULT_CELL_HEIGHT_MILLI};
use gridflow::GameError;

#[test]
fn create_board_rejects_zero_rows() {
    assert_eq!(create_board(0, 6).err(), Some(GameError::InvalidDimensions));
}

#[test]
fn create_board_rejects_zero_cols() {
    assert_eq!(create_board(6, 0).err(), Some(GameError::InvalidDimensions));
}

#[test]
fn create_board_fills_default_heights() {
    let board = create_board(6, 6).unwrap();
    assert_eq!(board.rows(), 6);
    assert_eq!(board.cols(), 6);
    for row in 0..6 {
        for col in 0..6 {
            let h = board.cell_height(GridCoordinate { row, col }).unwrap();
            assert_eq!(h, DEFAULT_CELL_HEIGHT_MILLI);
        }
    }
}

#[test]
fn cell_height_reports_out_of_bounds() {
    let board = create_board(4, 3).unwrap();
    let bad = GridCoordinate { row: 4, col: 0 };
    assert_eq!(board.cell_height(bad).err(), Some(GameError::OutOfBoundsCoordinate));
    let bad = GridCoordinate { row: 0, col: 3 };
    assert_eq!(board.cell_height(bad).err(), Some(GameError::OutOfBoundsCoordinate));
}

#[test]
fn clamp_projects_componentwise() {
    let board = create_board(6, 6).unwrap();
    assert_eq!(board.clamp(7, 2), GridCoordinate { row: 5, col: 2 });
    assert_eq!(board.clamp(3, 9), GridCoordinate { row: 3, col: 5 });
    assert_eq!(board.clamp(0, 0), GridCoordinate { row: 0, col: 0 });
    assert_eq!(board.clamp(9, 9), GridCoordinate { row: 5, col: 5 });
}

#[test]
fn clamp_is_stable() {
    let board = create_board(6, 6).unwrap();
    let once = board.clamp(11, 8);
    let twice = board.clamp(once.row, once.col);
    assert_eq!(once, twice);
}

#[test]
fn actor_starts_on_first_row_middle_column() {
    let board = create_board(6, 6).unwrap();
    let actor = ActorController::new(&board);
    assert_eq!(actor.pose().position, GridCoordinate { row: 0, col: 3 });
    assert_eq!(actor.pose().facing, Facing::North);
}

#[test]
fn moving_right_clamps_at_last_column() {
    let board = create_board(6, 6).unwrap();
    let mut actor = ActorController::new(&board);
    assert_eq!(actor.pose().position, GridCoordinate { row: 0, col: 3 });
    for _ in 0..3 {
        actor.apply_move(&board, Direction::Right);
    }
    assert_eq!(actor.pose().position, GridCoordinate { row: 0, col: 5 });
    actor.apply_move(&board, Direction::Right);
    assert_eq!(actor.pose().position, GridCoordinate { row: 0, col: 5 });
    assert_eq!(actor.pose().facing, Facing::East);
}

#[test]
fn moving_up_repeatedly_stays_on_last_row() {
    let board = create_board(6, 6).unwrap();
    let mut actor = ActorController::new(&board);
    for _ in 0..5 {
        actor.apply_move(&board, Direction::Up);
    }
    assert_eq!(actor.pose().position.row, 5);
    for _ in 0..4 {
        actor.apply_move(&board, Direction::Up);
        assert_eq!(actor.pose().position.row, 5);
        assert_eq!(actor.pose().facing, Facing::North);
    }
}

#[test]
fn moving_down_saturates_at_first_row() {
    let board = create_board(6, 6).unwrap();
    let mut actor = ActorController::new(&board);
    actor.apply_move(&board, Direction::Down);
    assert_eq!(actor.pose().position.row, 0);
    assert_eq!(actor.pose().facing, Facing::South);
}

#[test]
fn every_direction_keeps_actor_on_board() {
    let dirs = [Direction::Up, Direction::Down, Direction::Left, Direction::Right];
    let board = create_board(3, 4).unwrap();
    for start_row in 0..3 {
        for start_col in 0..4 {
            for dir in dirs {
                let mut actor = ActorController::new(&board);
                // Walk the actor to the start cell with in-bounds moves.
                for _ in 0..3 {
                    actor.apply_move(&board, Direction::Down);
                }
                for _ in 0..4 {
                    actor.apply_move(&board, Direction::Left);
                }
                for _ in 0..start_row {
                    actor.apply_move(&board, Direction::Up);
                }
                for _ in 0..start_col {
                    actor.apply_move(&board, Direction::Right);
                }
                assert_eq!(
                    actor.pose().position,
                    GridCoordinate { row: start_row, col: start_col }
                );
                actor.apply_move(&board, dir);
                let pose = actor.pose();
                assert!(pose.position.row < 3);
                assert!(pose.position.col < 4);
                assert_eq!(pose.facing, dir.facing());
            }
        }
    }
}

#[test]
fn facing_yaw_quarter_turns() {
    assert_eq!(Facing::West.quarter_turns(), 0);
    assert_eq!(Facing::South.quarter_turns(), 1);
    assert_eq!(Facing::East.quarter_turns(), 2);
    assert_eq!(Facing::North.quarter_turns(), 3);
}

#[test]
fn direction_orientations() {
    assert_eq!(Direction::Up.facing(), Facing::North);
    assert_eq!(Direction::Down.facing(), Facing::South);
    assert_eq!(Direction::Right.facing(), Facing::East);
    assert_eq!(Direction::Left.facing(), Facing::West);
}
