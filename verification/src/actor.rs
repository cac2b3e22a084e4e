//! The actor controller: turns decoded directional input into one-cell
//! grid moves with boundary clamping, and keeps the actor's facing.

use vstd::prelude::*;

use crate::grid::{clamp_index, Board, GridCoordinate};

verus! {

/// One decoded movement request: a single discrete input edge, asking
/// for one cell of displacement in the named direction.
#[derive(Clone, Copy, Debug, PartialEq, Eq, Structural)]
pub enum Direction {
    Up,
    Down,
    Left,
    Right,
}

/// The four orientations an actor can face, one per movement direction.
#[derive(Clone, Copy, Debug, PartialEq, Eq, Structural)]
pub enum Facing {
    North,
    South,
    East,
    West,
}

impl Direction {
    /// The orientation an actor assumes after a move this way.
    pub open spec fn spec_facing(self) -> Facing {
        match self {
            Direction::Up => Facing::North,
            Direction::Down => Facing::South,
            Direction::Right => Facing::East,
            Direction::Left => Facing::West,
        }
    }

    #[verifier::when_used_as_spec(spec_facing)]
    pub fn facing(self) -> (f: Facing)
        ensures
            f == self.spec_facing(),
    {
        match self {
            Direction::Up => Facing::North,
            Direction::Down => Facing::South,
            Direction::Right => Facing::East,
            Direction::Left => Facing::West,
        }
    }
}

impl Facing {
    /// Yaw of this orientation, counted in quarter turns; a renderer
    /// multiplies by a quarter turn (90 degrees) to recover the
    /// rotation angle. West is the zero orientation; North, three
    /// quarter turns, is equivalently minus one quarter turn.
    pub open spec fn spec_quarter_turns(self) -> u8 {
        match self {
            Facing::West => 0,
            Facing::South => 1,
            Facing::East => 2,
            Facing::North => 3,
        }
    }

    #[verifier::when_used_as_spec(spec_quarter_turns)]
    pub fn quarter_turns(self) -> (q: u8)
        ensures
            q == self.spec_quarter_turns(),
    {
        match self {
            Facing::West => 0,
            Facing::South => 1,
            Facing::East => 2,
            Facing::North => 3,
        }
    }
}

/// The actor's full pose: where it stands and which way it faces.
#[derive(Clone, Copy, Debug, PartialEq, Eq, Structural)]
pub struct ActorPose {
    pub position: GridCoordinate,
    pub facing: Facing,
}

/// The row after one move in `dir` from `row` on a board of `rows`
/// rows: up steps toward the last row and clamps there, down steps
/// toward row zero and saturates there, the other directions leave the
/// row alone.
pub open spec fn moved_row(row: int, dir: Direction, rows: int) -> int {
    match dir {
        Direction::Up => clamp_index(row + 1, rows),
        Direction::Down => if row > 0 {
            row - 1
        } else {
            0
        },
        Direction::Left => row,
        Direction::Right => row,
    }
}

/// The column after one move in `dir` from `col` on a board of `cols`
/// columns, mirroring `moved_row`.
pub open spec fn moved_col(col: int, dir: Direction, cols: int) -> int {
    match dir {
        Direction::Right => clamp_index(col + 1, cols),
        Direction::Left => if col > 0 {
            col - 1
        } else {
            0
        },
        Direction::Up => col,
        Direction::Down => col,
    }
}

/// The row after `n` consecutive upward moves.
pub open spec fn rows_moved_up(n: nat, row: int, rows: int) -> int
    decreases n,
{
    if n == 0 {
        row
    } else {
        moved_row(rows_moved_up((n - 1) as nat, row, rows), Direction::Up, rows)
    }
}

/// Law: the top boundary is a fixed point — an actor on the last row
/// that keeps moving up stays on the last row, however often it tries.
pub proof fn lemma_up_repeated_at_top(n: nat, rows: int)
    requires
        1 <= rows,
    ensures
        rows_moved_up(n, rows - 1, rows) == rows - 1,
    decreases n,
{
    if n > 0 {
        lemma_up_repeated_at_top((n - 1) as nat, rows);
    }
}

/// Holds the current actor pose and applies movement requests to it.
pub struct ActorController {
    pose: ActorPose,
}

impl ActorController {
    pub closed spec fn spec_pose(self) -> ActorPose {
        self.pose
    }

    /// Places a fresh actor on the board's canonical start cell: the
    /// first row, middle column, facing north.
    pub fn new(board: &Board) -> (c: ActorController)
        requires
            board.wf(),
        ensures
            c.spec_pose().position.row == 0,
            c.spec_pose().position.col == board.spec_cols() / 2,
            c.spec_pose().facing == Facing::North,
            board.contains(c.spec_pose().position),
    {
        proof {
            board.lemma_dims();
        }
        let col = board.cols() / 2;
        ActorController {
            pose: ActorPose {
                position: GridCoordinate { row: 0, col },
                facing: Facing::North,
            },
        }
    }

    pub fn pose(&self) -> (p: ActorPose)
        ensures
            p == self.spec_pose(),
    {
        self.pose
    }

    /// The grid cell the actor currently stands on.
    pub fn actor_position(&self) -> (p: GridCoordinate)
        ensures
            p == self.spec_pose().position,
    {
        self.pose.position
    }

    /// Applies one movement request: offsets the position by one cell
    /// along the direction's axis, clamps it onto the board, and sets
    /// the facing to the direction's orientation — even when clamping
    /// left the position where it was.
    pub fn apply_move(&mut self, board: &Board, dir: Direction)
        requires
            board.wf(),
            board.contains(old(self).spec_pose().position),
        ensures
            final(self).spec_pose().position.row == moved_row(
                old(self).spec_pose().position.row as int,
                dir,
                board.spec_rows() as int,
            ),
            final(self).spec_pose().position.col == moved_col(
                old(self).spec_pose().position.col as int,
                dir,
                board.spec_cols() as int,
            ),
            final(self).spec_pose().facing == dir.spec_facing(),
            // Never leaves the board.
            board.contains(final(self).spec_pose().position),
            // At most one cell of displacement, on one axis only.
            final(self).spec_pose().position.row - old(self).spec_pose().position.row <= 1,
            old(self).spec_pose().position.row - final(self).spec_pose().position.row <= 1,
            final(self).spec_pose().position.col - old(self).spec_pose().position.col <= 1,
            old(self).spec_pose().position.col - final(self).spec_pose().position.col <= 1,
            final(self).spec_pose().position.row != old(self).spec_pose().position.row
                ==> final(self).spec_pose().position.col
                == old(self).spec_pose().position.col,
    {
        let pos = self.pose.position;
        let candidate_row = match dir {
            Direction::Up => pos.row + 1,
            Direction::Down => if pos.row > 0 {
                pos.row - 1
            } else {
                0
            },
            Direction::Left => pos.row,
            Direction::Right => pos.row,
        };
        let candidate_col = match dir {
            Direction::Right => pos.col + 1,
            Direction::Left => if pos.col > 0 {
                pos.col - 1
            } else {
                0
            },
            Direction::Up => pos.col,
            Direction::Down => pos.col,
        };
        let clamped = board.clamp(candidate_row, candidate_col);
        self.pose = ActorPose { position: clamped, facing: dir.facing() };
    }
}

} // verus!
