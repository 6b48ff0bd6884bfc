//! The physical calibration pattern: which kind it is, and where its
//! reference points lie.

use vstd::prelude::*;
use vstd::arithmetic::div_mod::lemma_fundamental_div_mod_converse;

verus! {

/// The kinds of calibration pattern that a session can be started for.
#[derive(Clone, Copy, Debug, PartialEq, Eq, Structural)]
pub enum CalibrationType {
    ChessBoard,
    CircleGrid,
    RabbitPAruco,
}

impl CalibrationType {
    /// The kind that a selection number names: 0, 1 and 2 name the three
    /// kinds in order, every other number names none.
    pub open spec fn of_index(selected: int) -> Option<CalibrationType> {
        if selected == 0 {
            Some(CalibrationType::ChessBoard)
        } else if selected == 1 {
            Some(CalibrationType::CircleGrid)
        } else if selected == 2 {
            Some(CalibrationType::RabbitPAruco)
        } else {
            None
        }
    }

    /// Reads the kind from the number that the selection control hands over.
    pub fn from_index(selected: i32) -> (kind: Option<CalibrationType>)
        ensures
            kind == CalibrationType::of_index(selected as int),
    {
        if selected == 0 {
            Some(CalibrationType::ChessBoard)
        } else if selected == 1 {
            Some(CalibrationType::CircleGrid)
        } else if selected == 2 {
            Some(CalibrationType::RabbitPAruco)
        } else {
            None
        }
    }
}

/// One reference point of the pattern, in grid units. The pattern is flat,
/// so `z` is 0 for every point of a target.
#[derive(Clone, Copy, Debug, PartialEq, Eq, Structural)]
pub struct ReferencePoint {
    pub x: i32,
    pub y: i32,
    pub z: i32,
}

/// The reference point with the given position in scan order, on a grid with
/// `cols` columns: rows are walked one after the other, each from its first
/// column to its last.
pub open spec fn grid_point(cols: int, index: int) -> ReferencePoint {
    ReferencePoint { x: (index / cols) as i32, y: (index % cols) as i32, z: 0i32 }
}

/// Number of intersections of a grid. A grid with a non-positive side has
/// none.
pub open spec fn grid_size(rows: int, cols: int) -> nat {
    if rows <= 0 || cols <= 0 {
        0
    } else {
        (rows * cols) as nat
    }
}

/// All reference points of a grid, in scan order.
pub open spec fn grid_points(rows: int, cols: int) -> Seq<ReferencePoint> {
    Seq::new(grid_size(rows, cols), |index: int| grid_point(cols, index))
}

/// What a target is: the grid's sides and its reference points.
pub ghost struct TargetModel {
    pub rows: int,
    pub cols: int,
    pub points: Seq<ReferencePoint>,
}

impl TargetModel {
    /// The points are those of the grid, one per intersection.
    pub open spec fn valid(self) -> bool {
        self.points == grid_points(self.rows, self.cols)
    }

    /// The target of a grid with the given sides.
    pub open spec fn of_grid(rows: int, cols: int) -> TargetModel {
        TargetModel { rows, cols, points: grid_points(rows, cols) }
    }
}

/// The geometry of the pattern that a session looks for. It is built once
/// and never changes.
#[derive(Debug)]
pub struct CalibrationTarget {
    rows: i32,
    cols: i32,
    points: Vec<ReferencePoint>,
}

impl View for CalibrationTarget {
    type V = TargetModel;

    closed spec fn view(&self) -> TargetModel {
        TargetModel { rows: self.rows as int, cols: self.cols as int, points: self.points@ }
    }
}

/// Position `row * cols + col` of the scan order belongs to row `row` and
/// column `col`.
proof fn lemma_scan_position(cols: int, row: int, col: int)
    requires
        0 <= row,
        0 <= col < cols,
    ensures
        0 <= row * cols + col,
        (row * cols + col) / cols == row,
        (row * cols + col) % cols == col,
        row * cols + col < (row + 1) * cols,
{
    assert(0 <= row * cols) by (nonlinear_arith)
        requires
            0 <= row,
            0 <= cols,
    ;
    assert((row + 1) * cols == row * cols + cols) by (nonlinear_arith);
    lemma_fundamental_div_mod_converse(row * cols + col, cols, row, col);
}

impl CalibrationTarget {
    #[verifier::type_invariant]
    spec fn well_formed(self) -> bool {
        self.points@ == grid_points(self.rows as int, self.cols as int)
    }

    /// Builds the target of a grid with `rows` rows and `cols` columns: one
    /// reference point per intersection, `(row, col, 0)`, in scan order. A
    /// grid with a non-positive side has no points.
    pub fn new(rows: i32, cols: i32) -> (target: CalibrationTarget)
        ensures
            target@ == TargetModel::of_grid(rows as int, cols as int),
    {
        let mut points: Vec<ReferencePoint> = Vec::new();
        let mut row: i32 = 0;
        while row < rows
            invariant
                0 <= row,
                row <= rows || (rows < 0 && row == 0),
                cols > 0 ==> points@.len() == row * cols,
                cols <= 0 ==> points@.len() == 0,
                forall|i: int| 0 <= i < points@.len() ==> points@[i] == grid_point(cols as int, i),
            decreases rows - row,
        {
            let mut col: i32 = 0;
            while col < cols
                invariant
                    0 <= row < rows,
                    0 <= col,
                    col <= cols || cols < 0,
                    cols > 0 ==> points@.len() == row * cols + col,
                    cols <= 0 ==> points@.len() == 0,
                    forall|i: int|
                        0 <= i < points@.len() ==> points@[i] == grid_point(cols as int, i),
                decreases cols - col,
            {
                proof {
                    lemma_scan_position(cols as int, row as int, col as int);
                }
                points.push(ReferencePoint { x: row, y: col, z: 0 });
                col = col + 1;
            }
            proof {
                if cols > 0 {
                    assert((row + 1) * cols == row * cols + cols) by (nonlinear_arith);
                }
            }
            row = row + 1;
        }
        proof {
            if rows > 0 && cols > 0 {
                assert(row == rows);
            } else if cols > 0 {
                assert(row == 0);
                assert(row * cols == 0);
            }
            assert(points@.len() == grid_size(rows as int, cols as int));
            assert(points@ =~= grid_points(rows as int, cols as int));
        }
        CalibrationTarget { rows, cols, points }
    }

    /// Number of rows of the grid, as it was asked for.
    pub fn rows(&self) -> (rows: i32)
        ensures
            rows == self@.rows,
    {
        self.rows
    }

    /// Number of columns of the grid, as it was asked for.
    pub fn cols(&self) -> (cols: i32)
        ensures
            cols == self@.cols,
    {
        self.cols
    }

    /// The reference points, in scan order.
    pub fn points(&self) -> (points: &Vec<ReferencePoint>)
        ensures
            points@ == self@.points,
            self@.valid(),
    {
        proof {
            use_type_invariant(self);
        }
        &self.points
    }

    /// A second target of the same grid.
    pub fn duplicate(&self) -> (copy: CalibrationTarget)
        ensures
            copy@ == self@,
    {
        proof {
            use_type_invariant(self);
        }
        CalibrationTarget { rows: self.rows, cols: self.cols, points: copy_points(&self.points) }
    }
}

/// Copies a list of reference points.
pub fn copy_points(points: &Vec<ReferencePoint>) -> (copy: Vec<ReferencePoint>)
    ensures
        copy@ == points@,
{
    let mut copy: Vec<ReferencePoint> = Vec::new();
    let mut i: usize = 0;
    while i < points.len()
        invariant
            i <= points.len(),
            copy@ == points@.subrange(0, i as int),
        decreases points.len() - i,
    {
        copy.push(points[i]);
        proof {
            assert(copy@ =~= points@.subrange(0, i + 1));
        }
        i = i + 1;
    }
    proof {
        assert(points@.subrange(0, points@.len() as int) =~= points@);
    }
    copy
}

} // verus!
