//! What the calibration solver hands back.

use vstd::prelude::*;

verus! {

/// What a calibration result is: the nine entries of the intrinsic matrix,
/// row by row, and the distortion coefficients.
pub ghost struct ResultModel {
    pub intrinsics: Seq<u64>,
    pub distortion: Seq<u64>,
}

/// The outcome of a successful solve: the camera's 3x3 intrinsic matrix, row
/// by row, and its distortion coefficients. Every number is kept as the 64
/// bits of a double-precision number.
#[derive(Debug, PartialEq, Eq)]
pub struct CalibrationResult {
    pub intrinsics: [u64; 9],
    pub distortion: Vec<u64>,
}

impl View for CalibrationResult {
    type V = ResultModel;

    open spec fn view(&self) -> ResultModel {
        ResultModel { intrinsics: self.intrinsics@, distortion: self.distortion@ }
    }
}

impl CalibrationResult {
    /// The entry of the intrinsic matrix in the given row and column, both
    /// counted from 0; `None` outside the matrix.
    pub fn intrinsic(&self, row: usize, col: usize) -> (entry: Option<u64>)
        ensures
            row < 3 && col < 3 ==> entry == Some(self@.intrinsics[row * 3 + col]),
            !(row < 3 && col < 3) ==> entry is None,
    {
        if row < 3 && col < 3 {
            Some(self.intrinsics[row * 3 + col])
        } else {
            None
        }
    }

    /// A second result with the same numbers.
    pub fn duplicate(&self) -> (copy: CalibrationResult)
        ensures
            copy@ == self@,
    {
        let mut distortion: Vec<u64> = Vec::new();
        let mut i: usize = 0;
        while i < self.distortion.len()
            invariant
                i <= self.distortion.len(),
                distortion@ == self.distortion@.subrange(0, i as int),
            decreases self.distortion.len() - i,
        {
            distortion.push(self.distortion[i]);
            proof {
                assert(distortion@ =~= self.distortion@.subrange(0, i + 1));
            }
            i = i + 1;
        }
        proof {
            assert(self.distortion@.subrange(0, self.distortion@.len() as int)
                =~= self.distortion@);
        }
        CalibrationResult { intrinsics: self.intrinsics, distortion }
    }
}

/// What the calibration solver says of a full sample set.
#[derive(Debug, PartialEq, Eq)]
pub enum SolverOutcome {
    /// The solve converged.
    Solved(CalibrationResult),
    /// The solve did not converge, or the samples do not determine the
    /// camera; the text says why.
    Failed(String),
}

} // verus!
