use vstd::prelude::*;

verus! {

/// Width of one padded base-field element.
pub const FP_WIDTH: usize = 64;

/// Width of one padded G1 point (two base-field coordinates).
pub const G1_POINT_WIDTH: usize = 128;

/// Width of one padded G2 point (two coordinates in the quadratic extension).
pub const G2_POINT_WIDTH: usize = 256;

/// Width of the pairing check's answer: a 32-byte word holding 0 or 1.
pub const PAIRING_RESULT_WIDTH: usize = 32;

/// The seven operations that the boundary exposes.
#[derive(Clone, Copy, Debug, PartialEq, Eq, Structural)]
pub enum Operation {
    G1Add,
    G1Msm,
    MapFpToG1,
    G2Add,
    G2Msm,
    MapFp2ToG2,
    Pairing,
}

impl Operation {
    /// Input lengths that the engine does not reject outright: a fixed width
    /// for additions and maps, a positive number of whole records for the
    /// multi-scalar multiplications and the pairing (a G1 record is a point and
    /// a scalar, 160 bytes; a G2 record 288 bytes; a pairing record a G1 point
    /// and a G2 point, 384 bytes).
    pub open spec fn accepts_length(self, n: nat) -> bool {
        match self {
            Operation::G1Add => n == 2 * G1_POINT_WIDTH,
            Operation::G2Add => n == 2 * G2_POINT_WIDTH,
            Operation::MapFpToG1 => n == FP_WIDTH,
            Operation::MapFp2ToG2 => n == 2 * FP_WIDTH,
            Operation::G1Msm => n > 0 && n % 160 == 0,
            Operation::G2Msm => n > 0 && n % 288 == 0,
            Operation::Pairing => n > 0 && n % 384 == 0,
        }
    }

    /// The width of every successful result of the operation.
    pub open spec fn result_width(self) -> nat {
        match self {
            Operation::G1Add | Operation::G1Msm | Operation::MapFpToG1 => G1_POINT_WIDTH as nat,
            Operation::G2Add | Operation::G2Msm | Operation::MapFp2ToG2 => G2_POINT_WIDTH as nat,
            Operation::Pairing => PAIRING_RESULT_WIDTH as nat,
        }
    }

    /// The shape of every successful result: the operation's width, and for
    /// the pairing check a word whose only nonzero byte can be a final 1.
    pub open spec fn result_shape(self, r: Seq<u8>) -> bool {
        &&& r.len() == self.result_width()
        &&& self == Operation::Pairing ==> (forall|i: int| 0 <= i < r.len() - 1 ==> r[i] == 0)
            && r[r.len() - 1] <= 1
    }
}

} // verus!
