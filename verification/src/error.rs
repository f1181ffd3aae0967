//! The geometry core's error kinds and the input-boundary check.

use vstd::prelude::*;

verus! {

/// A failure of one derived computation, returned to the caller so that
/// independent inputs can still be processed.
#[derive(Clone, Copy, Debug, PartialEq, Eq, Structural)]
pub enum GeomError {
    /// The declared atom count disagrees with the number of records supplied.
    RecordCountMismatch,
    /// Fewer atoms than the requested operation needs: under 2 for bond
    /// lengths, under 3 for bond angles.
    InsufficientAtoms,
    /// A zero-length arm or colinear reference atoms leave an angle
    /// undefined.
    DegenerateGeometry,
}

impl GeomError {
    /// A short description of the error, for callers that print it.
    pub fn describe(&self) -> (r: &'static str)
        ensures
            self is RecordCountMismatch ==> r@ == "number of atoms != number of data points"@,
            self is InsufficientAtoms ==> r@ == "too few atoms for the requested operation"@,
            self is DegenerateGeometry ==> r@ == "degenerate geometry: angle undefined"@,
    {
        match self {
            GeomError::RecordCountMismatch => "number of atoms != number of data points",
            GeomError::InsufficientAtoms => "too few atoms for the requested operation",
            GeomError::DegenerateGeometry => "degenerate geometry: angle undefined",
        }
    }
}

/// The contract between the input parser and the core: the number of records
/// actually supplied must equal the count the header declared.
pub fn validate_record_count(declared: usize, supplied: usize) -> (r: Result<(), GeomError>)
    ensures
        r is Ok <==> declared == supplied,
        r is Err ==> r == Err::<(), GeomError>(GeomError::RecordCountMismatch),
{
    if declared == supplied {
        Ok(())
    } else {
        Err(GeomError::RecordCountMismatch)
    }
}

} // verus!
