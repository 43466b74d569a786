//! The representation selectors for complex quantities handed to the
//! impedance and conjugate-match calculators.

use vstd::prelude::*;

use crate::strutil::str_eq;

verus! {

/// How a complex value is written: rectangular, magnitude/angle, or
/// decibel-magnitude/angle.
#[derive(Copy, Clone, Debug, PartialEq, Eq, Structural)]
pub enum ComplexType {
    ReIm,
    MagAng,
    Db,
}

/// Whether `s` names a complex-number representation.
pub open spec fn is_complex_type_str(s: Seq<char>) -> bool {
    ||| s == "ri"@ || s == "reim"@
    ||| s == "ma"@ || s == "magang"@
    ||| s == "db"@ || s == "dbang"@
}

/// The representation a recognized string names.
pub open spec fn spec_complex_type_from_str(s: Seq<char>) -> ComplexType {
    if s == "ri"@ || s == "reim"@ {
        ComplexType::ReIm
    } else if s == "ma"@ || s == "magang"@ {
        ComplexType::MagAng
    } else {
        ComplexType::Db
    }
}

impl ComplexType {
    /// Parses a representation selector; anything unrecognized is the error
    /// the calculators surface.
    pub fn from_str(s: &str) -> (r: Result<ComplexType, String>)
        ensures
            is_complex_type_str(s@) ==> (r matches Ok(t) && t == spec_complex_type_from_str(s@)),
            !is_complex_type_str(s@) ==> (r matches Err(e) && e@ == "ComplexType not recognized"@),
    {
        if str_eq(s, "ri") || str_eq(s, "reim") {
            Ok(ComplexType::ReIm)
        } else if str_eq(s, "ma") || str_eq(s, "magang") {
            Ok(ComplexType::MagAng)
        } else if str_eq(s, "db") || str_eq(s, "dbang") {
            Ok(ComplexType::Db)
        } else {
            Err("ComplexType not recognized".to_owned())
        }
    }
}

} // verus!
