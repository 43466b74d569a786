//! The discrete rules of the matching-network synthesis entry points: which
//! impedance representations a request may name, how a representation change
//! is planned, the outcome gates the solvers test in a fixed order, which
//! algebraic root the Q-constrained L-section keeps, and the all-or-nothing
//! realizability gate.

use vstd::prelude::*;

use crate::strutil::str_eq;

verus! {

/// The representation a port impedance pair is given in: impedance,
/// admittance, reflection coefficient (polar or rectangular), or a parallel
/// resistance-capacitance pair.
#[derive(Copy, Clone, Debug, PartialEq, Eq, Structural)]
pub enum ImpedanceFormat {
    Zri,
    Yri,
    Gma,
    Gri,
    Rc,
}

/// Whether the two ports are single-ended values or a differential pair to
/// be halved.
#[derive(Copy, Clone, Debug, PartialEq, Eq, Structural)]
pub enum LineScale {
    Diff,
    Se,
}

/// Whether `s` names an impedance representation.
pub open spec fn is_impedance_format_str(s: Seq<char>) -> bool {
    s == "zri"@ || s == "yri"@ || s == "gma"@ || s == "gri"@ || s == "rc"@
}

/// The representation a recognized string names.
pub open spec fn spec_impedance_format_from_str(s: Seq<char>) -> ImpedanceFormat {
    if s == "zri"@ {
        ImpedanceFormat::Zri
    } else if s == "yri"@ {
        ImpedanceFormat::Yri
    } else if s == "gma"@ {
        ImpedanceFormat::Gma
    } else if s == "gri"@ {
        ImpedanceFormat::Gri
    } else {
        ImpedanceFormat::Rc
    }
}

/// Whether `s` names a line scale.
pub open spec fn is_line_scale_str(s: Seq<char>) -> bool {
    s == "diff"@ || s == "se"@
}

/// The line scale a recognized string names.
pub open spec fn spec_line_scale_from_str(s: Seq<char>) -> LineScale {
    if s == "diff"@ {
        LineScale::Diff
    } else {
        LineScale::Se
    }
}

/// Parses an impedance-representation selector.
pub fn impedance_format_from_str(s: &str) -> (r: Option<ImpedanceFormat>)
    ensures
        is_impedance_format_str(s@) ==> r == Some(spec_impedance_format_from_str(s@)),
        !is_impedance_format_str(s@) ==> r is None,
{
    if str_eq(s, "zri") {
        Some(ImpedanceFormat::Zri)
    } else if str_eq(s, "yri") {
        Some(ImpedanceFormat::Yri)
    } else if str_eq(s, "gma") {
        Some(ImpedanceFormat::Gma)
    } else if str_eq(s, "gri") {
        Some(ImpedanceFormat::Gri)
    } else if str_eq(s, "rc") {
        Some(ImpedanceFormat::Rc)
    } else {
        None
    }
}

/// Parses a line-scale selector.
pub fn line_scale_from_str(s: &str) -> (r: Option<LineScale>)
    ensures
        is_line_scale_str(s@) ==> r == Some(spec_line_scale_from_str(s@)),
        !is_line_scale_str(s@) ==> r is None,
{
    if str_eq(s, "diff") {
        Some(LineScale::Diff)
    } else if str_eq(s, "se") {
        Some(LineScale::Se)
    } else {
        None
    }
}

/// Validates the selectors of a synthesis request: the request is served
/// exactly when both the impedance representation and the line scale are
/// recognized, and is otherwise the error the calculator reports.
pub fn networks_request(imp: &str, z_scale: &str) -> (r: Result<
    (ImpedanceFormat, LineScale),
    String,
>)
    ensures
        is_impedance_format_str(imp@) && is_line_scale_str(z_scale@) ==> r == Ok::<_, String>(
            (spec_impedance_format_from_str(imp@), spec_line_scale_from_str(z_scale@)),
        ),
        !(is_impedance_format_str(imp@) && is_line_scale_str(z_scale@)) ==> (r matches Err(e)
            && e@ == "Impedance type not recognized"@),
{
    let f = impedance_format_from_str(imp);
    let s = line_scale_from_str(z_scale);
    match (f, s) {
        (Some(f), Some(s)) => Ok((f, s)),
        _ => Err("Impedance type not recognized".to_owned()),
    }
}

/// How a representation-change request is carried out: left alone when the
/// source and target representations are written identically, otherwise
/// converted between two recognized representations.
#[derive(Copy, Clone, Debug, PartialEq, Eq, Structural)]
pub enum ImpedancePlan {
    Keep,
    Convert(ImpedanceFormat, ImpedanceFormat),
}

/// Plans a representation change: equal selector strings pass the values
/// through untouched (whatever they say); otherwise both must name a
/// representation, and the plan converts from the one to the other.
pub fn change_impedance_plan(imp_in: &str, imp_out: &str) -> (r: Result<ImpedancePlan, String>)
    ensures
        imp_in@ == imp_out@ ==> r == Ok::<_, String>(ImpedancePlan::Keep),
        imp_in@ != imp_out@ && is_impedance_format_str(imp_in@) && is_impedance_format_str(imp_out@)
            ==> r == Ok::<_, String>(
            ImpedancePlan::Convert(
                spec_impedance_format_from_str(imp_in@),
                spec_impedance_format_from_str(imp_out@),
            ),
        ),
        imp_in@ != imp_out@ && !(is_impedance_format_str(imp_in@) && is_impedance_format_str(
            imp_out@,
        )) ==> (r matches Err(e) && e@ == "impedance unit(s) not recognized"@),
{
    if str_eq(imp_in, imp_out) {
        return Ok(ImpedancePlan::Keep);
    }
    match (impedance_format_from_str(imp_in), impedance_format_from_str(imp_out)) {
        (Some(fi), Some(fo)) => Ok(ImpedancePlan::Convert(fi, fo)),
        _ => Err("impedance unit(s) not recognized".to_owned()),
    }
}

/// What an L-section solver does with a request.
#[derive(Copy, Clone, Debug, PartialEq, Eq, Structural)]
pub enum EllOutcome {
    /// The ports are already a conjugate pair: the all-zero network.
    Matched,
    /// The virtual-resistance test fails: every numeric field is blanked.
    Infeasible,
    /// The two reactances are solved for.
    Solve,
}

/// The decision of the L-section solvers, in the order they test it: a
/// source and load with equal resistances and opposite equal reactances
/// are already matched and get the all-zero network; otherwise a port
/// resistance above the other port's virtual parallel resistance cannot be
/// matched, and every numeric field of the result is blanked at once;
/// otherwise the network is solved for.
pub fn ell_outcome(conjugate_pair: bool, resistance_exceeds_parallel: bool) -> (r: EllOutcome)
    ensures
        conjugate_pair ==> r == EllOutcome::Matched,
        !conjugate_pair && resistance_exceeds_parallel ==> r == EllOutcome::Infeasible,
        !conjugate_pair && !resistance_exceeds_parallel ==> r == EllOutcome::Solve,
{
    if conjugate_pair {
        EllOutcome::Matched
    } else if resistance_exceeds_parallel {
        EllOutcome::Infeasible
    } else {
        EllOutcome::Solve
    }
}

/// What a Pi or Tee solver does with a request.
#[derive(Copy, Clone, Debug, PartialEq, Eq, Structural)]
pub enum PiTeeOutcome {
    /// A negative or too-small target Q: every numeric field is blanked.
    Unrealizable,
    /// Zero target Q between equal resistances: the all-zero network.
    Trivial,
    /// The three reactances are solved for.
    Solve,
}

/// The decision of the Pi and Tee solvers, in the order they test it: a
/// negative target Q is refused outright; a zero target Q between ports of
/// equal resistance is the trivial all-zero network; a target Q below the
/// minimum the port resistance ratio implies is unrealizable, and every
/// numeric field of the result is blanked at once; anything else is solved.
pub fn pi_tee_outcome(
    q_negative: bool,
    q_zero: bool,
    equal_resistances: bool,
    q_below_minimum: bool,
) -> (r: PiTeeOutcome)
    ensures
        q_negative ==> r == PiTeeOutcome::Unrealizable,
        !q_negative && q_zero && equal_resistances ==> r == PiTeeOutcome::Trivial,
        !q_negative && !(q_zero && equal_resistances) && q_below_minimum ==> r
            == PiTeeOutcome::Unrealizable,
        !q_negative && !(q_zero && equal_resistances) && !q_below_minimum ==> r
            == PiTeeOutcome::Solve,
{
    if q_negative {
        PiTeeOutcome::Unrealizable
    } else if q_zero && equal_resistances {
        PiTeeOutcome::Trivial
    } else if q_below_minimum {
        PiTeeOutcome::Unrealizable
    } else {
        PiTeeOutcome::Solve
    }
}

/// The root selection of the Q-constrained ("elliptic") L-section solvers.
///
/// Two algebraic roots solve the constrained match; they are not
/// interchangeable. The solver keeps root 2 when the shunt-susceptance root
/// came out non-negative or the series-reactance root came out negative,
/// and root 1 otherwise, and records the choice in the result.
pub fn ell_q_solution_index(shunt_root_nonneg: bool, series_root_neg: bool) -> (i: usize)
    ensures
        i == if shunt_root_nonneg || series_root_neg {
            2usize
        } else {
            1usize
        },
        i == 1 || i == 2,
{
    if shunt_root_nonneg || series_root_neg {
        2
    } else {
        1
    }
}

/// The all-or-nothing realizability gate of every solver: given the
/// negativity of each synthesized element value, says whether the network
/// is discarded. A network with any negative element is unrealizable, and
/// discarding blanks every numeric field at once, never a subset.
pub fn any_negative(flags: &Vec<bool>) -> (r: bool)
    ensures
        r == exists|j: int| 0 <= j < flags@.len() && flags@[j],
{
    let mut i: usize = 0;
    while i < flags.len()
        invariant
            i <= flags@.len(),
            forall|j: int| 0 <= j < i ==> !flags@[j],
        decreases flags@.len() - i,
    {
        if flags[i] {
            return true;
        }
        i += 1;
    }
    false
}

} // verus!
