//! The discrete side of the Smith-chart arc samplers: which sweep a named
//! arc type performs, which formula the impedance calculator applies to a
//! tagged element, and the breakpoint scan of the black-box impedance
//! lookup table.

use vstd::prelude::*;

use crate::strutil::str_eq;

verus! {

/// The sweep an arc sampler performs: a transmission line sweeps electrical
/// length through the line equation, the stubs sweep the susceptance they
/// add, and everything else interpolates linearly between two normalized
/// impedances.
#[derive(Copy, Clone, Debug, PartialEq, Eq, Structural)]
pub enum ArcSweep {
    TransmissionLine,
    ShortedStub,
    OpenStub,
    Linear,
}

/// The sweep each arc-type tag selects; an unknown tag falls back to the
/// linear interpolation sweep.
pub open spec fn spec_arc_sweep_from_str(s: Seq<char>) -> ArcSweep {
    if s == "transmission_line"@ {
        ArcSweep::TransmissionLine
    } else if s == "ss"@ {
        ArcSweep::ShortedStub
    } else if s == "so"@ {
        ArcSweep::OpenStub
    } else {
        ArcSweep::Linear
    }
}

/// Resolves an arc-type tag. Resolution is total: the linear sweep is the
/// default.
pub fn arc_sweep_from_str(s: &str) -> (r: ArcSweep)
    ensures
        r == spec_arc_sweep_from_str(s@),
{
    if str_eq(s, "transmission_line") {
        ArcSweep::TransmissionLine
    } else if str_eq(s, "ss") {
        ArcSweep::ShortedStub
    } else if str_eq(s, "so") {
        ArcSweep::OpenStub
    } else {
        ArcSweep::Linear
    }
}

/// The impedance formula the point calculator applies to a tagged element.
/// Tags that share a formula share a variant: "sr"/"pr" are a plain
/// resistance, "sc"/"pc" a lossy capacitor, "si"/"pi" a lossy inductor, and
/// the line family "tl"/"so"/"ss" only unscales its physical length.
#[derive(Copy, Clone, Debug, PartialEq, Eq, Structural)]
pub enum RiFormula {
    BlackBox,
    Resistor,
    Capacitor,
    Inductor,
    Transformer,
    Rlc,
    ResistorInductor,
    ResistorCapacitor,
    Line,
    CustomZ,
}

/// The formula each point-calculator tag selects.
pub open spec fn spec_ri_formula_from_str(s: Seq<char>) -> Option<RiFormula> {
    if s == "bb"@ {
        Some(RiFormula::BlackBox)
    } else if s == "sr"@ || s == "pr"@ {
        Some(RiFormula::Resistor)
    } else if s == "sc"@ || s == "pc"@ {
        Some(RiFormula::Capacitor)
    } else if s == "si"@ || s == "pi"@ {
        Some(RiFormula::Inductor)
    } else if s == "xfmr"@ {
        Some(RiFormula::Transformer)
    } else if s == "rlc"@ {
        Some(RiFormula::Rlc)
    } else if s == "rl"@ {
        Some(RiFormula::ResistorInductor)
    } else if s == "rc"@ {
        Some(RiFormula::ResistorCapacitor)
    } else if s == "tl"@ || s == "so"@ || s == "ss"@ {
        Some(RiFormula::Line)
    } else if s == "customZ"@ {
        Some(RiFormula::CustomZ)
    } else {
        None
    }
}

/// Resolves a point-calculator tag; an unknown tag is the error the
/// calculator reports.
pub fn ri_formula_from_str(s: &str) -> (r: Result<RiFormula, String>)
    ensures
        spec_ri_formula_from_str(s@) matches Some(f) ==> r == Ok::<_, String>(f),
        spec_ri_formula_from_str(s@) is None ==> (r matches Err(e) && e@
            == "element not recognized"@),
{
    if str_eq(s, "bb") {
        Ok(RiFormula::BlackBox)
    } else if str_eq(s, "sr") || str_eq(s, "pr") {
        Ok(RiFormula::Resistor)
    } else if str_eq(s, "sc") || str_eq(s, "pc") {
        Ok(RiFormula::Capacitor)
    } else if str_eq(s, "si") || str_eq(s, "pi") {
        Ok(RiFormula::Inductor)
    } else if str_eq(s, "xfmr") {
        Ok(RiFormula::Transformer)
    } else if str_eq(s, "rlc") {
        Ok(RiFormula::Rlc)
    } else if str_eq(s, "rl") {
        Ok(RiFormula::ResistorInductor)
    } else if str_eq(s, "rc") {
        Ok(RiFormula::ResistorCapacitor)
    } else if str_eq(s, "tl") || str_eq(s, "so") || str_eq(s, "ss") {
        Ok(RiFormula::Line)
    } else if str_eq(s, "customZ") {
        Ok(RiFormula::CustomZ)
    } else {
        Err("element not recognized".to_owned())
    }
}

/// The formula that evaluates each element kind's impedance.
pub open spec fn spec_formula_for_kind(k: crate::element::ElementKind) -> RiFormula {
    match k {
        crate::element::ElementKind::Resistor => RiFormula::Resistor,
        crate::element::ElementKind::Capacitor => RiFormula::Capacitor,
        crate::element::ElementKind::Inductor => RiFormula::Inductor,
        crate::element::ElementKind::Rlc => RiFormula::Rlc,
        crate::element::ElementKind::Transformer => RiFormula::Transformer,
        crate::element::ElementKind::TransmissionLine => RiFormula::Line,
        crate::element::ElementKind::OpenStub => RiFormula::Line,
        crate::element::ElementKind::ShortedStub => RiFormula::Line,
        crate::element::ElementKind::BlackBox => RiFormula::BlackBox,
    }
}

/// The two tag tables agree: every tag the chart tool resolves to an
/// element kind is resolved by the point calculator to that same kind's
/// impedance formula.
pub proof fn lemma_tag_tables_agree(s: Seq<char>)
    ensures
        crate::element::spec_element_from_tag(s) matches Some(ko) ==> spec_ri_formula_from_str(s)
            == Some(spec_formula_for_kind(ko.0)),
{
    reveal_strlit("si");
    reveal_strlit("pi");
    reveal_strlit("sc");
    reveal_strlit("pc");
    reveal_strlit("sr");
    reveal_strlit("pr");
    reveal_strlit("rlc");
    reveal_strlit("bb");
    reveal_strlit("tl");
    reveal_strlit("ss");
    reveal_strlit("so");
    reveal_strlit("xfmr");
    reveal_strlit("rl");
    reveal_strlit("rc");
    reveal_strlit("customZ");
    // Both characters of each two-character tag, so that any two distinct
    // tags of equal length are told apart.
    assert("si"@[0] == 's' && "si"@[1] == 'i');
    assert("pi"@[0] == 'p' && "pi"@[1] == 'i');
    assert("sc"@[0] == 's' && "sc"@[1] == 'c');
    assert("pc"@[0] == 'p' && "pc"@[1] == 'c');
    assert("sr"@[0] == 's' && "sr"@[1] == 'r');
    assert("pr"@[0] == 'p' && "pr"@[1] == 'r');
    assert("bb"@[0] == 'b' && "bb"@[1] == 'b');
    assert("tl"@[0] == 't' && "tl"@[1] == 'l');
    assert("ss"@[0] == 's' && "ss"@[1] == 's');
    assert("so"@[0] == 's' && "so"@[1] == 'o');
    assert("rl"@[0] == 'r' && "rl"@[1] == 'l');
    assert("rc"@[0] == 'r' && "rc"@[1] == 'c');
    if s == "si"@ || s == "pi"@ {
        assert(spec_ri_formula_from_str(s) == Some(RiFormula::Inductor));
    } else if s == "sc"@ || s == "pc"@ {
        assert(spec_ri_formula_from_str(s) == Some(RiFormula::Capacitor));
    } else if s == "sr"@ || s == "pr"@ {
        assert(spec_ri_formula_from_str(s) == Some(RiFormula::Resistor));
    } else if s == "rlc"@ {
        assert("rlc"@.len() == 3 && "xfmr"@.len() == 4 && "customZ"@.len() == 7);
        assert(spec_ri_formula_from_str(s) == Some(RiFormula::Rlc));
    } else if s == "bb"@ {
        assert(spec_ri_formula_from_str(s) == Some(RiFormula::BlackBox));
    } else if s == "tl"@ || s == "ss"@ || s == "so"@ {
        assert(spec_ri_formula_from_str(s) == Some(RiFormula::Line));
    } else if s == "xfmr"@ {
        assert(spec_ri_formula_from_str(s) == Some(RiFormula::Transformer));
    } else {
        assert(crate::element::spec_element_from_tag(s) is None);
    }
}

/// The sweep each element kind's own arc performs: the lumped kinds and
/// the transformer interpolate normalized impedance linearly, the line and
/// stub kinds sweep electrical length.
pub open spec fn spec_sweep_of_kind(k: crate::element::ElementKind) -> ArcSweep {
    match k {
        crate::element::ElementKind::TransmissionLine => ArcSweep::TransmissionLine,
        crate::element::ElementKind::OpenStub => ArcSweep::OpenStub,
        crate::element::ElementKind::ShortedStub => ArcSweep::ShortedStub,
        _ => ArcSweep::Linear,
    }
}

/// The sweep an element kind's arc performs.
pub fn sweep_of_kind(k: &crate::element::ElementKind) -> (r: ArcSweep)
    ensures
        r == spec_sweep_of_kind(*k),
{
    match k {
        crate::element::ElementKind::TransmissionLine => ArcSweep::TransmissionLine,
        crate::element::ElementKind::OpenStub => ArcSweep::OpenStub,
        crate::element::ElementKind::ShortedStub => ArcSweep::ShortedStub,
        _ => ArcSweep::Linear,
    }
}

/// How many chart points an element's arc holds for a requested sample
/// count: one per sample plus the endpoint, except that a black box is a
/// single frequency-independent point.
pub open spec fn spec_arc_point_count(k: crate::element::ElementKind, npts: nat) -> nat {
    if k == crate::element::ElementKind::BlackBox {
        1
    } else {
        npts + 1
    }
}

/// The number of chart points an element's arc holds.
pub fn arc_point_count(k: &crate::element::ElementKind, npts: usize) -> (n: usize)
    requires
        npts < usize::MAX,
    ensures
        n == spec_arc_point_count(*k, npts as nat),
{
    if matches!(k, crate::element::ElementKind::BlackBox) {
        1
    } else {
        npts + 1
    }
}

/// The breakpoint scan of the black-box lookup table: given, for each table
/// row, whether its frequency lies above the evaluation frequency, returns
/// the first such row, or the last row when the table never crosses. The
/// interpolator then works on the segment ending at that row.
pub fn first_above(flags: &Vec<bool>) -> (i: usize)
    requires
        flags@.len() > 0,
    ensures
        i < flags@.len(),
        (exists|j: int| 0 <= j < flags@.len() && flags@[j]) ==> flags@[i as int] && (forall|j: int|
            0 <= j < i ==> !flags@[j]),
        !(exists|j: int| 0 <= j < flags@.len() && flags@[j]) ==> i == flags@.len() - 1,
{
    let mut k: usize = 0;
    while k < flags.len()
        invariant
            k <= flags@.len(),
            flags@.len() > 0,
            forall|j: int| 0 <= j < k ==> !flags@[j],
        decreases flags@.len() - k,
    {
        if flags[k] {
            return k;
        }
        k += 1;
    }
    flags.len() - 1
}

} // verus!
