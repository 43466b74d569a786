//! The closed set of circuit element kinds and their discrete attributes:
//! how each combines with the running input impedance (series or shunt),
//! the labels of its parameters, and the tag strings the chart tool uses
//! to select one.

use vstd::prelude::*;

use crate::strutil::str_eq;

verus! {

/// How an element combines with the accumulated input impedance: a series
/// element adds impedances, a shunt element adds admittances.
#[derive(Copy, Clone, Debug, PartialEq, Eq, Structural)]
pub enum Orientation {
    Series,
    Shunt,
}

/// A shunt element is drawn on the rotated (admittance) chart, so the
/// conversion to the `rotate` flag of the coordinate transform maps
/// `Shunt` to `true`.
impl From<Orientation> for bool {
    fn from(f: Orientation) -> (r: bool)
        ensures
            r == (f == Orientation::Shunt),
    {
        match f {
            Orientation::Series => false,
            Orientation::Shunt => true,
        }
    }
}

impl vstd::std_specs::convert::FromSpecImpl<Orientation> for bool {
    open spec fn obeys_from_spec() -> bool {
        true
    }

    open spec fn from_spec(f: Orientation) -> bool {
        f == Orientation::Shunt
    }
}

/// The nine canonical circuit primitives.
#[derive(Copy, Clone, Debug, PartialEq, Eq, Structural)]
pub enum ElementKind {
    Resistor,
    Capacitor,
    Inductor,
    Rlc,
    Transformer,
    TransmissionLine,
    OpenStub,
    ShortedStub,
    BlackBox,
}

/// The parameter labels of each kind, in the order its values are listed.
pub open spec fn spec_labels(k: ElementKind) -> Seq<Seq<char>> {
    match k {
        ElementKind::Resistor => seq!["res"@],
        ElementKind::Capacitor => seq!["res"@, "cap"@],
        ElementKind::Inductor => seq!["res"@, "ind"@],
        ElementKind::Rlc => seq!["res"@, "ind"@, "cap"@],
        ElementKind::Transformer => seq!["res"@, "indp"@, "inds"@, "m"@],
        ElementKind::TransmissionLine => seq!["z0"@, "length"@],
        ElementKind::OpenStub => seq!["z0"@, "length"@],
        ElementKind::ShortedStub => seq!["z0"@, "length"@],
        ElementKind::BlackBox => seq!["res"@, "reac"@],
    }
}

/// The orientation a kind is fixed to, or `None` for the lumped kinds that
/// carry their orientation explicitly (resistor, capacitor, inductor, RLC).
pub open spec fn spec_fixed_orientation(k: ElementKind) -> Option<Orientation> {
    match k {
        ElementKind::Resistor => None,
        ElementKind::Capacitor => None,
        ElementKind::Inductor => None,
        ElementKind::Rlc => None,
        ElementKind::Transformer => Some(Orientation::Series),
        ElementKind::TransmissionLine => Some(Orientation::Series),
        ElementKind::OpenStub => Some(Orientation::Shunt),
        ElementKind::ShortedStub => Some(Orientation::Shunt),
        ElementKind::BlackBox => Some(Orientation::Series),
    }
}

/// The element and orientation each chart-tool tag selects: "s"/"p" prefixes
/// choose series or shunt placement of a lumped element, the remaining tags
/// name a kind whose orientation is fixed.
pub open spec fn spec_element_from_tag(s: Seq<char>) -> Option<(ElementKind, Orientation)> {
    if s == "si"@ {
        Some((ElementKind::Inductor, Orientation::Series))
    } else if s == "pi"@ {
        Some((ElementKind::Inductor, Orientation::Shunt))
    } else if s == "sc"@ {
        Some((ElementKind::Capacitor, Orientation::Series))
    } else if s == "pc"@ {
        Some((ElementKind::Capacitor, Orientation::Shunt))
    } else if s == "sr"@ {
        Some((ElementKind::Resistor, Orientation::Series))
    } else if s == "pr"@ {
        Some((ElementKind::Resistor, Orientation::Shunt))
    } else if s == "rlc"@ {
        Some((ElementKind::Rlc, Orientation::Shunt))
    } else if s == "bb"@ {
        Some((ElementKind::BlackBox, Orientation::Series))
    } else if s == "tl"@ {
        Some((ElementKind::TransmissionLine, Orientation::Series))
    } else if s == "ss"@ {
        Some((ElementKind::ShortedStub, Orientation::Shunt))
    } else if s == "so"@ {
        Some((ElementKind::OpenStub, Orientation::Shunt))
    } else if s == "xfmr"@ {
        Some((ElementKind::Transformer, Orientation::Series))
    } else {
        None
    }
}

impl ElementKind {
    /// The parameter labels of this kind.
    pub fn labels(&self) -> (r: Vec<&'static str>)
        ensures
            r@.map_values(|l: &str| l@) == spec_labels(*self),
    {
        let r: Vec<&'static str> = match self {
            ElementKind::Resistor => vec!["res"],
            ElementKind::Capacitor => vec!["res", "cap"],
            ElementKind::Inductor => vec!["res", "ind"],
            ElementKind::Rlc => vec!["res", "ind", "cap"],
            ElementKind::Transformer => vec!["res", "indp", "inds", "m"],
            ElementKind::TransmissionLine => vec!["z0", "length"],
            ElementKind::OpenStub => vec!["z0", "length"],
            ElementKind::ShortedStub => vec!["z0", "length"],
            ElementKind::BlackBox => vec!["res", "reac"],
        };
        proof {
            assert(r@.map_values(|l: &str| l@) =~= spec_labels(*self));
        }
        r
    }

    /// The orientation this kind is fixed to, if it does not carry one.
    pub fn fixed_orientation(&self) -> (r: Option<Orientation>)
        ensures
            r == spec_fixed_orientation(*self),
    {
        match self {
            ElementKind::Resistor => None,
            ElementKind::Capacitor => None,
            ElementKind::Inductor => None,
            ElementKind::Rlc => None,
            ElementKind::Transformer => Some(Orientation::Series),
            ElementKind::TransmissionLine => Some(Orientation::Series),
            ElementKind::OpenStub => Some(Orientation::Shunt),
            ElementKind::ShortedStub => Some(Orientation::Shunt),
            ElementKind::BlackBox => Some(Orientation::Series),
        }
    }
}

/// Resolves a chart-tool element tag to the kind it names and the
/// orientation the element is placed with; an unknown tag is the error the
/// chart tool reports.
pub fn element_from_tag(tag: &str) -> (r: Result<(ElementKind, Orientation), String>)
    ensures
        spec_element_from_tag(tag@) matches Some(ko) ==> r == Ok::<_, String>(ko),
        spec_element_from_tag(tag@) is None ==> (r matches Err(e) && e@
            == "element not recognize"@),
{
    if str_eq(tag, "si") {
        Ok((ElementKind::Inductor, Orientation::Series))
    } else if str_eq(tag, "pi") {
        Ok((ElementKind::Inductor, Orientation::Shunt))
    } else if str_eq(tag, "sc") {
        Ok((ElementKind::Capacitor, Orientation::Series))
    } else if str_eq(tag, "pc") {
        Ok((ElementKind::Capacitor, Orientation::Shunt))
    } else if str_eq(tag, "sr") {
        Ok((ElementKind::Resistor, Orientation::Series))
    } else if str_eq(tag, "pr") {
        Ok((ElementKind::Resistor, Orientation::Shunt))
    } else if str_eq(tag, "rlc") {
        Ok((ElementKind::Rlc, Orientation::Shunt))
    } else if str_eq(tag, "bb") {
        Ok((ElementKind::BlackBox, Orientation::Series))
    } else if str_eq(tag, "tl") {
        Ok((ElementKind::TransmissionLine, Orientation::Series))
    } else if str_eq(tag, "ss") {
        Ok((ElementKind::ShortedStub, Orientation::Shunt))
    } else if str_eq(tag, "so") {
        Ok((ElementKind::OpenStub, Orientation::Shunt))
    } else if str_eq(tag, "xfmr") {
        Ok((ElementKind::Transformer, Orientation::Series))
    } else {
        Err("element not recognize".to_owned())
    }
}

/// Tags are canonical: no two distinct tags select the same kind and
/// orientation, so a placement can be traced back to the tag that made it.
pub proof fn lemma_tags_canonical(s1: Seq<char>, s2: Seq<char>)
    requires
        spec_element_from_tag(s1) is Some,
        spec_element_from_tag(s1) == spec_element_from_tag(s2),
    ensures
        s1 == s2,
{
}

/// A tag never resolves to an element placed against its fixed orientation:
/// whatever tag is given, the orientation that comes back agrees with the
/// kind's own orientation wherever the kind has one.
pub proof fn lemma_tag_respects_fixed_orientation(s: Seq<char>)
    ensures
        spec_element_from_tag(s) matches Some(ko) ==> (spec_fixed_orientation(ko.0) matches Some(o)
            ==> ko.1 == o),
{
}

} // verus!
