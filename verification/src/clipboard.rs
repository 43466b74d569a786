//! Builders for the one-line texts the calculators put on the clipboard.
//! The clipboard itself is the surrounding shell's concern; these functions
//! only compose the text, with the unit tags resolved through the parser.

use vstd::prelude::*;

use crate::unit::{spec_unit_from_str, spec_unit_label, Unit};

verus! {

/// The display label of the unit a tag names.
pub open spec fn spec_label_of_tag(tag: Seq<char>) -> Seq<char> {
    spec_unit_label(spec_unit_from_str(tag))
}

fn label_of_tag(tag: &str) -> (r: String)
    ensures
        r@ == spec_label_of_tag(tag@),
{
    let unit = match Unit::from_str(tag) {
        Ok(u) => u,
        Err(_) => Unit::Base,
    };
    unit.to_string()
}

/// A resistance-capacitance readout: the two values separated by a space,
/// the capacitance carrying its unit label.
pub fn format_rc(r: &str, c: &str, unit: &str) -> (out: String)
    ensures
        out@ == r@ + " "@ + c@ + spec_label_of_tag(unit@),
{
    r.to_owned().concat(" ").concat(c).concat(label_of_tag(unit).as_str())
}

/// A bare scalar readout.
pub fn format_scalar(x: &str) -> (out: String)
    ensures
        out@ == x@,
{
    x.to_owned()
}

/// A scalar readout with its unit label.
pub fn format_scalar_w_unit(x: &str, unit: &str) -> (out: String)
    ensures
        out@ == x@ + spec_label_of_tag(unit@),
{
    x.to_owned().concat(label_of_tag(unit).as_str())
}

/// A complex readout: the two parts separated by a space.
pub fn format_complex(re: &str, im: &str) -> (out: String)
    ensures
        out@ == re@ + " "@ + im@,
{
    re.to_owned().concat(" ").concat(im)
}

/// A complex readout with a unit label on each part.
pub fn format_complex_w_unit(re: &str, unit_re: &str, im: &str, unit_im: &str) -> (out: String)
    ensures
        out@ == re@ + spec_label_of_tag(unit_re@) + " "@ + im@ + spec_label_of_tag(unit_im@),
{
    re.to_owned().concat(label_of_tag(unit_re).as_str()).concat(" ").concat(im).concat(
        label_of_tag(unit_im).as_str(),
    )
}

/// A complex readout in rectangular a + b form.
pub fn format_complex_ri(re: &str, im: &str) -> (out: String)
    ensures
        out@ == re@ + " + "@ + im@,
{
    re.to_owned().concat(" + ").concat(im)
}

/// A three-element network readout, each value with its unit label.
pub fn format_pi_tee(
    val1: &str,
    unit1: &str,
    val2: &str,
    unit2: &str,
    val3: &str,
    unit3: &str,
) -> (out: String)
    ensures
        out@ == val1@ + spec_label_of_tag(unit1@) + " "@ + val2@ + spec_label_of_tag(unit2@) + " "@
            + val3@ + spec_label_of_tag(unit3@),
{
    val1.to_owned().concat(label_of_tag(unit1).as_str()).concat(" ").concat(val2).concat(
        label_of_tag(unit2).as_str(),
    ).concat(" ").concat(val3).concat(label_of_tag(unit3).as_str())
}

/// A four-element network readout, each value with its unit label.
pub fn format_ccll(
    val1: &str,
    unit1: &str,
    val2: &str,
    unit2: &str,
    val3: &str,
    unit3: &str,
    val4: &str,
    unit4: &str,
) -> (out: String)
    ensures
        out@ == val1@ + spec_label_of_tag(unit1@) + " "@ + val2@ + spec_label_of_tag(unit2@) + " "@
            + val3@ + spec_label_of_tag(unit3@) + " "@ + val4@ + spec_label_of_tag(unit4@),
{
    val1.to_owned().concat(label_of_tag(unit1).as_str()).concat(" ").concat(val2).concat(
        label_of_tag(unit2).as_str(),
    ).concat(" ").concat(val3).concat(label_of_tag(unit3).as_str()).concat(" ").concat(
        val4,
    ).concat(label_of_tag(unit4).as_str())
}

} // verus!
