use rfmatch::clipboard::{
    format_ccll, format_complex, format_complex_ri, format_complex_w_unit, format_pi_tee,
    format_rc, format_scalar, format_scalar_w_unit,
};
use rfmatch::element::ElementKind;
use rfmatch::smith::{arc_point_count, sweep_of_kind, ArcSweep};

#[test]
fn clipboard_rc_line() {
    assert_eq!(format_rc("51.46", "5.198", "fF"), "51.46 5.198f".to_string());
    assert_eq!(format_rc("100", "2", "GHz"), "100 2G".to_string());
    // An unknown unit tag falls back to the unlabelled base unit.
    assert_eq!(format_rc("1", "2", "bogus"), "1 2".to_string());
}

#[test]
fn clipboard_scalars() {
    assert_eq!(format_scalar("3.14"), "3.14".to_string());
    assert_eq!(format_scalar_w_unit("69.18", "pH"), "69.18p".to_string());
    assert_eq!(format_scalar_w_unit("8.58", "fF"), "8.58f".to_string());
}

#[test]
fn clipboard_complex_lines() {
    assert_eq!(format_complex("42.4", "-19.6"), "42.4 -19.6".to_string());
    assert_eq!(
        format_complex_w_unit("42.4", "", "-19.6", ""),
        "42.4 -19.6".to_string()
    );
    assert_eq!(
        format_complex_w_unit("8.5", "fF", "69.1", "pH"),
        "8.5f 69.1p".to_string()
    );
    assert_eq!(format_complex_ri("42.4", "19.6"), "42.4 + 19.6".to_string());
}

#[test]
fn clipboard_network_lines() {
    assert_eq!(
        format_pi_tee("1", "fF", "2", "pH", "3", "fF"),
        "1f 2p 3f".to_string()
    );
    assert_eq!(
        format_ccll("1", "fF", "2", "pH", "3", "fF", "4", "pH"),
        "1f 2p 3f 4p".to_string()
    );
}

#[test]
fn sweep_of_each_kind() {
    assert_eq!(
        sweep_of_kind(&ElementKind::TransmissionLine),
        ArcSweep::TransmissionLine
    );
    assert_eq!(sweep_of_kind(&ElementKind::OpenStub), ArcSweep::OpenStub);
    assert_eq!(
        sweep_of_kind(&ElementKind::ShortedStub),
        ArcSweep::ShortedStub
    );
    for k in [
        ElementKind::Resistor,
        ElementKind::Capacitor,
        ElementKind::Inductor,
        ElementKind::Rlc,
        ElementKind::Transformer,
        ElementKind::BlackBox,
    ] {
        assert_eq!(sweep_of_kind(&k), ArcSweep::Linear);
    }
}

#[test]
fn arc_point_counts() {
    assert_eq!(arc_point_count(&ElementKind::Capacitor, 10), 11);
    assert_eq!(arc_point_count(&ElementKind::TransmissionLine, 0), 1);
    assert_eq!(arc_point_count(&ElementKind::BlackBox, 10), 1);
}
