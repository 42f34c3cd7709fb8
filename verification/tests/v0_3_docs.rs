use multiscales::axis::{ChannelAxis, SpaceAxis, TimeAxis};
use multiscales::multiscale::Axes;
use multiscales::util::IsValid;
use multiscales::v0_3::{Dataset, Multiscale, UNIQUENESS_MESSAGE, VOCABULARY_MESSAGE};

fn doc(codes: &[&str]) -> Multiscale {
    Multiscale {
        name: None,
        axes: codes.iter().map(|c| c.to_string()).collect(),
        datasets: vec![Dataset { path: "0".to_string() }],
        downscaling_type: None,
        metadata: None,
    }
}

#[test]
fn conforming_document_queries() {
    let m = doc(&["t", "c", "y", "x"]);
    assert!(m.is_valid());
    assert_eq!(m.get_time_axis(), Some(TimeAxis));
    assert_eq!(m.get_channel_axis(), Some(ChannelAxis));
    assert_eq!(m.get_space_axes(), vec![SpaceAxis::Y, SpaceAxis::X]);
    assert_eq!(m.get_time_axes(), vec![TimeAxis]);
    assert_eq!(m.get_channel_axes(), vec![ChannelAxis]);
    assert!(m.get_custom_axes().is_empty());
    assert_eq!(m.get_custom_axis(), None);
}

#[test]
fn duplicate_codes_invalidate_but_extraction_continues() {
    let m = doc(&["x", "x"]);
    assert!(!m.is_valid());
    assert_eq!(m.get_space_axes(), vec![SpaceAxis::X, SpaceAxis::X]);
}

#[test]
fn duplicate_codes_emit_the_uniqueness_diagnostic() {
    let m = doc(&["x", "x"]);
    let (ok, warnings) = m.validate();
    assert!(!ok);
    assert_eq!(warnings, vec![UNIQUENESS_MESSAGE.to_string()]);
}

#[test]
fn unknown_code_invalidates() {
    let m = doc(&["q"]);
    assert!(!m.is_valid());
    let (ok, warnings) = m.validate();
    assert!(!ok);
    assert_eq!(warnings, vec![VOCABULARY_MESSAGE.to_string()]);
    assert!(m.get_space_axes().is_empty());
    assert_eq!(m.get_time_axis(), None);
    assert_eq!(m.get_channel_axis(), None);
}

#[test]
fn both_rules_violated_emit_both_diagnostics() {
    let m = doc(&["q", "q", "x"]);
    let (ok, warnings) = m.validate();
    assert!(!ok);
    assert_eq!(
        warnings,
        vec![UNIQUENESS_MESSAGE.to_string(), VOCABULARY_MESSAGE.to_string()],
    );
}

#[test]
fn conforming_document_emits_no_diagnostic() {
    let m = doc(&["z", "y", "x"]);
    let (ok, warnings) = m.validate();
    assert!(ok);
    assert!(warnings.is_empty());
}

#[test]
fn unique_but_unknown_codes_are_flagged_once() {
    let m = doc(&["t", "q"]);
    let (ok, warnings) = m.validate();
    assert!(!ok);
    assert_eq!(warnings, vec![VOCABULARY_MESSAGE.to_string()]);
    assert_eq!(m.get_time_axis(), Some(TimeAxis));
}

#[test]
fn duplicate_recognized_codes_still_extract_time_and_channel() {
    let m = doc(&["t", "t", "c"]);
    assert!(!m.is_valid());
    assert_eq!(m.get_time_axis(), Some(TimeAxis));
    assert_eq!(m.get_channel_axis(), Some(ChannelAxis));
    assert_eq!(m.get_time_axes(), vec![TimeAxis]);
}

#[test]
fn custom_axes_are_never_reported() {
    let m = doc(&["q", "w"]);
    assert!(m.get_custom_axes().is_empty());
    assert_eq!(m.get_custom_axis(), None);
}

#[test]
fn space_order_follows_the_document() {
    let m = doc(&["x", "z", "y"]);
    assert_eq!(
        m.get_space_axes(),
        vec![SpaceAxis::X, SpaceAxis::Z, SpaceAxis::Y],
    );
}
