use multiscales::axis::{ChannelAxis, CustomAxis, SpaceAxis, TimeAxis};
use multiscales::multiscale::{Axes, Multiscale};
use multiscales::util::IsValid;
use multiscales::{v0_2, v0_3, v0_4};

fn v0_2_doc() -> v0_2::Multiscale {
    v0_2::Multiscale {
        name: Some("pyramid".to_string()),
        datasets: vec![v0_2::Dataset { path: "0".to_string() }],
        downscaling_type: Some("gaussian".to_string()),
        metadata: None,
    }
}

fn v0_3_doc(codes: &[&str]) -> v0_3::Multiscale {
    v0_3::Multiscale {
        name: None,
        axes: codes.iter().map(|c| c.to_string()).collect(),
        datasets: vec![v0_3::Dataset { path: "0".to_string() }],
        downscaling_type: None,
        metadata: None,
    }
}

fn v0_4_doc(axes: &[(&str, &str)]) -> v0_4::Multiscale {
    v0_4::Multiscale {
        name: None,
        axes: axes
            .iter()
            .map(|(name, axis_type)| v0_4::Axis {
                name: name.to_string(),
                axis_type: axis_type.to_string(),
            })
            .collect(),
        datasets: vec![v0_4::Dataset { path: "0".to_string() }],
        downscaling_type: None,
        metadata: None,
    }
}

#[test]
fn v0_2_reports_every_axis_kind_absent() {
    let m = v0_2_doc();
    assert!(m.get_space_axes().is_empty());
    assert!(m.get_time_axes().is_empty());
    assert!(m.get_channel_axes().is_empty());
    assert!(m.get_custom_axes().is_empty());
    assert_eq!(m.get_time_axis(), None);
    assert_eq!(m.get_channel_axis(), None);
    assert_eq!(m.get_custom_axis(), None);
    assert!(m.is_valid());
    let (ok, warnings) = m.validate();
    assert!(ok);
    assert!(warnings.is_empty());
}

#[test]
fn wrapped_v0_2_matches_unwrapped() {
    let wrapped = Multiscale::V0_2(v0_2_doc());
    assert_eq!(wrapped.version(), "0.2");
    assert!(wrapped.is_valid());
    assert!(wrapped.get_space_axes().is_empty());
    assert_eq!(wrapped.get_time_axis(), None);
    assert_eq!(wrapped.get_custom_axis(), None);
}

#[test]
fn wrapped_v0_3_matches_unwrapped() {
    let plain = v0_3_doc(&["t", "c", "y", "x"]);
    let wrapped = Multiscale::V0_3(v0_3_doc(&["t", "c", "y", "x"]));
    assert_eq!(wrapped.version(), "0.3");
    assert_eq!(wrapped.is_valid(), plain.is_valid());
    assert_eq!(wrapped.get_space_axes(), plain.get_space_axes());
    assert_eq!(wrapped.get_time_axes(), plain.get_time_axes());
    assert_eq!(wrapped.get_channel_axes(), plain.get_channel_axes());
    assert_eq!(wrapped.get_custom_axes(), plain.get_custom_axes());
    assert_eq!(wrapped.get_time_axis(), plain.get_time_axis());
    assert_eq!(wrapped.get_channel_axis(), plain.get_channel_axis());
    assert_eq!(wrapped.get_custom_axis(), plain.get_custom_axis());
}

#[test]
fn wrapped_invalid_v0_3_still_extracts() {
    let wrapped = Multiscale::V0_3(v0_3_doc(&["x", "x"]));
    assert!(!wrapped.is_valid());
    assert_eq!(wrapped.get_space_axes(), vec![SpaceAxis::X, SpaceAxis::X]);
    let (ok, warnings) = wrapped.validate();
    assert!(!ok);
    assert_eq!(warnings, vec![v0_3::UNIQUENESS_MESSAGE.to_string()]);
}

#[test]
fn wrapped_v0_4_matches_unwrapped() {
    let axes = [("t", "time"), ("c", "channel"), ("z", "space"), ("y", "space"), ("x", "space")];
    let plain = v0_4_doc(&axes);
    let wrapped = Multiscale::V0_4(v0_4_doc(&axes));
    assert_eq!(wrapped.version(), "0.4");
    assert_eq!(wrapped.is_valid(), plain.is_valid());
    assert_eq!(wrapped.get_space_axes(), plain.get_space_axes());
    assert_eq!(wrapped.get_time_axes(), plain.get_time_axes());
    assert_eq!(wrapped.get_channel_axes(), plain.get_channel_axes());
    assert_eq!(wrapped.get_custom_axes(), plain.get_custom_axes());
    assert_eq!(wrapped.get_time_axis(), plain.get_time_axis());
    assert_eq!(wrapped.get_channel_axis(), plain.get_channel_axis());
    assert_eq!(wrapped.get_custom_axis(), plain.get_custom_axis());
}

#[test]
fn v0_4_conforming_document_queries() {
    let m = v0_4_doc(&[("t", "time"), ("c", "channel"), ("z", "space"), ("y", "space"), (
        "x",
        "space",
    )]);
    assert!(m.is_valid());
    assert_eq!(m.get_space_axes(), vec![SpaceAxis::Z, SpaceAxis::Y, SpaceAxis::X]);
    assert_eq!(m.get_time_axis(), Some(TimeAxis));
    assert_eq!(m.get_channel_axis(), Some(ChannelAxis));
    assert_eq!(m.get_custom_axis(), None);
}

#[test]
fn v0_4_custom_axes_are_extracted() {
    let m = v0_4_doc(&[("angle", "rotation"), ("y", "space"), ("x", "space")]);
    assert!(m.is_valid());
    let customs = m.get_custom_axes();
    assert_eq!(customs.len(), 1);
    assert_eq!(customs[0].to_str(), "angle");
    assert_eq!(
        m.get_custom_axis(),
        Some(CustomAxis { name: "angle".to_string() }),
    );
}

#[test]
fn v0_4_two_time_axes_invalidate() {
    let m = v0_4_doc(&[("t1", "time"), ("t2", "time"), ("x", "space")]);
    let (ok, warnings) = m.validate();
    assert!(!ok);
    assert_eq!(warnings, vec![v0_4::TIME_COUNT_MESSAGE.to_string()]);
    assert_eq!(m.get_time_axes(), vec![TimeAxis, TimeAxis]);
    assert_eq!(m.get_time_axis(), Some(TimeAxis));
}

#[test]
fn v0_4_two_channel_axes_invalidate() {
    let m = v0_4_doc(&[("c1", "channel"), ("c2", "channel"), ("x", "space")]);
    let (ok, warnings) = m.validate();
    assert!(!ok);
    assert_eq!(warnings, vec![v0_4::CHANNEL_COUNT_MESSAGE.to_string()]);
}

#[test]
fn v0_4_space_axes_must_be_last() {
    let m = v0_4_doc(&[("x", "space"), ("t", "time")]);
    let (ok, warnings) = m.validate();
    assert!(!ok);
    assert_eq!(warnings, vec![v0_4::SPACE_ORDER_MESSAGE.to_string()]);
    assert_eq!(m.get_space_axes(), vec![SpaceAxis::X]);
}

#[test]
fn v0_4_duplicate_names_invalidate() {
    let m = v0_4_doc(&[("x", "time"), ("x", "space")]);
    let (ok, warnings) = m.validate();
    assert!(!ok);
    assert_eq!(warnings, vec![v0_4::NAME_UNIQUENESS_MESSAGE.to_string()]);
}

#[test]
fn v0_4_every_rule_violated_emits_every_diagnostic() {
    let m = v0_4_doc(&[
        ("x", "space"),
        ("a", "time"),
        ("a", "time"),
        ("b", "channel"),
        ("b", "channel"),
    ]);
    let (ok, warnings) = m.validate();
    assert!(!ok);
    assert_eq!(
        warnings,
        vec![
            v0_4::NAME_UNIQUENESS_MESSAGE.to_string(),
            v0_4::TIME_COUNT_MESSAGE.to_string(),
            v0_4::CHANNEL_COUNT_MESSAGE.to_string(),
            v0_4::SPACE_ORDER_MESSAGE.to_string(),
        ],
    );
}

#[test]
fn v0_4_unparseable_space_name_is_skipped_in_extraction() {
    let m = v0_4_doc(&[("t", "time"), ("w", "space"), ("x", "space")]);
    assert_eq!(m.get_space_axes(), vec![SpaceAxis::X]);
}
