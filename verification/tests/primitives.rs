use vector_security_layer::text::{is_blank, to_lower_hex};
use vector_security_layer::{OperationKind, Ratio, SecurityConfig};

fn ratio(x: f64) -> Ratio {
    Ratio::from_bits(x.to_bits())
}

fn value(r: Ratio) -> f64 {
    f64::from_bits(r.to_bits())
}

#[test]
fn ratio_comparisons_follow_floats() {
    let values = [
        0.0, -0.0, 0.5, 0.65, 1.0, -1.0, 2.0, f64::INFINITY, f64::NEG_INFINITY, f64::NAN,
        f64::MIN_POSITIVE, -f64::MIN_POSITIVE, 1e-300,
    ];
    for a in values {
        for b in values {
            assert_eq!(ratio(a).lt(&ratio(b)), a < b, "{a} < {b}");
            assert_eq!(ratio(a).le(&ratio(b)), a <= b, "{a} <= {b}");
        }
        assert_eq!(ratio(a).is_nan(), a.is_nan());
        assert_eq!(ratio(a).in_unit(), (0.0..=1.0).contains(&a));
        let clamped = value(ratio(a).clamp_unit());
        let expected = a.clamp(0.0, 1.0);
        assert!(clamped.to_bits() == expected.to_bits() || (clamped.is_nan() && expected.is_nan()));
    }
}

#[test]
fn ratio_max_prefers_numbers() {
    assert_eq!(value(ratio(0.4).max(&ratio(0.7))), 0.7);
    assert_eq!(value(ratio(0.9).max(&ratio(0.7))), 0.9);
    assert_eq!(value(ratio(f64::NAN).max(&ratio(0.3))), 0.3);
    assert_eq!(value(ratio(0.3).max(&ratio(f64::NAN))), 0.3);
}

#[test]
fn blank_texts() {
    assert!(is_blank(""));
    assert!(is_blank(" \t\r\n\u{0b}\u{0c}"));
    assert!(is_blank("\u{85}\u{a0}\u{1680}\u{2000}\u{200a}\u{2028}\u{2029}\u{202f}\u{205f}\u{3000}"));
    assert!(!is_blank(" a "));
    assert!(!is_blank("\u{200b}"));
    for s in ["", " x", "\u{3000}", "\u{200b}", "ab"] {
        assert_eq!(is_blank(s), s.trim().is_empty());
    }
}

#[test]
fn lower_hex_rendering() {
    assert_eq!(to_lower_hex(&[]), "");
    assert_eq!(to_lower_hex(&[0x00, 0x0f, 0xa5, 0xff]), "000fa5ff");
}

#[test]
fn operation_labels() {
    assert_eq!(OperationKind::Create.label(), "CREATE");
    assert_eq!(OperationKind::Certify.label(), "CERTIFY");
    assert_eq!(OperationKind::Transfer.label(), "TRANSFER");
    assert_eq!(OperationKind::Drain.label(), "DRAIN");
    assert_eq!(OperationKind::Project.label(), "PROJECT");
    assert_eq!(OperationKind::Reconstruct.label(), "RECONSTRUCT");
    assert_eq!(OperationKind::Move.label(), "MOVE");
    assert_eq!(OperationKind::Rotate.label(), "ROTATE");
    assert_eq!(OperationKind::Scale.label(), "SCALE");
    assert_eq!(OperationKind::Normalize.label(), "NORMALIZE");
    assert_eq!(OperationKind::Constrain.label(), "CONSTRAIN");
    assert_eq!(OperationKind::Query.label(), "QUERY");
    assert_eq!(OperationKind::Custom("mint".into()).label(), "CUSTOM:mint");
}

#[test]
fn distinct_operations_have_distinct_labels() {
    let ops = vec![
        OperationKind::Create,
        OperationKind::Certify,
        OperationKind::Transfer,
        OperationKind::Drain,
        OperationKind::Project,
        OperationKind::Reconstruct,
        OperationKind::Move,
        OperationKind::Rotate,
        OperationKind::Scale,
        OperationKind::Normalize,
        OperationKind::Constrain,
        OperationKind::Query,
        OperationKind::Custom("CREATE".into()),
        OperationKind::Custom("mint".into()),
        OperationKind::Custom("".into()),
    ];
    for (i, a) in ops.iter().enumerate() {
        for (j, b) in ops.iter().enumerate() {
            assert_eq!(a.label() == b.label(), i == j);
            assert_eq!(a == b, i == j);
        }
    }
}

#[test]
fn config_defaults() {
    let c = SecurityConfig::default();
    assert_eq!(c.service_name, "vector-security-layer");
    assert_eq!(c.node_id, "local-node");
    assert_eq!(c.max_payload_bytes, 16 * 1024);
    assert_eq!(c.max_clock_skew_secs, 300);
    assert_eq!(c.max_parent_hashes, 32);
    assert_eq!(c.replay_cache_limit, 50_000);
    assert_eq!(c.max_attestations, 16);
    assert!(!c.enable_persistence);
    assert!(c.replay_store_path.is_none());
    assert!(c.event_store_path.is_none());
    assert_eq!(c.policy.max_clock_skew_secs, 300);
}
