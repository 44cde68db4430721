use etcdio::compare::{Compare, CompareOp, TargetUnion, TxnError};

#[test]
fn non_numeric_version_target_is_rejected() {
    let r = Compare::new(b"k".to_vec(), CompareOp::Equal, "not_a_number", TargetUnion::Version);
    assert_eq!(r.unwrap_err(), TxnError::Validation);
}

#[test]
fn numeric_targets_follow_i64_syntax() {
    for kind in [
        TargetUnion::Version,
        TargetUnion::CreateRevision,
        TargetUnion::ModRevision,
        TargetUnion::Lease,
    ] {
        assert!(Compare::new(b"k".to_vec(), CompareOp::Equal, "0", kind).is_ok());
        assert!(Compare::new(b"k".to_vec(), CompareOp::Less, "-12", kind).is_ok());
        assert!(Compare::new(b"k".to_vec(), CompareOp::Less, "+7", kind).is_ok());
        assert!(Compare::new(b"k".to_vec(), CompareOp::Less, "9223372036854775807", kind).is_ok());
        for bad in ["", "-", "+", " 1", "1 ", "1.5", "0x10", "9223372036854775808"] {
            let r = Compare::new(b"k".to_vec(), CompareOp::Greater, bad, kind);
            assert_eq!(r.unwrap_err(), TxnError::Validation, "{:?}", bad);
        }
    }
}

#[test]
fn value_target_is_free_text() {
    let c = Compare::new(b"k".to_vec(), CompareOp::NotEqual, "not_a_number", TargetUnion::Value)
        .unwrap();
    assert_eq!(c.target(), "not_a_number");
    assert_eq!(c.target_union(), TargetUnion::Value);
    assert_eq!(c.compare_op(), CompareOp::NotEqual);
    assert_eq!(c.key(), &b"k".to_vec());
    assert_eq!(c.range_end(), &None);
    assert!(!c.is_prefix());
}

#[test]
fn range_builders_leave_the_base_alone() {
    let base = Compare::new(b"svc/a".to_vec(), CompareOp::Greater, "3", TargetUnion::ModRevision)
        .unwrap();
    let before = format!("{:?}", base);

    let r1 = base.with_range(b"svc/z".to_vec());
    let r2 = base.with_range(b"svc/z".to_vec());
    let p1 = base.with_prefix();
    let p2 = base.with_prefix();

    assert_eq!(format!("{:?}", base), before);
    assert_eq!(base.range_end(), &None);
    assert_eq!(format!("{:?}", r1), format!("{:?}", r2));
    assert_eq!(format!("{:?}", p1), format!("{:?}", p2));

    assert_eq!(r1.range_end(), &Some(b"svc/z".to_vec()));
    assert!(!r1.is_prefix());
    assert_eq!(p1.range_end(), &Some(b"svc/b".to_vec()));
    assert!(p1.is_prefix());
    assert_eq!(p1.key(), &b"svc/a".to_vec());
    assert_eq!(p1.target(), "3");
    assert_eq!(p1.compare_op(), CompareOp::Greater);
    assert_eq!(p1.target_union(), TargetUnion::ModRevision);
}

#[test]
fn builders_applied_again_change_nothing() {
    let base = Compare::new(b"a\xFF".to_vec(), CompareOp::Equal, "v", TargetUnion::Value).unwrap();
    let p = base.with_prefix();
    let pp = p.with_prefix();
    assert_eq!(format!("{:?}", p), format!("{:?}", pp));
    assert_eq!(pp.range_end(), &Some(b"b".to_vec()));
    let r = p.with_range(b"c".to_vec());
    assert_eq!(format!("{:?}", r), format!("{:?}", base.with_range(b"c".to_vec())));
    let cloned = r.clone();
    assert_eq!(format!("{:?}", cloned), format!("{:?}", r));
}
