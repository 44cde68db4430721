use etcdio::compare::{serialize_cmp, Compare, CompareOp, TargetUnion, TxnError};
use etcdio::txn::{serialize_txn, serialize_txn_op, Txn, TxnOp, MAX_NESTING};

fn count(hay: &str, needle: &str) -> usize {
    hay.matches(needle).count()
}

fn bytes_text(b: &[u8]) -> String {
    format!("{:?}", b)
}

fn cmp(key: &[u8], target: &str, kind: TargetUnion) -> Compare {
    Compare::new(key.to_vec(), CompareOp::Equal, target, kind).unwrap()
}

#[test]
fn comparison_encodes_key_target_and_range() {
    let c = cmp(b"lock/A", "41", TargetUnion::CreateRevision).with_range(b"lock/B".to_vec());
    let w = format!("{:?}", serialize_cmp(&c));
    assert!(w.contains(&bytes_text(b"lock/A")), "{}", w);
    assert!(w.contains(&bytes_text(b"lock/B")), "{}", w);
    assert!(w.contains("CreateRevision(41)"), "{}", w);

    let v = cmp(b"k", "hello", TargetUnion::Value);
    let w = format!("{:?}", serialize_cmp(&v));
    assert!(w.contains(&bytes_text(b"hello")), "{}", w);

    let p = cmp(b"svc/", "-3", TargetUnion::Lease).with_prefix();
    let w = format!("{:?}", serialize_cmp(&p));
    assert!(w.contains("Lease(-3)"), "{}", w);
    assert!(w.contains(&bytes_text(b"svc0")), "{}", w);
}

#[test]
fn encoding_keeps_every_comparison_and_both_branches() {
    let nested = Txn::new()
        .when(vec![])
        .and_then(vec![TxnOp::put(b"inner".to_vec(), b"1".to_vec())]);
    let t = Txn::new()
        .when(vec![
            cmp(b"a", "1", TargetUnion::Version),
            cmp(b"b", "2", TargetUnion::ModRevision),
        ])
        .and_then(vec![TxnOp::txn(nested)])
        .or_else(vec![TxnOp::delete(b"gone".to_vec())]);
    let w = format!("{:?}", serialize_txn(&t).unwrap());
    assert_eq!(count(&w, "target_union"), 2, "{}", w);
    assert_eq!(count(&w, "RequestTxn"), 1, "{}", w);
    assert_eq!(count(&w, "RequestPut"), 1, "{}", w);
    assert_eq!(count(&w, "RequestDeleteRange"), 1, "{}", w);
    assert!(w.contains(&bytes_text(b"gone")), "{}", w);
    assert!(w.contains(&bytes_text(b"inner")), "{}", w);
    let failure = &w[w.rfind("failure").unwrap()..];
    assert!(failure.contains("RequestDeleteRange"), "{}", w);
    assert!(failure.contains(&bytes_text(b"gone")), "{}", w);
}

#[test]
fn lock_transaction_is_built_from_a_create_revision_check() {
    let check = cmp(b"lock/A", "0", TargetUnion::CreateRevision);
    let t = Txn::new()
        .when(vec![check])
        .and_then(vec![TxnOp::put(b"lock/A".to_vec(), b"owner-1".to_vec())]);
    assert_eq!(t.when.len(), 1);
    assert_eq!(t.and_then.len(), 1);
    assert_eq!(t.or_else.len(), 0);
    let w = format!("{:?}", serialize_txn(&t).unwrap());
    assert!(w.contains("CreateRevision(0)"), "{}", w);
    assert!(w.contains(&bytes_text(b"owner-1")), "{}", w);
    assert_eq!(count(&w, "RequestPut"), 1, "{}", w);
}

#[test]
fn single_operations_encode_to_their_request() {
    let g = format!("{:?}", serialize_txn_op(&TxnOp::get(b"k1".to_vec())).unwrap());
    assert!(g.contains("RequestRange") && g.contains(&bytes_text(b"k1")), "{}", g);
    let d = format!("{:?}", serialize_txn_op(&TxnOp::delete(b"k2".to_vec())).unwrap());
    assert!(d.contains("RequestDeleteRange") && d.contains(&bytes_text(b"k2")), "{}", d);
    let p = format!("{:?}", serialize_txn_op(&TxnOp::put(b"k3".to_vec(), b"v3".to_vec())).unwrap());
    assert!(p.contains("RequestPut") && p.contains(&bytes_text(b"v3")), "{}", p);
}

fn nest(levels: usize) -> Txn {
    let mut t = Txn::new().and_then(vec![TxnOp::get(b"leaf".to_vec())]);
    for _ in 0..levels {
        t = Txn::new().and_then(vec![TxnOp::txn(t)]);
    }
    t
}

#[test]
fn nesting_up_to_the_ceiling_encodes() {
    let w = format!("{:?}", serialize_txn(&nest(MAX_NESTING)).unwrap());
    assert_eq!(count(&w, "RequestTxn"), MAX_NESTING);
}

#[test]
fn nesting_past_the_ceiling_fails() {
    assert_eq!(serialize_txn(&nest(MAX_NESTING + 1)).unwrap_err(), TxnError::NestingTooDeep);
    let deep = Txn::new().or_else(vec![TxnOp::txn(nest(MAX_NESTING))]);
    assert_eq!(serialize_txn(&deep).unwrap_err(), TxnError::NestingTooDeep);
}

#[test]
fn each_target_kind_and_operator_reaches_the_wire() {
    let cases = [
        (TargetUnion::Version, CompareOp::Greater, "7", "target: Version", "Version(7)", "result: Greater"),
        (TargetUnion::CreateRevision, CompareOp::Less, "8", "target: Create", "CreateRevision(8)", "result: Less"),
        (TargetUnion::ModRevision, CompareOp::NotEqual, "9", "target: Mod", "ModRevision(9)", "result: NotEqual"),
        (TargetUnion::Lease, CompareOp::Equal, "10", "target: Lease", "Lease(10)", "result: Equal"),
    ];
    for (kind, op, target, target_text, union_text, op_text) in cases {
        let c = Compare::new(b"key".to_vec(), op, target, kind).unwrap();
        let w = format!("{:?}", serialize_cmp(&c));
        assert!(w.contains(target_text), "{}", w);
        assert!(w.contains(union_text), "{}", w);
        assert!(w.contains(op_text), "{}", w);
        assert!(w.contains(&bytes_text(b"key")), "{}", w);
    }
    let v = Compare::new(b"key".to_vec(), CompareOp::Equal, "vv", TargetUnion::Value).unwrap();
    let w = format!("{:?}", serialize_cmp(&v));
    assert!(w.contains("target: Value"), "{}", w);
    assert!(w.contains(&format!("Value({})", bytes_text(b"vv"))), "{}", w);
}
