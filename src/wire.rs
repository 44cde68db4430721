//! etcd-client's request types, and the calls that build them.
use vstd::prelude::*;
use etcd_client::CompareOp as WireOp;
use etcd_client::Compare as WireCompare;
use etcd_client::TxnOp as WireTxnOp;
use etcd_client::Txn as WireTxn;
use crate::compare::CompareOp;

verus! {

#[verifier::external_type_specification]
#[verifier::external_body]
pub struct ExWireCompare(WireCompare);

#[verifier::external_type_specification]
#[verifier::external_body]
pub struct ExWireTxnOp(WireTxnOp);

#[verifier::external_type_specification]
#[verifier::external_body]
pub struct ExWireTxn(WireTxn);

/// What `etcd_client::Compare::version` builds from its arguments.
pub uninterp spec fn version_compare(key: Seq<u8>, op: CompareOp, version: i64) -> WireCompare;

/// What `etcd_client::Compare::create_revision` builds from its arguments.
pub uninterp spec fn create_revision_compare(key: Seq<u8>, op: CompareOp, revision: i64) -> WireCompare;

/// What `etcd_client::Compare::mod_revision` builds from its arguments.
pub uninterp spec fn mod_revision_compare(key: Seq<u8>, op: CompareOp, revision: i64) -> WireCompare;

/// What `etcd_client::Compare::value` builds from its arguments.
pub uninterp spec fn value_compare(key: Seq<u8>, op: CompareOp, value: Seq<char>) -> WireCompare;

/// What `etcd_client::Compare::lease` builds from its arguments.
pub uninterp spec fn lease_compare(key: Seq<u8>, op: CompareOp, lease: i64) -> WireCompare;

/// What `etcd_client::Compare::with_range` makes of a comparison and an end key.
pub uninterp spec fn ranged_compare(c: WireCompare, end: Seq<u8>) -> WireCompare;

/// What `etcd_client::TxnOp::put` builds, without options.
pub uninterp spec fn put_op(key: Seq<u8>, value: Seq<u8>) -> WireTxnOp;

/// What `etcd_client::TxnOp::get` builds, without options.
pub uninterp spec fn get_op(key: Seq<u8>) -> WireTxnOp;

/// What `etcd_client::TxnOp::delete` builds, without options.
pub uninterp spec fn delete_op(key: Seq<u8>) -> WireTxnOp;

/// What `etcd_client::TxnOp::txn` makes of a nested transaction.
pub uninterp spec fn nested_op(t: WireTxn) -> WireTxnOp;

/// What `Txn::new().when(..).and_then(..).or_else(..)` builds.
pub uninterp spec fn built_txn(
    when: Seq<WireCompare>,
    and_then: Seq<WireTxnOp>,
    or_else: Seq<WireTxnOp>,
) -> WireTxn;

/// Relies on `etcd_client::Compare::version`, a pure constructor.
#[verifier::external_body]
pub(crate) fn wire_version(key: Vec<u8>, op: CompareOp, version: i64) -> (r: WireCompare)
    ensures
        r == version_compare(key@, op, version),
{
    let op = match op {
        CompareOp::Equal => WireOp::Equal,
        CompareOp::Greater => WireOp::Greater,
        CompareOp::Less => WireOp::Less,
        CompareOp::NotEqual => WireOp::NotEqual,
    };
    WireCompare::version(key, op, version)
}

/// Relies on `etcd_client::Compare::create_revision`, a pure constructor.
#[verifier::external_body]
pub(crate) fn wire_create_revision(key: Vec<u8>, op: CompareOp, revision: i64) -> (r:
    WireCompare)
    ensures
        r == create_revision_compare(key@, op, revision),
{
    let op = match op {
        CompareOp::Equal => WireOp::Equal,
        CompareOp::Greater => WireOp::Greater,
        CompareOp::Less => WireOp::Less,
        CompareOp::NotEqual => WireOp::NotEqual,
    };
    WireCompare::create_revision(key, op, revision)
}

/// Relies on `etcd_client::Compare::mod_revision`, a pure constructor.
#[verifier::external_body]
pub(crate) fn wire_mod_revision(key: Vec<u8>, op: CompareOp, revision: i64) -> (r:
    WireCompare)
    ensures
        r == mod_revision_compare(key@, op, revision),
{
    let op = match op {
        CompareOp::Equal => WireOp::Equal,
        CompareOp::Greater => WireOp::Greater,
        CompareOp::Less => WireOp::Less,
        CompareOp::NotEqual => WireOp::NotEqual,
    };
    WireCompare::mod_revision(key, op, revision)
}

/// Relies on `etcd_client::Compare::value`, a pure constructor that takes the
/// value's UTF-8 bytes.
#[verifier::external_body]
pub(crate) fn wire_value(key: Vec<u8>, op: CompareOp, value: String) -> (r: WireCompare)
    ensures
        r == value_compare(key@, op, value@),
{
    let op = match op {
        CompareOp::Equal => WireOp::Equal,
        CompareOp::Greater => WireOp::Greater,
        CompareOp::Less => WireOp::Less,
        CompareOp::NotEqual => WireOp::NotEqual,
    };
    WireCompare::value(key, op, value)
}

/// Relies on `etcd_client::Compare::lease`, a pure constructor.
#[verifier::external_body]
pub(crate) fn wire_lease(key: Vec<u8>, op: CompareOp, lease: i64) -> (r: WireCompare)
    ensures
        r == lease_compare(key@, op, lease),
{
    let op = match op {
        CompareOp::Equal => WireOp::Equal,
        CompareOp::Greater => WireOp::Greater,
        CompareOp::Less => WireOp::Less,
        CompareOp::NotEqual => WireOp::NotEqual,
    };
    WireCompare::lease(key, op, lease)
}

/// Relies on `etcd_client::Compare::with_range`, which only sets the range end.
#[verifier::external_body]
pub(crate) fn wire_with_range(c: WireCompare, end: Vec<u8>) -> (r: WireCompare)
    ensures
        r == ranged_compare(c, end@),
{
    c.with_range(end)
}

/// Relies on `etcd_client::TxnOp::put`, a pure constructor.
#[verifier::external_body]
pub(crate) fn wire_put(key: Vec<u8>, value: Vec<u8>) -> (r: WireTxnOp)
    ensures
        r == put_op(key@, value@),
{
    WireTxnOp::put(key, value, None)
}

/// Relies on `etcd_client::TxnOp::get`, a pure constructor.
#[verifier::external_body]
pub(crate) fn wire_get(key: Vec<u8>) -> (r: WireTxnOp)
    ensures
        r == get_op(key@),
{
    WireTxnOp::get(key, None)
}

/// Relies on `etcd_client::TxnOp::delete`, a pure constructor.
#[verifier::external_body]
pub(crate) fn wire_delete(key: Vec<u8>) -> (r: WireTxnOp)
    ensures
        r == delete_op(key@),
{
    WireTxnOp::delete(key, None)
}

/// Relies on `etcd_client::TxnOp::txn`, which wraps the transaction's request.
#[verifier::external_body]
pub(crate) fn wire_nested(t: WireTxn) -> (r: WireTxnOp)
    ensures
        r == nested_op(t),
{
    WireTxnOp::txn(t)
}

/// Relies on `etcd_client::Txn`'s builder. `when`, `and_then` and `or_else`
/// each assert that they come once and in this order, which they do here.
#[verifier::external_body]
pub(crate) fn wire_txn(
    when: Vec<WireCompare>,
    and_then: Vec<WireTxnOp>,
    or_else: Vec<WireTxnOp>,
) -> (r: WireTxn)
    ensures
        r == built_txn(when@, and_then@, or_else@),
{
    WireTxn::new().when(when).and_then(and_then).or_else(or_else)
}

} // verus!
