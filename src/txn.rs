use vstd::prelude::*;
use crate::compare::{copy_bytes, wire_compare, Compare, TxnError};
use crate::wire::{
    built_txn, delete_op, get_op, nested_op, put_op, wire_delete, wire_get, wire_nested, wire_put,
    wire_txn,
};
use etcd_client::Compare as WireCompare;
use etcd_client::TxnOp as WireTxnOp;
use etcd_client::Txn as WireTxn;

verus! {

/// How many levels of sub-transactions the encoder accepts below the top one.
pub const MAX_NESTING: usize = 32;

/// One operation that a transaction runs when its branch is taken.
#[derive(Debug)]
pub enum TxnOp {
    Put { key: Vec<u8>, value: Vec<u8> },
    Get { key: Vec<u8> },
    Delete { key: Vec<u8> },
    Txn(Txn),
}

/// Preconditions, the operations run when all of them hold, and those run
/// otherwise.
#[derive(Debug)]
pub struct Txn {
    pub when: Vec<Compare>,
    pub and_then: Vec<TxnOp>,
    pub or_else: Vec<TxnOp>,
}

impl TxnOp {
    /// Writes `value` at `key`.
    pub fn put(key: Vec<u8>, value: Vec<u8>) -> (r: TxnOp)
        ensures
            r == (TxnOp::Put { key, value }),
    {
        TxnOp::Put { key, value }
    }

    /// Reads `key`.
    pub fn get(key: Vec<u8>) -> (r: TxnOp)
        ensures
            r == (TxnOp::Get { key }),
    {
        TxnOp::Get { key }
    }

    /// Deletes `key`.
    pub fn delete(key: Vec<u8>) -> (r: TxnOp)
        ensures
            r == (TxnOp::Delete { key }),
    {
        TxnOp::Delete { key }
    }

    /// Runs a nested transaction.
    pub fn txn(txn: Txn) -> (r: TxnOp)
        ensures
            r == TxnOp::Txn(txn),
    {
        TxnOp::Txn(txn)
    }
}

impl Txn {
    /// A transaction with no preconditions and no operations.
    pub fn new() -> (r: Txn)
        ensures
            r.when@.len() == 0,
            r.and_then@.len() == 0,
            r.or_else@.len() == 0,
    {
        Txn { when: Vec::new(), and_then: Vec::new(), or_else: Vec::new() }
    }

    /// Sets the preconditions.
    pub fn when(self, cmps: Vec<Compare>) -> (r: Txn)
        ensures
            r == (Txn { when: cmps, ..self }),
    {
        Txn { when: cmps, ..self }
    }

    /// Sets the operations run when every precondition holds.
    pub fn and_then(self, ops: Vec<TxnOp>) -> (r: Txn)
        ensures
            r == (Txn { and_then: ops, ..self }),
    {
        Txn { and_then: ops, ..self }
    }

    /// Sets the operations run when a precondition fails.
    pub fn or_else(self, ops: Vec<TxnOp>) -> (r: Txn)
        ensures
            r == (Txn { or_else: ops, ..self }),
    {
        Txn { or_else: ops, ..self }
    }
}

/// The encoded preconditions.
pub open spec fn wire_compares(s: Seq<Compare>) -> Seq<WireCompare> {
    s.map_values(|c: Compare| wire_compare(c@))
}

/// The encoding of a transaction that may hold `fuel` more levels of
/// sub-transactions; `None` when it nests deeper.
pub open spec fn wire_txn_spec(t: Txn, fuel: nat) -> Option<WireTxn>
    decreases fuel, 2nat, 0nat,
{
    match (wire_ops_spec(t.and_then@, fuel), wire_ops_spec(t.or_else@, fuel)) {
        (Some(a), Some(b)) => Some(built_txn(wire_compares(t.when@), a, b)),
        _ => None,
    }
}

/// The encoding of a list of operations, each in turn.
pub open spec fn wire_ops_spec(s: Seq<TxnOp>, fuel: nat) -> Option<Seq<WireTxnOp>>
    decreases fuel, 1nat, s.len(),
{
    if s.len() == 0 {
        Some(Seq::empty())
    } else {
        match (wire_ops_spec(s.drop_last(), fuel), wire_op_spec(s.last(), fuel)) {
            (Some(a), Some(b)) => Some(a.push(b)),
            _ => None,
        }
    }
}

/// The encoding of one operation; a sub-transaction uses up one level.
pub open spec fn wire_op_spec(op: TxnOp, fuel: nat) -> Option<WireTxnOp>
    decreases fuel, 0nat, 0nat,
{
    match op {
        TxnOp::Put { key, value } => Some(put_op(key@, value@)),
        TxnOp::Get { key } => Some(get_op(key@)),
        TxnOp::Delete { key } => Some(delete_op(key@)),
        TxnOp::Txn(n) => if fuel == 0 {
            None
        } else {
            match wire_txn_spec(n, (fuel - 1) as nat) {
                Some(w) => Some(nested_op(w)),
                None => None,
            }
        },
    }
}

/// `r` is the encoding `w`, or the nesting error where there is none.
pub open spec fn encodes<T>(r: Result<T, TxnError>, w: Option<T>) -> bool {
    match w {
        Some(x) => r == Ok::<T, TxnError>(x),
        None => r == Err::<T, TxnError>(TxnError::NestingTooDeep),
    }
}

proof fn lemma_ops_prefix_fails(s: Seq<TxnOp>, k: int, fuel: nat)
    requires
        0 <= k <= s.len(),
        wire_ops_spec(s.take(k), fuel) is None,
    ensures
        wire_ops_spec(s, fuel) is None,
    decreases s.len() - k,
{
    if k == s.len() {
        assert(s.take(k) =~= s);
    } else {
        assert(s.take(k + 1).drop_last() =~= s.take(k));
        lemma_ops_prefix_fails(s, k + 1, fuel);
    }
}

fn encode_compares(cs: &Vec<Compare>) -> (r: Vec<WireCompare>)
    ensures
        r@ == wire_compares(cs@),
{
    let mut out: Vec<WireCompare> = Vec::new();
    let mut i: usize = 0;
    while i < cs.len()
        invariant
            i <= cs@.len(),
            out@ == wire_compares(cs@.take(i as int)),
        decreases cs@.len() - i,
    {
        out.push(cs[i].to_wire());
        i = i + 1;
        assert(out@ =~= wire_compares(cs@.take(i as int)));
    }
    assert(cs@.take(i as int) =~= cs@);
    out
}

fn encode_ops(ops: &Vec<TxnOp>, fuel: usize) -> (r: Result<Vec<WireTxnOp>, TxnError>)
    ensures
        match wire_ops_spec(ops@, fuel as nat) {
            Some(w) => r matches Ok(v) && v@ == w,
            None => r == Err::<Vec<WireTxnOp>, TxnError>(TxnError::NestingTooDeep),
        },
    decreases fuel, 1nat, ops@.len(),
{
    let mut out: Vec<WireTxnOp> = Vec::new();
    let mut i: usize = 0;
    assert(ops@.take(0) =~= Seq::<TxnOp>::empty());
    while i < ops.len()
        invariant
            i <= ops@.len(),
            wire_ops_spec(ops@.take(i as int), fuel as nat) == Some(out@),
        decreases ops@.len() - i,
    {
        assert(ops@.take(i + 1).drop_last() =~= ops@.take(i as int));
        match encode_op(&ops[i], fuel) {
            Ok(w) => {
                out.push(w);
            },
            Err(e) => {
                proof {
                    lemma_ops_prefix_fails(ops@, i + 1, fuel as nat);
                }
                return Err(e);
            },
        }
        i = i + 1;
    }
    assert(ops@.take(i as int) =~= ops@);
    Ok(out)
}

fn encode_op(op: &TxnOp, fuel: usize) -> (r: Result<WireTxnOp, TxnError>)
    ensures
        encodes(r, wire_op_spec(*op, fuel as nat)),
    decreases fuel, 0nat, 0nat,
{
    match op {
        TxnOp::Put { key, value } => Ok(wire_put(copy_bytes(key), copy_bytes(value))),
        TxnOp::Get { key } => Ok(wire_get(copy_bytes(key))),
        TxnOp::Delete { key } => Ok(wire_delete(copy_bytes(key))),
        TxnOp::Txn(n) => {
            if fuel == 0 {
                Err(TxnError::NestingTooDeep)
            } else {
                match encode_txn(n, fuel - 1) {
                    Ok(w) => Ok(wire_nested(w)),
                    Err(e) => Err(e),
                }
            }
        },
    }
}

fn encode_txn(t: &Txn, fuel: usize) -> (r: Result<WireTxn, TxnError>)
    ensures
        encodes(r, wire_txn_spec(*t, fuel as nat)),
    decreases fuel, 2nat, 0nat,
{
    let when = encode_compares(&t.when);
    let and_then = encode_ops(&t.and_then, fuel)?;
    let or_else = encode_ops(&t.or_else, fuel)?;
    Ok(wire_txn(when, and_then, or_else))
}

/// Encodes one operation as etcd's request operation, sub-transactions first.
pub fn serialize_txn_op(op: &TxnOp) -> (r: Result<WireTxnOp, TxnError>)
    ensures
        encodes(r, wire_op_spec(*op, MAX_NESTING as nat)),
{
    encode_op(op, MAX_NESTING)
}

/// Encodes a transaction as etcd's request, both branches included;
/// fails when sub-transactions nest more than `MAX_NESTING` levels deep.
pub fn serialize_txn(t: &Txn) -> (r: Result<WireTxn, TxnError>)
    ensures
        encodes(r, wire_txn_spec(*t, MAX_NESTING as nat)),
{
    encode_txn(t, MAX_NESTING)
}

/// Every operation of a list is encoded, one for one and in order; the list
/// encodes exactly when each of its operations does.
pub proof fn lemma_ops_one_for_one(s: Seq<TxnOp>, fuel: nat)
    ensures
        wire_ops_spec(s, fuel) is Some <==> forall|i: int|
            0 <= i < s.len() ==> (#[trigger] wire_op_spec(s[i], fuel)) is Some,
        wire_ops_spec(s, fuel) matches Some(w) ==> w.len() == s.len() && forall|i: int|
            0 <= i < s.len() ==> Some(w[i]) == #[trigger] wire_op_spec(s[i], fuel),
    decreases s.len(),
{
    if s.len() > 0 {
        let p = s.drop_last();
        lemma_ops_one_for_one(p, fuel);
        assert forall|i: int| 0 <= i < p.len() implies p[i] == s[i] by {}
        if !(wire_ops_spec(s, fuel) is Some) {
            if wire_ops_spec(p, fuel) is None {
                let i = choose|i: int| 0 <= i < p.len() && !(wire_op_spec(p[i], fuel) is Some);
                assert(!(wire_op_spec(s[i], fuel) is Some));
            } else {
                assert(!(wire_op_spec(s[s.len() - 1], fuel) is Some));
            }
        }
    }
}

/// A transaction encodes to etcd's builder applied to all of its comparisons
/// and to both of its branches, each encoded one for one and in order.
pub proof fn lemma_txn_encoding_complete(t: Txn, fuel: nat)
    requires
        wire_txn_spec(t, fuel) is Some,
    ensures
        ({
            let a = wire_ops_spec(t.and_then@, fuel).unwrap();
            let b = wire_ops_spec(t.or_else@, fuel).unwrap();
            &&& wire_txn_spec(t, fuel) == Some(built_txn(wire_compares(t.when@), a, b))
            &&& wire_compares(t.when@).len() == t.when@.len()
            &&& forall|i: int|
                0 <= i < t.when@.len() ==> #[trigger] wire_compares(t.when@)[i] == wire_compare(
                    t.when@[i]@,
                )
            &&& a.len() == t.and_then@.len()
            &&& forall|i: int|
                0 <= i < t.and_then@.len() ==> Some(a[i]) == #[trigger] wire_op_spec(
                    t.and_then@[i],
                    fuel,
                )
            &&& b.len() == t.or_else@.len()
            &&& forall|i: int|
                0 <= i < t.or_else@.len() ==> Some(b[i]) == #[trigger] wire_op_spec(
                    t.or_else@[i],
                    fuel,
                )
        }),
{
    lemma_ops_one_for_one(t.and_then@, fuel);
    lemma_ops_one_for_one(t.or_else@, fuel);
}

} // verus!
