use vstd::prelude::*;
use crate::prefix::{compute_prefix_end, prefix_end};
use crate::wire::{
    create_revision_compare, lease_compare, mod_revision_compare, ranged_compare, value_compare,
    version_compare, wire_create_revision, wire_lease, wire_mod_revision, wire_value,
    wire_version, wire_with_range,
};
use etcd_client::Compare as WireCompare;

verus! {

/// How a key's field is compared with the target value.
#[derive(Clone, Copy, Debug, PartialEq, Eq, Structural)]
pub enum CompareOp {
    Equal,
    Greater,
    Less,
    NotEqual,
}

/// Which field of the stored record a comparison reads.
#[derive(Clone, Copy, Debug, PartialEq, Eq, Structural)]
pub enum TargetUnion {
    Version,
    CreateRevision,
    ModRevision,
    Value,
    Lease,
}

/// Errors raised while building or encoding a transaction.
#[derive(Clone, Copy, Debug, PartialEq, Eq, Structural)]
pub enum TxnError {
    /// A numeric comparison target that is not a signed 64-bit integer.
    Validation,
    /// Sub-transactions nested deeper than the encoder allows.
    NestingTooDeep,
}

pub open spec fn is_digit(c: char) -> bool {
    '0' <= c && c <= '9'
}

/// The value of a non-empty run of ASCII digits.
pub open spec fn digits_value(s: Seq<char>) -> int
    decreases s.len(),
{
    if s.len() == 0 {
        0
    } else {
        digits_value(s.drop_last()) * 10 + (s.last() as int - '0' as int)
    }
}

/// What follows an optional leading `+` or `-`.
pub open spec fn unsigned_part(s: Seq<char>) -> Seq<char> {
    if s.len() > 0 && (s[0] == '-' || s[0] == '+') {
        s.drop_first()
    } else {
        s
    }
}

/// One or more ASCII digits, and nothing else.
pub open spec fn all_digits(s: Seq<char>) -> bool {
    s.len() > 0 && forall|i: int| 0 <= i < s.len() ==> is_digit(#[trigger] s[i])
}

/// A decimal integer as `i64`'s `FromStr` reads it: an optional `+` or `-`,
/// then one or more ASCII digits, with a value that fits in 64 signed bits.
pub open spec fn decimal_i64(s: Seq<char>) -> Option<i64> {
    let body = unsigned_part(s);
    let v = if s.len() > 0 && s[0] == '-' {
        -digits_value(body)
    } else {
        digits_value(body)
    };
    if all_digits(body) && i64::MIN <= v <= i64::MAX {
        Some(v as i64)
    } else {
        None
    }
}

/// Relies on `<i64 as FromStr>::from_str`: an optional sign followed by digits,
/// anything else or a value out of range being an error.
#[verifier::external_body]
fn parse_i64(s: &str) -> (r: Option<i64>)
    ensures
        r == decimal_i64(s@),
{
    s.parse::<i64>().ok()
}

pub open spec fn is_numeric(kind: TargetUnion) -> bool {
    kind != TargetUnion::Value
}

/// A numeric target must read as a signed 64-bit integer.
pub open spec fn target_ok(kind: TargetUnion, target: Seq<char>) -> bool {
    is_numeric(kind) ==> decimal_i64(target) is Some
}

/// What a comparison holds, as mathematical values.
pub struct CompareModel {
    pub key: Seq<u8>,
    pub op: CompareOp,
    pub target: Seq<char>,
    pub kind: TargetUnion,
    pub range_end: Option<Seq<u8>>,
    pub is_prefix: bool,
}

pub open spec fn opt_bytes_view(o: Option<Vec<u8>>) -> Option<Seq<u8>> {
    match o {
        Some(v) => Some(v@),
        None => None,
    }
}

/// The etcd comparison that a comparison encodes to: the constructor of its
/// target kind, then the range end when there is one.
pub open spec fn wire_compare(m: CompareModel) -> WireCompare {
    let base = match m.kind {
        TargetUnion::Version => version_compare(m.key, m.op, decimal_i64(m.target).unwrap()),
        TargetUnion::CreateRevision => create_revision_compare(
            m.key,
            m.op,
            decimal_i64(m.target).unwrap(),
        ),
        TargetUnion::ModRevision => mod_revision_compare(
            m.key,
            m.op,
            decimal_i64(m.target).unwrap(),
        ),
        TargetUnion::Value => value_compare(m.key, m.op, m.target),
        TargetUnion::Lease => lease_compare(m.key, m.op, decimal_i64(m.target).unwrap()),
    };
    match m.range_end {
        Some(end) => ranged_compare(base, end),
        None => base,
    }
}

/// The comparison `m` applied to the keys in `[m.key, end)`.
pub open spec fn ranged(m: CompareModel, end: Seq<u8>) -> CompareModel {
    CompareModel { range_end: Some(end), is_prefix: false, ..m }
}

/// The comparison `m` applied to every key that `m.key` prefixes.
pub open spec fn prefixed(m: CompareModel) -> CompareModel {
    CompareModel { range_end: Some(prefix_end(m.key)), is_prefix: true, ..m }
}

/// The range builders depend on the base comparison alone, so two calls on one
/// base give equal results; they keep key, operator and target, and applying
/// one again, or one after the other, gives what the last one gives alone.
pub proof fn lemma_range_builders(m: CompareModel, end: Seq<u8>)
    ensures
        ranged(m, end).key == m.key && ranged(m, end).op == m.op,
        ranged(m, end).target == m.target && ranged(m, end).kind == m.kind,
        prefixed(m).key == m.key && prefixed(m).op == m.op,
        prefixed(m).target == m.target && prefixed(m).kind == m.kind,
        ranged(ranged(m, end), end) == ranged(m, end),
        prefixed(prefixed(m)) == prefixed(m),
        ranged(prefixed(m), end) == ranged(m, end),
        prefixed(ranged(m, end)) == prefixed(m),
{
}

/// One precondition of a transaction.
#[derive(Debug)]
pub struct Compare {
    key: Vec<u8>,
    compare_op: CompareOp,
    target: String,
    target_union: TargetUnion,
    range_end: Option<Vec<u8>>,
    is_prefix: bool,
}

impl View for Compare {
    type V = CompareModel;

    closed spec fn view(&self) -> CompareModel {
        CompareModel {
            key: self.key@,
            op: self.compare_op,
            target: self.target@,
            kind: self.target_union,
            range_end: opt_bytes_view(self.range_end),
            is_prefix: self.is_prefix,
        }
    }
}

/// A copy of a byte vector, with the same contents.
pub(crate) fn copy_bytes(v: &Vec<u8>) -> (r: Vec<u8>)
    ensures
        r@ == v@,
{
    let r = v.clone();
    assert(r@ =~= v@);
    r
}

impl Clone for Compare {
    fn clone(&self) -> (r: Compare)
        ensures
            r@ == self@,
    {
        proof {
            use_type_invariant(self);
        }
        Compare {
            key: copy_bytes(&self.key),
            compare_op: self.compare_op,
            target: self.target.clone(),
            target_union: self.target_union,
            range_end: match &self.range_end {
                Some(e) => Some(copy_bytes(e)),
                None => None,
            },
            is_prefix: self.is_prefix,
        }
    }
}

impl Compare {
    #[verifier::type_invariant]
    spec fn inv(self) -> bool {
        target_ok(self.target_union, self.target@)
    }

    /// A comparison of one key; fails when a numeric target is not an integer.
    pub fn new(key: Vec<u8>, cmp: CompareOp, target: &str, target_union: TargetUnion) -> (r:
        Result<Compare, TxnError>)
        ensures
            r is Ok <==> target_ok(target_union, target@),
            r is Err ==> r == Err::<Compare, TxnError>(TxnError::Validation),
            r matches Ok(c) ==> c@ == (CompareModel {
                key: key@,
                op: cmp,
                target: target@,
                kind: target_union,
                range_end: None,
                is_prefix: false,
            }),
    {
        if target_union != TargetUnion::Value && parse_i64(target).is_none() {
            return Err(TxnError::Validation);
        }
        let t = target.to_string();
        proof {
            vstd::string::to_string_from_display_ensures_for_str(target, t);
        }
        Ok(Compare {
            key,
            compare_op: cmp,
            target: t,
            target_union,
            range_end: None,
            is_prefix: false,
        })
    }

    /// A copy that compares every key in `[key, end)`.
    pub fn with_range(&self, end: Vec<u8>) -> (r: Compare)
        ensures
            r@ == ranged(self@, end@),
    {
        proof {
            use_type_invariant(self);
        }
        Compare {
            key: copy_bytes(&self.key),
            compare_op: self.compare_op,
            target: self.target.clone(),
            target_union: self.target_union,
            range_end: Some(end),
            is_prefix: false,
        }
    }

    /// A copy that compares every key having this comparison's key as a prefix.
    pub fn with_prefix(&self) -> (r: Compare)
        ensures
            r@ == prefixed(self@),
    {
        proof {
            use_type_invariant(self);
        }
        let end = compute_prefix_end(self.key.as_slice());
        Compare {
            key: copy_bytes(&self.key),
            compare_op: self.compare_op,
            target: self.target.clone(),
            target_union: self.target_union,
            range_end: Some(end),
            is_prefix: true,
        }
    }

    pub fn key(&self) -> (r: &Vec<u8>)
        ensures
            r@ == self@.key,
    {
        &self.key
    }

    pub fn compare_op(&self) -> (r: CompareOp)
        ensures
            r == self@.op,
    {
        self.compare_op
    }

    pub fn target(&self) -> (r: &String)
        ensures
            r@ == self@.target,
    {
        &self.target
    }

    pub fn target_union(&self) -> (r: TargetUnion)
        ensures
            r == self@.kind,
    {
        self.target_union
    }

    pub fn range_end(&self) -> (r: &Option<Vec<u8>>)
        ensures
            opt_bytes_view(*r) == self@.range_end,
    {
        &self.range_end
    }

    pub fn is_prefix(&self) -> (r: bool)
        ensures
            r == self@.is_prefix,
    {
        self.is_prefix
    }

    /// Encodes this comparison as etcd's request comparison.
    pub fn to_wire(&self) -> (r: WireCompare)
        ensures
            r == wire_compare(self@),
    {
        proof {
            use_type_invariant(self);
        }
        let key = copy_bytes(&self.key);
        let op = self.compare_op;
        let number: i64 = if self.target_union == TargetUnion::Value {
            0
        } else {
            match parse_i64(self.target.as_str()) {
                Some(v) => v,
                None => 0,
            }
        };
        let base = match self.target_union {
            TargetUnion::Version => wire_version(key, op, number),
            TargetUnion::CreateRevision => wire_create_revision(key, op, number),
            TargetUnion::ModRevision => wire_mod_revision(key, op, number),
            TargetUnion::Value => wire_value(key, op, self.target.clone()),
            TargetUnion::Lease => wire_lease(key, op, number),
        };
        match &self.range_end {
            Some(end) => wire_with_range(base, copy_bytes(end)),
            None => base,
        }
    }
}

/// Encodes a comparison as etcd's request comparison.
pub fn serialize_cmp(cmp: &Compare) -> (r: WireCompare)
    ensures
        r == wire_compare(cmp@),
{
    cmp.to_wire()
}

} // verus!
