use vstd::prelude::*;

verus! {

/// The smallest key above every key that has `k` as a byte prefix; `[0]`
/// (etcd's "no upper bound") when every byte of `k` is 0xFF.
pub open spec fn prefix_end(k: Seq<u8>) -> Seq<u8>
    decreases k.len(),
{
    if k.len() == 0 {
        seq![0u8]
    } else if k.last() < 0xFF {
        k.drop_last().push((k.last() + 1) as u8)
    } else {
        prefix_end(k.drop_last())
    }
}

/// Computes the exclusive end of the range of keys prefixed by `key`.
pub fn compute_prefix_end(key: &[u8]) -> (r: Vec<u8>)
    ensures
        r@ == prefix_end(key@),
{
    let mut i: usize = key.len();
    assert(key@.take(i as int) =~= key@);
    while i > 0
        invariant
            i <= key@.len(),
            prefix_end(key@) == prefix_end(key@.take(i as int)),
        decreases i,
    {
        let b = key[i - 1];
        if b < 0xFF {
            let mut end: Vec<u8> = Vec::new();
            let mut j: usize = 0;
            while j < i - 1
                invariant
                    j <= i - 1,
                    i <= key@.len(),
                    end@ == key@.take(j as int),
                decreases i - 1 - j,
            {
                end.push(key[j]);
                j = j + 1;
                assert(end@ =~= key@.take(j as int));
            }
            end.push(b + 1);
            assert(key@.take(i as int).drop_last() =~= key@.take(i - 1));
            assert(end@ =~= prefix_end(key@.take(i as int)));
            return end;
        }
        assert(key@.take(i as int).drop_last() =~= key@.take(i - 1));
        i = i - 1;
    }
    assert(key@.take(0) =~= Seq::<u8>::empty());
    let mut end: Vec<u8> = Vec::new();
    end.push(0u8);
    assert(end@ =~= seq![0u8]);
    end
}

/// `k` starts with the bytes of `p`.
pub open spec fn has_prefix(k: Seq<u8>, p: Seq<u8>) -> bool {
    p.len() <= k.len() && k.take(p.len() as int) == p
}

/// Byte-wise lexicographic order: `a` sorts strictly before `b`.
pub open spec fn lex_lt(a: Seq<u8>, b: Seq<u8>) -> bool
    decreases a.len(),
{
    if b.len() == 0 {
        false
    } else if a.len() == 0 {
        true
    } else if a[0] != b[0] {
        a[0] < b[0]
    } else {
        lex_lt(a.drop_first(), b.drop_first())
    }
}

pub open spec fn lex_le(a: Seq<u8>, b: Seq<u8>) -> bool {
    a == b || lex_lt(a, b)
}

pub open spec fn all_ff(k: Seq<u8>) -> bool {
    forall|i: int| 0 <= i < k.len() ==> k[i] == 0xFF
}

proof fn lemma_split(a: Seq<u8>)
    requires
        a.len() > 0,
    ensures
        a == seq![a[0]] + a.drop_first(),
{
    assert(a =~= seq![a[0]] + a.drop_first());
}

/// With equal first bytes, prefix, order and equality are those of the rests.
proof fn lemma_same_head(a: Seq<u8>, b: Seq<u8>)
    requires
        a.len() > 0,
        b.len() > 0,
        a[0] == b[0],
    ensures
        has_prefix(a, b) == has_prefix(a.drop_first(), b.drop_first()),
        lex_lt(a, b) == lex_lt(a.drop_first(), b.drop_first()),
        (a == b) == (a.drop_first() == b.drop_first()),
{
    lemma_split(a);
    lemma_split(b);
    if b.len() <= a.len() {
        let n = b.len() as int;
        if a.take(n) == b {
            assert(a.drop_first().take(n - 1) =~= b.drop_first());
        }
        if a.drop_first().take(n - 1) == b.drop_first() {
            assert(a.take(n) =~= b);
        }
    }
}

proof fn lemma_end_of_tail(x: u8, rest: Seq<u8>)
    requires
        !all_ff(rest),
    ensures
        prefix_end(seq![x] + rest) == seq![x] + prefix_end(rest),
    decreases rest.len(),
{
    let k = seq![x] + rest;
    assert(k.last() == rest.last());
    assert(k.drop_last() =~= seq![x] + rest.drop_last());
    if rest.last() < 0xFF {
        assert(prefix_end(k) =~= seq![x] + prefix_end(rest));
    } else {
        assert(!all_ff(rest.drop_last())) by {
            let i = choose|i: int| 0 <= i < rest.len() && rest[i] != 0xFF;
            assert(rest.drop_last()[i] == rest[i]);
        }
        lemma_end_of_tail(x, rest.drop_last());
    }
}

proof fn lemma_end_of_ff_tail(x: u8, rest: Seq<u8>)
    requires
        x < 0xFF,
        all_ff(rest),
    ensures
        prefix_end(seq![x] + rest) == seq![(x + 1) as u8],
    decreases rest.len(),
{
    let k = seq![x] + rest;
    if rest.len() == 0 {
        assert(k.drop_last() =~= Seq::<u8>::empty());
        assert(prefix_end(k) =~= seq![(x + 1) as u8]);
    } else {
        assert(k.drop_last() =~= seq![x] + rest.drop_last());
        assert(rest.last() == 0xFF);
        lemma_end_of_ff_tail(x, rest.drop_last());
    }
}

/// Under a run of 0xFF bytes, the keys at or above it are the keys it prefixes.
proof fn lemma_ff_prefix(r: Seq<u8>, s: Seq<u8>)
    requires
        all_ff(r),
    ensures
        has_prefix(s, r) == lex_le(r, s),
    decreases r.len(),
{
    if r.len() == 0 {
        assert(s.take(0) =~= r);
        if s.len() == 0 {
            assert(r =~= s);
        } else {
            assert(lex_lt(r, s));
        }
    } else if s.len() == 0 {
        assert(!lex_lt(r, s));
    } else if s[0] != r[0] {
        assert(s[0] < r[0]);
        if r.len() <= s.len() {
            assert(s.take(r.len() as int)[0] == s[0]);
        }
    } else {
        lemma_same_head(s, r);
        lemma_same_head(r, s);
        lemma_ff_prefix(r.drop_first(), s.drop_first());
    }
}

/// Every key with `k` as a byte prefix lies in `[k, prefix_end(k))`, and no
/// other key does, whenever some byte of `k` is below 0xFF.
pub proof fn lemma_prefix_range(k: Seq<u8>, k2: Seq<u8>)
    requires
        !all_ff(k),
    ensures
        lex_lt(k, prefix_end(k)),
        has_prefix(k2, k) <==> (lex_le(k, k2) && lex_lt(k2, prefix_end(k))),
    decreases k.len(),
{
    let x = k[0];
    let rest = k.drop_first();
    lemma_split(k);
    let e = prefix_end(k);
    if !all_ff(rest) {
        lemma_end_of_tail(x, rest);
        lemma_prefix_range(rest, k2.drop_first());
        assert(e == seq![x] + prefix_end(rest));
        assert(e[0] == x);
        assert(e.drop_first() =~= prefix_end(rest));
        lemma_same_head(k, e);
        if k2.len() == 0 {
            assert(!lex_lt(k, k2));
        } else if k2[0] != x {
            if k.len() <= k2.len() {
                assert(k2.take(k.len() as int)[0] == k2[0]);
            }
        } else {
            lemma_same_head(k2, k);
            lemma_same_head(k, k2);
            lemma_same_head(k2, e);
        }
    } else {
        assert(x < 0xFF) by {
            let i = choose|i: int| 0 <= i < k.len() && k[i] != 0xFF;
            if i > 0 {
                assert(rest[i - 1] == k[i]);
            }
        }
        lemma_end_of_ff_tail(x, rest);
        assert(e == seq![(x + 1) as u8]);
        if k2.len() == 0 {
            assert(!lex_lt(k, k2));
        } else if k2[0] != x {
            if k.len() <= k2.len() {
                assert(k2.take(k.len() as int)[0] == k2[0]);
            }
            if k2[0] == x + 1 {
                assert(!lex_lt(k2.drop_first(), e.drop_first()));
            }
        } else {
            lemma_same_head(k2, k);
            lemma_same_head(k, k2);
            lemma_ff_prefix(rest, k2.drop_first());
        }
    }
}

} // verus!
