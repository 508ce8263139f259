//! Seed construction: accepted secrets concatenated in ascending byte order of
//! their node ids.

use vstd::prelude::*;
use vstd::utf8::{encode_utf8, encode_utf8_decode_utf8};
use crate::bytes::append_bytes;
use crate::state_machine::distinct_reveal_ids;
use crate::types::{NodeId, RevealPayload};

verus! {

/// A reveal as the seed sees it: the node id's UTF-8 bytes and the secret.
pub type SeedEntry = (Seq<u8>, Seq<u8>);

/// `lt_at(a, b, i)`: `a` and `b` agree before `i`, and at `i` either `a` has ended
/// while `b` goes on, or both go on and `a[i] < b[i]`.
pub open spec fn lt_at(a: Seq<u8>, b: Seq<u8>, i: int) -> bool {
    &&& 0 <= i <= a.len()
    &&& i < b.len()
    &&& forall|j: int| 0 <= j < i ==> a[j] == b[j]
    &&& i < a.len() ==> a[i] < b[i]
}

/// Byte-wise lexicographic order, strict.
pub open spec fn bytes_lt(a: Seq<u8>, b: Seq<u8>) -> bool {
    exists|i: int| lt_at(a, b, i)
}

/// The bytes by which a node id is ordered.
pub open spec fn node_key(id: NodeId) -> Seq<u8> {
    encode_utf8(id@)
}

pub open spec fn entry_model(e: (NodeId, RevealPayload)) -> SeedEntry {
    (node_key(e.0), e.1.secret@)
}

pub open spec fn reveals_model(r: Seq<(NodeId, RevealPayload)>) -> Seq<SeedEntry> {
    r.map_values(|e: (NodeId, RevealPayload)| entry_model(e))
}

/// Inserts `x` before the first entry whose key is greater than its own.
pub open spec fn insert_sorted(s: Seq<SeedEntry>, x: SeedEntry) -> Seq<SeedEntry>
    decreases s.len(),
{
    if s.len() == 0 {
        seq![x]
    } else if bytes_lt(x.0, s[0].0) {
        seq![x] + s
    } else {
        seq![s[0]] + insert_sorted(s.drop_first(), x)
    }
}

/// The entries ordered by key.
pub open spec fn sort_entries(e: Seq<SeedEntry>) -> Seq<SeedEntry>
    decreases e.len(),
{
    if e.len() == 0 {
        seq![]
    } else {
        insert_sorted(sort_entries(e.drop_last()), e.last())
    }
}

/// The secrets of `s`, one after another.
pub open spec fn concat_secrets(s: Seq<SeedEntry>) -> Seq<u8>
    decreases s.len(),
{
    if s.len() == 0 {
        seq![]
    } else {
        concat_secrets(s.drop_last()) + s.last().1
    }
}

/// The seed of a set of reveals.
pub open spec fn seed_spec(e: Seq<SeedEntry>) -> Seq<u8> {
    concat_secrets(sort_entries(e))
}

pub open spec fn strictly_sorted(s: Seq<SeedEntry>) -> bool {
    forall|i: int, j: int| 0 <= i < j < s.len() ==> bytes_lt(#[trigger] s[i].0, #[trigger] s[j].0)
}

pub open spec fn distinct_keys(e: Seq<SeedEntry>) -> bool {
    forall|i: int, j: int| 0 <= i < j < e.len() ==> #[trigger] e[i].0 != #[trigger] e[j].0
}

/// Distinct node ids have distinct keys.
pub proof fn lemma_node_key_injective(a: NodeId, b: NodeId)
    requires
        a@ != b@,
    ensures
        node_key(a) != node_key(b),
{
    encode_utf8_decode_utf8(a@);
    encode_utf8_decode_utf8(b@);
}

pub proof fn lemma_lt_irreflexive(a: Seq<u8>)
    ensures
        !bytes_lt(a, a),
{
}

pub proof fn lemma_lt_transitive(a: Seq<u8>, b: Seq<u8>, c: Seq<u8>)
    requires
        bytes_lt(a, b),
        bytes_lt(b, c),
    ensures
        bytes_lt(a, c),
{
    let i = choose|i: int| lt_at(a, b, i);
    let k = choose|k: int| lt_at(b, c, k);
    if i <= k {
        assert(lt_at(a, c, i));
    } else {
        assert(lt_at(a, c, k));
    }
}

proof fn lemma_lt_total_from(a: Seq<u8>, b: Seq<u8>, i: int)
    requires
        0 <= i <= a.len(),
        i <= b.len(),
        forall|j: int| 0 <= j < i ==> a[j] == b[j],
        a != b,
    ensures
        bytes_lt(a, b) || bytes_lt(b, a),
    decreases a.len() - i,
{
    if i == a.len() && i == b.len() {
        assert(a =~= b);
    } else if i == a.len() {
        assert(lt_at(a, b, i));
    } else if i == b.len() {
        assert(lt_at(b, a, i));
    } else if a[i] < b[i] {
        assert(lt_at(a, b, i));
    } else if b[i] < a[i] {
        assert(lt_at(b, a, i));
    } else {
        lemma_lt_total_from(a, b, i + 1);
    }
}

pub proof fn lemma_lt_total(a: Seq<u8>, b: Seq<u8>)
    requires
        a != b,
    ensures
        bytes_lt(a, b) || bytes_lt(b, a),
{
    lemma_lt_total_from(a, b, 0);
}

/// `bytes_lt` computed by a scan of the common prefix.
pub fn bytes_less(a: &[u8], b: &[u8]) -> (r: bool)
    ensures
        r == bytes_lt(a@, b@),
{
    let mut i: usize = 0;
    while i < a.len() && i < b.len()
        invariant
            i <= a@.len(),
            i <= b@.len(),
            forall|j: int| 0 <= j < i ==> a@[j] == b@[j],
        decreases a@.len() - i,
    {
        if a[i] != b[i] {
            if a[i] < b[i] {
                assert(lt_at(a@, b@, i as int));
                return true;
            } else {
                assert(lt_at(b@, a@, i as int));
                proof {
                    if bytes_lt(a@, b@) {
                        lemma_lt_transitive(a@, b@, a@);
                    }
                }
                return false;
            }
        }
        i = i + 1;
    }
    if i < b.len() {
        assert(lt_at(a@, b@, i as int));
        true
    } else {
        proof {
            if bytes_lt(a@, b@) {
                let k = choose|k: int| lt_at(a@, b@, k);
                assert(k < b@.len());
            }
        }
        false
    }
}

/// Inserting at the first position whose key is greater is `insert_sorted`.
proof fn lemma_insert_at(s: Seq<SeedEntry>, x: SeedEntry, p: int)
    requires
        0 <= p <= s.len(),
        forall|q: int| 0 <= q < p ==> !bytes_lt(x.0, #[trigger] s[q].0),
        p == s.len() || bytes_lt(x.0, s[p].0),
    ensures
        insert_sorted(s, x) == s.insert(p, x),
    decreases p,
{
    if p == 0 {
        if s.len() == 0 {
            assert(s.insert(0, x) =~= seq![x]);
        } else {
            assert(s.insert(0, x) =~= seq![x] + s);
        }
    } else {
        assert(!bytes_lt(x.0, s[0].0));
        let t = s.drop_first();
        assert forall|q: int| 0 <= q < p - 1 implies !bytes_lt(x.0, #[trigger] t[q].0) by {
            assert(t[q] == s[q + 1]);
        }
        lemma_insert_at(t, x, p - 1);
        assert(seq![s[0]] + t.insert(p - 1, x) =~= s.insert(p, x));
    }
}

/// Indices of `reveals` in ascending order of node-id bytes, ties in input order.
fn sorted_order(reveals: &Vec<(NodeId, RevealPayload)>) -> (order: Vec<usize>)
    ensures
        order@.len() == reveals@.len(),
        forall|k: int| 0 <= k < order@.len() ==> order@[k] < reveals@.len(),
        order@.map_values(|i: usize| reveals_model(reveals@)[i as int]) == sort_entries(reveals_model(reveals@)),
{
    let ghost m = reveals_model(reveals@);
    let mut order: Vec<usize> = Vec::new();
    let mut i: usize = 0;
    assert(m.subrange(0, 0) =~= Seq::<SeedEntry>::empty());
    assert(order@.map_values(|i: usize| m[i as int]) =~= Seq::<SeedEntry>::empty());
    while i < reveals.len()
        invariant
            i <= reveals@.len(),
            m == reveals_model(reveals@),
            order@.len() == i,
            forall|k: int| 0 <= k < order@.len() ==> order@[k] < i,
            order@.map_values(|j: usize| m[j as int]) == sort_entries(m.subrange(0, i as int)),
        decreases reveals@.len() - i,
    {
        let ghost s = order@.map_values(|j: usize| m[j as int]);
        let key = reveals[i].0.as_str().as_bytes();
        let mut p: usize = 0;
        while p < order.len() && !bytes_less(key, reveals[order[p]].0.as_str().as_bytes())
            invariant
                p <= order@.len(),
                i < reveals@.len(),
                m == reveals_model(reveals@),
                key@ == m[i as int].0,
                s == order@.map_values(|j: usize| m[j as int]),
                forall|k: int| 0 <= k < order@.len() ==> order@[k] < i,
                forall|q: int| 0 <= q < p ==> !bytes_lt(m[i as int].0, #[trigger] s[q].0),
            decreases order@.len() - p,
        {
            p = p + 1;
        }
        proof {
            lemma_insert_at(s, m[i as int], p as int);
            assert(m.subrange(0, i + 1).drop_last() =~= m.subrange(0, i as int));
        }
        order.insert(p, i);
        assert(order@.map_values(|j: usize| m[j as int]) =~= s.insert(p as int, m[i as int]));
        i = i + 1;
    }
    assert(m.subrange(0, m.len() as int) =~= m);
    order
}

/// Concatenates the secrets of `reveals` in ascending byte order of node id, so
/// that the seed depends on the set of reveals and not on the order of arrival.
pub fn sort_and_concatenate_secrets(reveals: Vec<(NodeId, RevealPayload)>) -> (r: Vec<u8>)
    ensures
        r@ == seed_spec(reveals_model(reveals@)),
{
    seed_of(&reveals)
}

/// `sort_and_concatenate_secrets` on a borrowed vector.
pub fn seed_of(reveals: &Vec<(NodeId, RevealPayload)>) -> (r: Vec<u8>)
    ensures
        r@ == seed_spec(reveals_model(reveals@)),
{
    let ghost m = reveals_model(reveals@);
    let order = sorted_order(reveals);
    let ghost s = order@.map_values(|j: usize| m[j as int]);
    let mut r: Vec<u8> = Vec::new();
    let mut k: usize = 0;
    assert(s.subrange(0, 0) =~= Seq::<SeedEntry>::empty());
    while k < order.len()
        invariant
            k <= order@.len(),
            m == reveals_model(reveals@),
            s == order@.map_values(|j: usize| m[j as int]),
            forall|q: int| 0 <= q < order@.len() ==> order@[q] < reveals@.len(),
            r@ == concat_secrets(s.subrange(0, k as int)),
        decreases order@.len() - k,
    {
        let idx = order[k];
        append_bytes(&mut r, &reveals[idx].1.secret);
        assert(s.subrange(0, k + 1).drop_last() =~= s.subrange(0, k as int));
        k = k + 1;
    }
    assert(s.subrange(0, s.len() as int) =~= s);
    r
}

proof fn lemma_insert_sorted_props(s: Seq<SeedEntry>, x: SeedEntry)
    requires
        strictly_sorted(s),
        forall|k: int| 0 <= k < s.len() ==> (#[trigger] s[k]).0 != x.0,
    ensures
        strictly_sorted(insert_sorted(s, x)),
        insert_sorted(s, x).len() == s.len() + 1,
        forall|y: SeedEntry|
            #![trigger insert_sorted(s, x).contains(y)]
            #![trigger s.contains(y)]
            insert_sorted(s, x).contains(y) <==> (s.contains(y) || y == x),
    decreases s.len(),
{
    let r = insert_sorted(s, x);
    if s.len() == 0 {
        assert(r =~= seq![x]);
        assert(r[0] == x);
    } else if bytes_lt(x.0, s[0].0) {
        assert forall|i: int, j: int| 0 <= i < j < r.len() implies bytes_lt(#[trigger] r[i].0, #[trigger] r[j].0) by {
            if i == 0 {
                if j > 1 {
                    lemma_lt_transitive(x.0, s[0].0, s[j - 1].0);
                }
            } else {
                assert(r[i] == s[i - 1] && r[j] == s[j - 1]);
            }
        }
        assert forall|y: SeedEntry| r.contains(y) <==> (s.contains(y) || y == x) by {
            if r.contains(y) {
                let k = choose|k: int| 0 <= k < r.len() && r[k] == y;
                if k > 0 {
                    assert(s[k - 1] == y);
                }
            }
            if s.contains(y) {
                let k = choose|k: int| 0 <= k < s.len() && s[k] == y;
                assert(r[k + 1] == y);
            }
            if y == x {
                assert(r[0] == y);
            }
        }
    } else {
        let t = s.drop_first();
        assert forall|i: int, j: int| 0 <= i < j < t.len() implies bytes_lt(#[trigger] t[i].0, #[trigger] t[j].0) by {
            assert(t[i] == s[i + 1] && t[j] == s[j + 1]);
        }
        assert forall|k: int| 0 <= k < t.len() implies (#[trigger] t[k]).0 != x.0 by {
            assert(t[k] == s[k + 1]);
        }
        lemma_insert_sorted_props(t, x);
        let rest = insert_sorted(t, x);
        assert(r == seq![s[0]] + rest);
        lemma_lt_total(s[0].0, x.0);
        assert forall|j: int| 0 <= j < rest.len() implies bytes_lt(s[0].0, (#[trigger] rest[j]).0) by {
            assert(rest.contains(rest[j]));
            if rest[j] != x {
                assert(t.contains(rest[j]));
                let k = choose|k: int| 0 <= k < t.len() && t[k] == rest[j];
                assert(t[k] == s[k + 1]);
            }
        }
        assert forall|i: int, j: int| 0 <= i < j < r.len() implies bytes_lt(#[trigger] r[i].0, #[trigger] r[j].0) by {
            if i == 0 {
                assert(r[j] == rest[j - 1]);
            } else {
                assert(r[i] == rest[i - 1] && r[j] == rest[j - 1]);
            }
        }
        assert forall|y: SeedEntry| r.contains(y) <==> (s.contains(y) || y == x) by {
            if r.contains(y) {
                let k = choose|k: int| 0 <= k < r.len() && r[k] == y;
                if k > 0 {
                    assert(rest[k - 1] == y);
                    assert(rest.contains(y));
                    if t.contains(y) {
                        let q = choose|q: int| 0 <= q < t.len() && t[q] == y;
                        assert(s[q + 1] == y);
                    }
                } else {
                    assert(s[0] == y);
                }
            }
            if s.contains(y) {
                let k = choose|k: int| 0 <= k < s.len() && s[k] == y;
                if k == 0 {
                    assert(r[0] == y);
                } else {
                    assert(t[k - 1] == y);
                    assert(t.contains(y));
                    let q = choose|q: int| 0 <= q < rest.len() && rest[q] == y;
                    assert(r[q + 1] == y);
                }
            }
            if y == x {
                assert(rest.contains(y));
                let q = choose|q: int| 0 <= q < rest.len() && rest[q] == y;
                assert(r[q + 1] == y);
            }
        }
    }
}

proof fn lemma_sort_entries_props(e: Seq<SeedEntry>)
    requires
        distinct_keys(e),
    ensures
        strictly_sorted(sort_entries(e)),
        sort_entries(e).len() == e.len(),
        forall|y: SeedEntry| sort_entries(e).contains(y) <==> e.contains(y),
    decreases e.len(),
{
    if e.len() > 0 {
        let d = e.drop_last();
        assert forall|i: int, j: int| 0 <= i < j < d.len() implies #[trigger] d[i].0 != #[trigger] d[j].0 by {
            assert(d[i] == e[i] && d[j] == e[j]);
        }
        lemma_sort_entries_props(d);
        let s = sort_entries(d);
        assert forall|k: int| 0 <= k < s.len() implies (#[trigger] s[k]).0 != e.last().0 by {
            assert(s.contains(s[k]));
            assert(d.contains(s[k]));
            let q = choose|q: int| 0 <= q < d.len() && d[q] == s[k];
            assert(e[q] == s[k]);
        }
        lemma_insert_sorted_props(s, e.last());
        assert forall|y: SeedEntry| sort_entries(e).contains(y) <==> e.contains(y) by {
            if d.contains(y) {
                let q = choose|q: int| 0 <= q < d.len() && d[q] == y;
                assert(e[q] == y);
            }
            if e.contains(y) {
                let q = choose|q: int| 0 <= q < e.len() && e[q] == y;
                if q < d.len() {
                    assert(d[q] == y);
                } else {
                    assert(y == e.last());
                }
            }
        }
    }
}

/// Two strictly sorted sequences with the same elements are equal.
proof fn lemma_sorted_unique(s: Seq<SeedEntry>, t: Seq<SeedEntry>)
    requires
        strictly_sorted(s),
        strictly_sorted(t),
        forall|y: SeedEntry| s.contains(y) <==> t.contains(y),
    ensures
        s == t,
{
    let n = if s.len() < t.len() { s.len() } else { t.len() };
    lemma_sorted_prefix(s, t, n as int);
    if s.len() > t.len() {
        assert(s.contains(s[n as int]));
        let j = choose|j: int| 0 <= j < t.len() && t[j] == s[n as int];
        assert(s[j] == t[j]);
        lemma_lt_irreflexive(s[j].0);
    } else if t.len() > s.len() {
        assert(t.contains(t[n as int]));
        let j = choose|j: int| 0 <= j < s.len() && s[j] == t[n as int];
        assert(s[j] == t[j]);
        lemma_lt_irreflexive(t[j].0);
    }
    assert(s =~= t);
}

proof fn lemma_sorted_prefix(s: Seq<SeedEntry>, t: Seq<SeedEntry>, n: int)
    requires
        0 <= n <= s.len(),
        n <= t.len(),
        strictly_sorted(s),
        strictly_sorted(t),
        forall|y: SeedEntry| s.contains(y) <==> t.contains(y),
    ensures
        forall|i: int| 0 <= i < n ==> s[i] == t[i],
    decreases n,
{
    if n > 0 {
        lemma_sorted_prefix(s, t, n - 1);
        let i = n - 1;
        assert(s.contains(s[i]));
        assert(t.contains(t[i]));
        let j = choose|j: int| 0 <= j < t.len() && t[j] == s[i];
        let k = choose|k: int| 0 <= k < s.len() && s[k] == t[i];
        if j < i {
            assert(s[j] == t[j]);
            lemma_lt_irreflexive(s[i].0);
        } else if k < i {
            assert(s[k] == t[k]);
            lemma_lt_irreflexive(t[i].0);
        } else if j > i && k > i {
            lemma_lt_transitive(s[i].0, s[k].0, s[i].0);
            lemma_lt_irreflexive(s[i].0);
        }
    }
}

/// Honest aggregators that accept the same set of reveals (node ids distinct)
/// build byte-identical seeds, whatever order the reveals arrived in.
pub proof fn lemma_seed_depends_on_set_only(a: Seq<SeedEntry>, b: Seq<SeedEntry>)
    requires
        distinct_keys(a),
        distinct_keys(b),
        forall|y: SeedEntry| a.contains(y) <==> b.contains(y),
    ensures
        seed_spec(a) == seed_spec(b),
{
    lemma_sort_entries_props(a);
    lemma_sort_entries_props(b);
    assert forall|y: SeedEntry| sort_entries(a).contains(y) <==> sort_entries(b).contains(y) by {
        assert(sort_entries(a).contains(y) <==> a.contains(y));
        assert(sort_entries(b).contains(y) <==> b.contains(y));
        assert(a.contains(y) <==> b.contains(y));
    }
    lemma_sorted_unique(sort_entries(a), sort_entries(b));
}

/// Aggregators that accepted the same set of reveals (one per node id) build
/// byte-identical seeds, whatever order the reveals arrived in.
pub proof fn lemma_same_reveals_same_seed(a: Seq<(NodeId, RevealPayload)>, b: Seq<(NodeId, RevealPayload)>)
    requires
        distinct_reveal_ids(a),
        distinct_reveal_ids(b),
        forall|y: (NodeId, RevealPayload)| a.contains(y) <==> b.contains(y),
    ensures
        seed_spec(reveals_model(a)) == seed_spec(reveals_model(b)),
{
    lemma_distinct_ids_distinct_keys(a);
    lemma_distinct_ids_distinct_keys(b);
    let ma = reveals_model(a);
    let mb = reveals_model(b);
    assert forall|y: SeedEntry| ma.contains(y) <==> mb.contains(y) by {
        if ma.contains(y) {
            let i = choose|i: int| 0 <= i < ma.len() && ma[i] == y;
            assert(a.contains(a[i]));
            assert(b.contains(a[i]));
            let j = choose|j: int| 0 <= j < b.len() && b[j] == a[i];
            assert(mb[j] == y);
        }
        if mb.contains(y) {
            let j = choose|j: int| 0 <= j < mb.len() && mb[j] == y;
            assert(b.contains(b[j]));
            assert(a.contains(b[j]));
            let i = choose|i: int| 0 <= i < a.len() && a[i] == b[j];
            assert(ma[i] == y);
        }
    }
    lemma_seed_depends_on_set_only(ma, mb);
}

proof fn lemma_distinct_ids_distinct_keys(r: Seq<(NodeId, RevealPayload)>)
    requires
        distinct_reveal_ids(r),
    ensures
        distinct_keys(reveals_model(r)),
{
    let m = reveals_model(r);
    assert forall|i: int, j: int| 0 <= i < j < m.len() implies #[trigger] m[i].0 != #[trigger] m[j].0 by {
        lemma_node_key_injective(r[i].0, r[j].0);
    }
}

} // verus!
