//! The order in which the tree lists records: by creation time, then by
//! display name (as `String`'s `Ord` compares them), then by input position.
use vstd::prelude::*;

use crate::domain::Timestamp;

verus! {

/// `a` sorts strictly before `b` as `Ord` on `str` orders them; comparing
/// characters by code point gives the order of their UTF-8 bytes.
pub open spec fn text_lt(a: Seq<char>, b: Seq<char>) -> bool
    decreases a.len(),
{
    if a.len() == 0 {
        b.len() > 0
    } else if b.len() == 0 {
        false
    } else if a[0] != b[0] {
        (a[0] as u32) < (b[0] as u32)
    } else {
        text_lt(a.drop_first(), b.drop_first())
    }
}

/// `text_lt` is a strict order.
pub proof fn lemma_text_lt_irreflexive(a: Seq<char>)
    ensures
        !text_lt(a, a),
    decreases a.len(),
{
    if a.len() > 0 {
        lemma_text_lt_irreflexive(a.drop_first());
    }
}

/// `text_lt` is transitive.
pub proof fn lemma_text_lt_transitive(a: Seq<char>, b: Seq<char>, c: Seq<char>)
    requires
        text_lt(a, b),
        text_lt(b, c),
    ensures
        text_lt(a, c),
    decreases a.len(),
{
    if a.len() > 0 && b.len() > 0 && c.len() > 0 {
        if a[0] == b[0] && b[0] == c[0] {
            lemma_text_lt_transitive(a.drop_first(), b.drop_first(), c.drop_first());
        }
    }
}

/// Two different texts are ordered one way or the other.
pub proof fn lemma_text_lt_total(a: Seq<char>, b: Seq<char>)
    ensures
        a =~= b || text_lt(a, b) || text_lt(b, a),
    decreases a.len(),
{
    if a.len() > 0 && b.len() > 0 && a[0] == b[0] {
        lemma_text_lt_total(a.drop_first(), b.drop_first());
        if a.drop_first() =~= b.drop_first() {
            assert(a =~= seq![a[0]] + a.drop_first());
            assert(b =~= seq![b[0]] + b.drop_first());
        }
    }
    if a.len() > 0 && b.len() > 0 && a[0] != b[0] {
        vstd::utf8::char_u32_cast(a[0], a[0] as u32);
        vstd::utf8::char_u32_cast(b[0], b[0] as u32);
        assert((a[0] as u32) != (b[0] as u32));
    }
}

/// Whether `a` sorts strictly before `b`.
pub fn chars_lt(a: &[char], b: &[char]) -> (r: bool)
    ensures
        r == text_lt(a@, b@),
{
    let mut i: usize = 0;
    proof {
        assert(a@.subrange(0, a@.len() as int) =~= a@);
        assert(b@.subrange(0, b@.len() as int) =~= b@);
    }
    while i < a.len() && i < b.len() && a[i] == b[i]
        invariant
            0 <= i <= a.len(),
            i <= b.len(),
            text_lt(a@, b@) == text_lt(a@.subrange(i as int, a@.len() as int), b@.subrange(i as int, b@.len() as int)),
        decreases a.len() - i,
    {
        proof {
            let sa = a@.subrange(i as int, a@.len() as int);
            let sb = b@.subrange(i as int, b@.len() as int);
            assert(sa.drop_first() =~= a@.subrange(i + 1, a@.len() as int));
            assert(sb.drop_first() =~= b@.subrange(i + 1, b@.len() as int));
        }
        i = i + 1;
    }
    proof {
        assert(a@.subrange(0, a@.len() as int) =~= a@);
        assert(b@.subrange(0, b@.len() as int) =~= b@);
    }
    if i == a.len() {
        i < b.len()
    } else if i == b.len() {
        false
    } else {
        (a[i] as u32) < (b[i] as u32)
    }
}

/// Sort key of a tree record: creation time, then display name.
pub struct SortKey {
    pub at: Timestamp,
    pub name: Seq<char>,
}

/// `a` sorts strictly before `b` by key.
pub open spec fn key_lt(a: SortKey, b: SortKey) -> bool {
    a.at.before(b.at) || (a.at == b.at && text_lt(a.name, b.name))
}

/// `a` and `b` have the same key.
pub open spec fn key_eq(a: SortKey, b: SortKey) -> bool {
    a.at == b.at && a.name =~= b.name
}

/// Input position `i` comes before input position `j` in the sorted order:
/// a smaller key, or the same key and an earlier position (the sort is stable).
pub open spec fn rank_lt(keys: Seq<SortKey>, i: int, j: int) -> bool {
    key_lt(keys[i], keys[j]) || (key_eq(keys[i], keys[j]) && i < j)
}

/// `perm` lists the input positions `0..keys.len()` in sorted order.
pub open spec fn sorted_positions(keys: Seq<SortKey>, perm: Seq<int>) -> bool {
    &&& perm.len() == keys.len()
    &&& forall|k: int| 0 <= k < perm.len() ==> 0 <= #[trigger] perm[k] < keys.len()
    &&& forall|k1: int, k2: int|
        0 <= k1 < k2 < perm.len() ==> rank_lt(keys, #[trigger] perm[k1], #[trigger] perm[k2])
}

/// A timestamp order fact: `before` is a strict total order.
pub proof fn lemma_key_order(a: SortKey, b: SortKey, c: SortKey)
    ensures
        !key_lt(a, a),
        key_lt(a, b) && key_lt(b, c) ==> key_lt(a, c),
        key_lt(a, b) || key_lt(b, a) || key_eq(a, b),
        key_lt(a, b) ==> !key_lt(b, a) && !key_eq(a, b),
{
    lemma_text_lt_irreflexive(a.name);
    if key_lt(a, b) && key_lt(b, c) && a.at == b.at && b.at == c.at {
        lemma_text_lt_transitive(a.name, b.name, c.name);
    }
    lemma_text_lt_total(a.name, b.name);
    if key_lt(a, b) && a.at == b.at && text_lt(b.name, a.name) {
        lemma_text_lt_transitive(a.name, b.name, a.name);
    }
    if key_lt(a, b) && a.name =~= b.name {
        assert(a.name == b.name);
        lemma_text_lt_irreflexive(a.name);
    }
}

/// The sort keys of keyed entries.
pub open spec fn keys_of<E>(s: Seq<(Timestamp, Vec<char>, E)>) -> Seq<SortKey> {
    s.map_values(|e: (Timestamp, Vec<char>, E)| SortKey { at: e.0, name: e.1@ })
}

/// Whether entry key `a` sorts strictly before `b`.
fn entry_lt(a_at: &Timestamp, a_name: &Vec<char>, b_at: &Timestamp, b_name: &Vec<char>) -> (r: bool)
    ensures
        r == key_lt(SortKey { at: *a_at, name: a_name@ }, SortKey { at: *b_at, name: b_name@ }),
{
    if a_at.is_before(b_at) {
        true
    } else if a_at.seconds == b_at.seconds && a_at.nanos == b_at.nanos {
        chars_lt(a_name.as_slice(), b_name.as_slice())
    } else {
        false
    }
}

/// Sorts keyed entries by creation time, then name; entries with equal keys
/// keep their input order (as `slice::sort_by` does).
pub fn sort_entries<E>(items: Vec<(Timestamp, Vec<char>, E)>) -> (r: Vec<(Timestamp, Vec<char>, E)>)
    ensures
        exists|perm: Seq<int>|
            sorted_positions(keys_of(items@), perm) && r@.len() == items@.len() && forall|k: int|
                0 <= k < r@.len() ==> #[trigger] r@[k] == items@[perm[k]],
{
    let ghost orig = items@;
    let ghost keys = keys_of(orig);
    let n = items.len();
    let mut items = items;
    let mut out: Vec<(Timestamp, Vec<char>, E)> = Vec::new();
    let ghost mut perm: Seq<int> = Seq::empty();
    while items.len() > 0
        invariant
            keys == keys_of(orig),
            n == orig.len(),
            items@ == orig.subrange(0, items@.len() as int),
            out@.len() == n - items@.len(),
            perm.len() == out@.len(),
            forall|k: int| 0 <= k < perm.len() ==> items@.len() <= #[trigger] perm[k] < n,
            forall|k: int| 0 <= k < out@.len() ==> #[trigger] out@[k] == orig[perm[k]],
            forall|k1: int, k2: int|
                0 <= k1 < k2 < perm.len() ==> rank_lt(keys, #[trigger] perm[k1], #[trigger] perm[k2]),
        decreases items@.len(),
    {
        let x = items.pop().unwrap();
        let ghost xi = items@.len() as int;
        assert(x == orig[xi]);
        assert(items@ =~= orig.subrange(0, items@.len() as int));
        let mut p: usize = 0;
        while p < out.len() && entry_lt(&out[p].0, &out[p].1, &x.0, &x.1)
            invariant
                0 <= p <= out@.len(),
                forall|k: int| 0 <= k < p ==> key_lt(keys[perm[k]], keys[xi]),
                forall|k: int| 0 <= k < perm.len() ==> 0 <= #[trigger] perm[k] < n,
                n == orig.len(),
                keys == keys_of(orig),
                perm.len() == out@.len(),
                0 <= xi < orig.len(),
                x == orig[xi],
                forall|k: int| 0 <= k < out@.len() ==> #[trigger] out@[k] == orig[perm[k]],
            decreases out@.len() - p,
        {
            proof {
                assert(keys[perm[p as int]] == SortKey { at: out@[p as int].0, name: out@[p as int].1@ });
                assert(keys[xi] == SortKey { at: x.0, name: x.1@ });
            }
            p = p + 1;
        }
        proof {
            if p < out@.len() {
                assert(keys[perm[p as int]] == SortKey { at: out@[p as int].0, name: out@[p as int].1@ });
                assert(keys[xi] == SortKey { at: x.0, name: x.1@ });
            }
        }
        proof {
            assert forall|k: int| p <= k < perm.len() implies rank_lt(keys, xi, #[trigger] perm[k]) by {
                let kp = keys[perm[p as int]];
                let kx = keys[xi];
                let kk = keys[perm[k]];
                assert(!key_lt(kp, kx));
                lemma_key_order(kx, kp, kk);
                lemma_key_order(kp, kx, kk);
                if k > p {
                    assert(rank_lt(keys, perm[p as int], perm[k]));
                }
                if key_eq(kx, kp) {
                    assert(kx.name == kp.name);
                }
                if k > p && key_eq(kp, kk) {
                    assert(kp.name == kk.name);
                }
            }
        }
        let ghost old_perm = perm;
        let ghost old_out = out@;
        out.insert(p, x);
        proof {
            perm = old_perm.insert(p as int, xi);
            assert forall|k1: int, k2: int|
                0 <= k1 < k2 < perm.len() implies rank_lt(keys, #[trigger] perm[k1], #[trigger] perm[k2]) by {
                if k1 < p && k2 < p {
                    assert(perm[k1] == old_perm[k1] && perm[k2] == old_perm[k2]);
                } else if k1 < p && k2 == p {
                    assert(perm[k1] == old_perm[k1]);
                } else if k1 < p && k2 > p {
                    assert(perm[k1] == old_perm[k1] && perm[k2] == old_perm[k2 - 1]);
                } else if k1 == p {
                    assert(perm[k2] == old_perm[k2 - 1]);
                } else {
                    assert(perm[k1] == old_perm[k1 - 1] && perm[k2] == old_perm[k2 - 1]);
                }
            }
            assert forall|k: int| 0 <= k < out@.len() implies #[trigger] out@[k] == orig[perm[k]] by {
                if k < p {
                    assert(out@[k] == old_out[k]);
                } else if k > p {
                    assert(out@[k] == old_out[k - 1]);
                }
            }
        }
    }
    proof {
        assert forall|k: int| 0 <= k < perm.len() implies 0 <= #[trigger] perm[k] < keys.len() by {}
        assert(sorted_positions(keys, perm));
    }
    out
}

} // verus!
