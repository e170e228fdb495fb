//! Stable sorting by a textual key: the order in which cached guilds and
//! soundboard sounds are kept.

use vstd::prelude::*;
use crate::text::{
    lemma_lex_asymmetric, lemma_lex_irreflexive, lemma_lex_le_transitive, lemma_lex_trichotomy,
    lex_le, lex_less, lex_lt,
};

verus! {

/// `p` lists each index below `n` exactly once.
pub open spec fn is_permutation(p: Seq<int>, n: nat) -> bool {
    &&& p.len() == n
    &&& forall|i: int| 0 <= i < n ==> 0 <= #[trigger] p[i] < n
    &&& forall|i: int, j: int| 0 <= i < j < n ==> p[i] != p[j]
    &&& forall|v: int| 0 <= v < n ==> #[trigger] lists(p, v)
}

/// `v` occurs in `p`.
pub open spec fn lists(p: Seq<int>, v: int) -> bool {
    exists|i: int| 0 <= i < p.len() && p[i] == v
}

/// The keys of `s` never decrease.
pub open spec fn sorted_by<T>(s: Seq<T>, key: spec_fn(T) -> Seq<char>) -> bool {
    forall|i: int, j: int| 0 <= i < j < s.len() ==> lex_le(key(s[i]), key(s[j]))
}

/// `p` shows that `output` is `input` reordered by `key`, with items of equal
/// key in their original relative order.
pub open spec fn stable_sort_witness<T>(
    input: Seq<T>,
    output: Seq<T>,
    key: spec_fn(T) -> Seq<char>,
    p: Seq<int>,
) -> bool {
    &&& is_permutation(p, input.len())
    &&& output.len() == input.len()
    &&& forall|i: int| 0 <= i < output.len() ==> output[i] == input[#[trigger] p[i]]
    &&& sorted_by(output, key)
    &&& forall|i: int, j: int|
        0 <= i < j < output.len() && key(output[i]) == key(output[j]) ==> p[i] < p[j]
}

/// `output` is the stable sort of `input` by `key`.
pub open spec fn is_stable_sort<T>(
    input: Seq<T>,
    output: Seq<T>,
    key: spec_fn(T) -> Seq<char>,
) -> bool {
    exists|p: Seq<int>| stable_sort_witness(input, output, key, p)
}

/// Two witnesses of stable sorts of the same input by the same key agree on
/// their first `i` positions.
proof fn lemma_witnesses_agree<T>(
    input: Seq<T>,
    o1: Seq<T>,
    o2: Seq<T>,
    key: spec_fn(T) -> Seq<char>,
    p1: Seq<int>,
    p2: Seq<int>,
    i: int,
)
    requires
        stable_sort_witness(input, o1, key, p1),
        stable_sort_witness(input, o2, key, p2),
        0 <= i <= input.len(),
    ensures
        forall|k: int| 0 <= k < i ==> p1[k] == p2[k],
    decreases i,
{
    if i > 0 {
        let n = input.len();
        lemma_witnesses_agree(input, o1, o2, key, p1, p2, i - 1);
        let c = i - 1;
        let a = p1[c];
        let b = p2[c];
        if a != b {
            assert(0 <= b < n);
            assert(lists(p1, b));
            let j = choose|j: int| 0 <= j < p1.len() && p1[j] == b;
            assert(0 <= a < n);
            assert(lists(p2, a));
            let l = choose|l: int| 0 <= l < p2.len() && p2[l] == a;
            if j < c {
                assert(p2[j] == b);
            }
            if l < c {
                assert(p1[l] == a);
            }
            assert(c < j && c < l);
            assert(o1[c] == input[a] && o1[j] == input[b]);
            assert(o2[c] == input[b] && o2[l] == input[a]);
            assert(lex_le(key(input[a]), key(input[b])));
            assert(lex_le(key(input[b]), key(input[a])));
            lemma_lex_trichotomy(key(input[a]), key(input[b]));
            assert(p1[c] < p1[j]);
            assert(p2[c] < p2[l]);
        }
    }
}

/// A stable sort is unique: two stable sorts of the same input by the same
/// key are the same sequence.
pub proof fn lemma_stable_sort_unique<T>(
    input: Seq<T>,
    o1: Seq<T>,
    o2: Seq<T>,
    key: spec_fn(T) -> Seq<char>,
)
    requires
        is_stable_sort(input, o1, key),
        is_stable_sort(input, o2, key),
    ensures
        o1 == o2,
{
    let p1 = choose|p: Seq<int>| stable_sort_witness(input, o1, key, p);
    let p2 = choose|p: Seq<int>| stable_sort_witness(input, o2, key, p);
    lemma_witnesses_agree(input, o1, o2, key, p1, p2, input.len() as int);
    assert forall|k: int| 0 <= k < o1.len() implies o1[k] == o2[k] by {
        assert(o1[k] == input[p1[k]]);
        assert(o2[k] == input[p2[k]]);
    }
    assert(o1 =~= o2);
}

/// `p` shows that `output` is `input` reordered by `keys` (one key per input
/// item), with items of equal key in their original relative order.
pub open spec fn keyed_sort_witness<T>(
    input: Seq<T>,
    keys: Seq<Seq<char>>,
    output: Seq<T>,
    p: Seq<int>,
) -> bool {
    &&& is_permutation(p, input.len())
    &&& output.len() == input.len()
    &&& forall|i: int| 0 <= i < output.len() ==> output[i] == input[#[trigger] p[i]]
    &&& forall|i: int, j: int|
        0 <= i < j < output.len() ==> lex_le(keys[#[trigger] p[i]], keys[#[trigger] p[j]])
    &&& forall|i: int, j: int|
        0 <= i < j < output.len() && keys[#[trigger] p[i]] == keys[#[trigger] p[j]] ==> p[i] < p[j]
}

/// `output` is the stable sort of `input` by `keys`, the key of `input[i]`
/// being `keys[i]`.
pub open spec fn is_stable_sort_by_keys<T>(
    input: Seq<T>,
    keys: Seq<Seq<char>>,
    output: Seq<T>,
) -> bool {
    &&& keys.len() == input.len()
    &&& exists|p: Seq<int>| keyed_sort_witness(input, keys, output, p)
}

/// The views of a list of keys.
pub open spec fn key_views(keys: Seq<Vec<char>>) -> Seq<Seq<char>> {
    keys.map_values(|k: Vec<char>| k@)
}

/// Sorting by keys that are the key function's values on the items is
/// sorting by that key function.
pub proof fn lemma_sort_by_keys_is_sort_by_key<T>(
    input: Seq<T>,
    keys: Seq<Seq<char>>,
    output: Seq<T>,
    key: spec_fn(T) -> Seq<char>,
)
    requires
        is_stable_sort_by_keys(input, keys, output),
        forall|i: int| 0 <= i < input.len() ==> #[trigger] keys[i] == key(input[i]),
    ensures
        is_stable_sort(input, output, key),
{
    let p = choose|p: Seq<int>| keyed_sort_witness(input, keys, output, p);
    assert forall|i: int| 0 <= i < output.len() implies key(output[i]) == keys[p[i]] by {
        assert(output[i] == input[p[i]]);
        assert(keys[p[i]] == key(input[p[i]]));
    }
    assert forall|i: int, j: int| 0 <= i < j < output.len() implies lex_le(
        key(output[i]),
        key(output[j]),
    ) by {
        assert(key(output[i]) == keys[p[i]]);
        assert(key(output[j]) == keys[p[j]]);
    }
    assert forall|i: int, j: int|
        0 <= i < j < output.len() && key(output[i]) == key(output[j]) implies p[i] < p[j] by {
        assert(key(output[i]) == keys[p[i]]);
        assert(key(output[j]) == keys[p[j]]);
    }
    assert(stable_sort_witness(input, output, key, p));
}

/// Sorts `items` stably by `keys`, the key of `items[i]` being `keys[i]`:
/// keys compare character by character by code point, a proper prefix first.
pub fn stable_sort_by_key<T>(items: Vec<T>, keys: Vec<Vec<char>>) -> (res: Vec<T>)
    requires
        items@.len() == keys@.len(),
    ensures
        is_stable_sort_by_keys(items@, key_views(keys@), res@),
{
    let ghost input = items@;
    let ghost kv = key_views(keys@);
    let ghost n = items@.len();
    let mut items = items;
    let mut keys = keys;
    let mut out: Vec<T> = Vec::new();
    let mut out_keys: Vec<Vec<char>> = Vec::new();
    let ghost mut p: Seq<int> = Seq::empty();
    while items.len() > 0
        invariant
            n == input.len(),
            kv.len() == n,
            items@.len() <= n,
            items@ == input.take(items@.len() as int),
            keys@.len() == items@.len(),
            forall|i: int| 0 <= i < items@.len() ==> #[trigger] keys@[i]@ == kv[i],
            out@.len() == n - items@.len(),
            out_keys@.len() == out@.len(),
            p.len() == out@.len(),
            forall|k: int|
                0 <= k < p.len() ==> items@.len() <= #[trigger] p[k] < n && out@[k] == input[p[k]]
                    && out_keys@[k]@ == kv[p[k]],
            forall|i: int, j: int| 0 <= i < j < p.len() ==> p[i] != p[j],
            forall|v: int| items@.len() <= v < n ==> #[trigger] lists(p, v),
            forall|i: int, j: int|
                0 <= i < j < p.len() ==> lex_le(kv[#[trigger] p[i]], kv[#[trigger] p[j]]),
            forall|i: int, j: int|
                0 <= i < j < p.len() && kv[#[trigger] p[i]] == kv[#[trigger] p[j]] ==> p[i] < p[j],
        decreases items@.len(),
    {
        let x = items.pop().unwrap();
        let kx = keys.pop().unwrap();
        let m = items.len();
        assert(x == input[m as int]);
        assert(kx@ == kv[m as int]);
        assert(items@ =~= input.take(m as int));
        let mut pos: usize = 0;
        loop
            invariant
                pos <= out_keys@.len(),
                out_keys@.len() == out@.len(),
                forall|k: int| 0 <= k < pos ==> lex_lt(#[trigger] out_keys@[k]@, kx@),
            ensures
                pos <= out_keys@.len(),
                forall|k: int| 0 <= k < pos ==> lex_lt(#[trigger] out_keys@[k]@, kx@),
                pos < out_keys@.len() ==> !lex_lt(out_keys@[pos as int]@, kx@),
            decreases out_keys@.len() - pos,
        {
            if pos >= out_keys.len() {
                break;
            }
            if !lex_less(&out_keys[pos], &kx) {
                break;
            }
            pos = pos + 1;
        }
        let ghost old_out = out@;
        let ghost old_p = p;
        let ghost old_keys = out_keys@;
        out.insert(pos, x);
        out_keys.insert(pos, kx);
        proof {
            p = old_p.insert(pos as int, m as int);
            old_out.insert_ensures(pos as int, x);
            old_p.insert_ensures(pos as int, m as int);
            old_keys.insert_ensures(pos as int, kx);
            assert forall|k: int| 0 <= k < p.len() implies m <= #[trigger] p[k] < n && out@[k]
                == input[p[k]] && out_keys@[k]@ == kv[p[k]] by {
                if k < pos {
                } else if k == pos {
                } else {
                    assert(p[k] == old_p[k - 1]);
                    assert(out_keys@[k] == old_keys[k - 1]);
                }
            }
            assert forall|i: int, j: int| 0 <= i < j < p.len() implies lex_le(
                kv[#[trigger] p[i]],
                kv[#[trigger] p[j]],
            ) by {
                if j < pos {
                    assert(p[i] == old_p[i] && p[j] == old_p[j]);
                } else if j == pos {
                    assert(p[i] == old_p[i]);
                    assert(old_keys[i]@ == kv[old_p[i]]);
                    assert(lex_lt(old_keys[i]@, kx@));
                    lemma_lex_asymmetric(kv[old_p[i]], kx@);
                } else if i == pos {
                    assert(p[j] == old_p[j - 1]);
                    assert(old_keys[pos as int]@ == kv[old_p[pos as int]]);
                    assert(lex_le(kx@, kv[old_p[pos as int]]));
                    if j - 1 > pos {
                        lemma_lex_le_transitive(kx@, kv[old_p[pos as int]], kv[old_p[j - 1]]);
                    }
                } else if i < pos {
                    assert(p[i] == old_p[i] && p[j] == old_p[j - 1]);
                } else {
                    assert(p[i] == old_p[i - 1] && p[j] == old_p[j - 1]);
                }
            }
            assert forall|i: int, j: int|
                0 <= i < j < p.len() && kv[#[trigger] p[i]] == kv[#[trigger] p[j]] implies p[i]
                < p[j] by {
                if j < pos {
                    assert(p[i] == old_p[i] && p[j] == old_p[j]);
                } else if j == pos {
                    assert(p[i] == old_p[i]);
                    assert(old_keys[i]@ == kv[old_p[i]]);
                    assert(lex_lt(old_keys[i]@, kx@));
                    lemma_lex_irreflexive(kx@);
                } else if i == pos {
                    assert(p[j] == old_p[j - 1]);
                } else if i < pos {
                    assert(p[i] == old_p[i] && p[j] == old_p[j - 1]);
                } else {
                    assert(p[i] == old_p[i - 1] && p[j] == old_p[j - 1]);
                }
            }
            assert forall|v: int| m <= v < n implies #[trigger] lists(p, v) by {
                if v == m {
                    assert(p[pos as int] == v);
                } else {
                    assert(lists(old_p, v));
                    let k0 = choose|k: int| 0 <= k < old_p.len() && old_p[k] == v;
                    if k0 < pos {
                        assert(p[k0] == v);
                    } else {
                        assert(p[k0 + 1] == v);
                    }
                }
            }
            assert forall|i: int, j: int| 0 <= i < j < p.len() implies p[i] != p[j] by {
                if j < pos {
                } else if j == pos {
                } else if i == pos {
                    assert(p[j] == old_p[j - 1]);
                } else if i < pos {
                    assert(p[j] == old_p[j - 1]);
                } else {
                    assert(p[i] == old_p[i - 1]);
                    assert(p[j] == old_p[j - 1]);
                }
            }
        }
    }
    proof {
        assert(keyed_sort_witness(input, kv, out@, p));
    }
    out
}

} // verus!
