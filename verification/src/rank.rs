//! The ranking of the definitions that survive the TrID reduce pass, before
//! the package is trimmed to its size: higher score first, then lower
//! extension level, then file type, MIME type, extensions and remarks in
//! ascending order, equal candidates keeping the order they came in.

use vstd::prelude::*;
use crate::strmap::{seq_lt, chars_lt, lemma_seq_lt_irreflexive, lemma_seq_lt_transitive, lemma_seq_lt_total};
use crate::text::{chars_of, chars_eq};

verus! {

/// What the ranking compares of a surviving candidate.
#[derive(Debug, Clone)]
pub struct RankKey {
    pub score: u32,
    pub level: u32,
    pub file_type: String,
    pub mime_type: String,
    pub extensions: Vec<String>,
    pub remarks: String,
}

/// The texts of a list of strings.
pub open spec fn texts_view(v: Seq<String>) -> Seq<Seq<char>> {
    v.map_values(|s: String| s@)
}

/// A rank key as plain values: score, level, file type, MIME type,
/// extensions and remarks.
pub open spec fn rank_view(k: RankKey) -> (u32, u32, Seq<char>, Seq<char>, Seq<Seq<char>>, Seq<char>) {
    (k.score, k.level, k.file_type@, k.mime_type@, texts_view(k.extensions@), k.remarks@)
}

/// Lexicographic order on lists of texts, the order of `Vec<String>`'s `Ord`.
pub open spec fn texts_lt(a: Seq<Seq<char>>, b: Seq<Seq<char>>) -> bool
    decreases a.len(),
{
    if a.len() == 0 {
        b.len() > 0
    } else if b.len() == 0 {
        false
    } else if a[0] != b[0] {
        seq_lt(a[0], b[0])
    } else {
        texts_lt(a.drop_first(), b.drop_first())
    }
}

/// Whether candidate `a` ranks ahead of candidate `b`.
pub open spec fn ranks_before(
    a: (u32, u32, Seq<char>, Seq<char>, Seq<Seq<char>>, Seq<char>),
    b: (u32, u32, Seq<char>, Seq<char>, Seq<Seq<char>>, Seq<char>),
) -> bool {
    if a.0 != b.0 {
        a.0 > b.0
    } else if a.1 != b.1 {
        a.1 < b.1
    } else if a.2 != b.2 {
        seq_lt(a.2, b.2)
    } else if a.3 != b.3 {
        seq_lt(a.3, b.3)
    } else if a.4 != b.4 {
        texts_lt(a.4, b.4)
    } else {
        seq_lt(a.5, b.5)
    }
}

/// No list of texts orders before itself.
pub proof fn lemma_texts_lt_irreflexive(a: Seq<Seq<char>>)
    ensures
        !texts_lt(a, a),
    decreases a.len(),
{
    if a.len() > 0 {
        lemma_texts_lt_irreflexive(a.drop_first());
    }
}

/// The order of lists of texts is transitive.
pub proof fn lemma_texts_lt_transitive(a: Seq<Seq<char>>, b: Seq<Seq<char>>, c: Seq<Seq<char>>)
    requires
        texts_lt(a, b),
        texts_lt(b, c),
    ensures
        texts_lt(a, c),
    decreases a.len(),
{
    if a.len() > 0 && b.len() > 0 && c.len() > 0 {
        if a[0] == b[0] && b[0] == c[0] {
            lemma_texts_lt_transitive(a.drop_first(), b.drop_first(), c.drop_first());
        } else if a[0] != b[0] && b[0] != c[0] {
            lemma_seq_lt_transitive(a[0], b[0], c[0]);
            lemma_seq_lt_irreflexive(a[0]);
        }
    }
}

/// Of two different lists of texts, one orders before the other.
pub proof fn lemma_texts_lt_total(a: Seq<Seq<char>>, b: Seq<Seq<char>>)
    ensures
        texts_lt(a, b) || texts_lt(b, a) || a == b,
    decreases a.len(),
{
    if a.len() > 0 && b.len() > 0 {
        if a[0] == b[0] {
            lemma_texts_lt_total(a.drop_first(), b.drop_first());
            if a.drop_first() == b.drop_first() {
                assert(a =~= seq![a[0]] + a.drop_first());
                assert(b =~= seq![b[0]] + b.drop_first());
            }
        } else {
            lemma_seq_lt_total(a[0], b[0]);
        }
    } else if a.len() == 0 && b.len() == 0 {
        assert(a =~= b);
    }
}

/// No candidate ranks ahead of itself.
pub proof fn lemma_ranks_before_irreflexive(a: (u32, u32, Seq<char>, Seq<char>, Seq<Seq<char>>, Seq<char>))
    ensures
        !ranks_before(a, a),
{
    lemma_seq_lt_irreflexive(a.5);
}

/// Ranking ahead is transitive.
pub proof fn lemma_ranks_before_transitive(
    a: (u32, u32, Seq<char>, Seq<char>, Seq<Seq<char>>, Seq<char>),
    b: (u32, u32, Seq<char>, Seq<char>, Seq<Seq<char>>, Seq<char>),
    c: (u32, u32, Seq<char>, Seq<char>, Seq<Seq<char>>, Seq<char>),
)
    requires
        ranks_before(a, b),
        ranks_before(b, c),
    ensures
        ranks_before(a, c),
{
    if seq_lt(a.2, b.2) && seq_lt(b.2, c.2) {
        lemma_seq_lt_transitive(a.2, b.2, c.2);
    }
    if seq_lt(a.3, b.3) && seq_lt(b.3, c.3) {
        lemma_seq_lt_transitive(a.3, b.3, c.3);
    }
    if texts_lt(a.4, b.4) && texts_lt(b.4, c.4) {
        lemma_texts_lt_transitive(a.4, b.4, c.4);
    }
    if seq_lt(a.5, b.5) && seq_lt(b.5, c.5) {
        lemma_seq_lt_transitive(a.5, b.5, c.5);
    }
    lemma_seq_lt_irreflexive(a.2);
    lemma_seq_lt_irreflexive(a.3);
    lemma_texts_lt_irreflexive(a.4);
    lemma_seq_lt_irreflexive(a.5);
}

/// Of two candidates with different keys, one ranks ahead of the other.
pub proof fn lemma_ranks_before_total(
    a: (u32, u32, Seq<char>, Seq<char>, Seq<Seq<char>>, Seq<char>),
    b: (u32, u32, Seq<char>, Seq<char>, Seq<Seq<char>>, Seq<char>),
)
    ensures
        ranks_before(a, b) || ranks_before(b, a) || a == b,
{
    lemma_seq_lt_total(a.2, b.2);
    lemma_seq_lt_total(a.3, b.3);
    lemma_texts_lt_total(a.4, b.4);
    lemma_seq_lt_total(a.5, b.5);
}


/// Compares two lists of strings in lexicographic order.
fn texts_lt_exec(a: &Vec<String>, b: &Vec<String>) -> (r: bool)
    ensures
        r == texts_lt(texts_view(a@), texts_view(b@)),
{
    let ghost va = texts_view(a@);
    let ghost vb = texts_view(b@);
    let mut i: usize = 0;
    assert(va.skip(0) =~= va);
    assert(vb.skip(0) =~= vb);
    while i < a.len() && i < b.len()
        invariant
            i <= a@.len(),
            i <= b@.len(),
            va == texts_view(a@),
            vb == texts_view(b@),
            texts_lt(va, vb) == texts_lt(va.skip(i as int), vb.skip(i as int)),
        decreases a.len() - i,
    {
        let x = chars_of(a[i].as_str());
        let y = chars_of(b[i].as_str());
        if !chars_eq(x.as_slice(), y.as_slice()) {
            return chars_lt(x.as_slice(), y.as_slice());
        }
        assert(va.skip(i as int).drop_first() =~= va.skip(i + 1));
        assert(vb.skip(i as int).drop_first() =~= vb.skip(i + 1));
        i = i + 1;
    }
    i == a.len() && i < b.len()
}

/// Whether candidate `a` ranks ahead of candidate `b`.
pub fn rank_before(a: &RankKey, b: &RankKey) -> (r: bool)
    ensures
        r == ranks_before(rank_view(*a), rank_view(*b)),
{
    if a.score != b.score {
        return a.score > b.score;
    }
    if a.level != b.level {
        return a.level < b.level;
    }
    let fa = chars_of(a.file_type.as_str());
    let fb = chars_of(b.file_type.as_str());
    if !chars_eq(fa.as_slice(), fb.as_slice()) {
        return chars_lt(fa.as_slice(), fb.as_slice());
    }
    let ma = chars_of(a.mime_type.as_str());
    let mb = chars_of(b.mime_type.as_str());
    if !chars_eq(ma.as_slice(), mb.as_slice()) {
        return chars_lt(ma.as_slice(), mb.as_slice());
    }
    proof {
        lemma_texts_lt_irreflexive(texts_view(a.extensions@));
        lemma_texts_lt_total(texts_view(a.extensions@), texts_view(b.extensions@));
        if texts_lt(texts_view(a.extensions@), texts_view(b.extensions@))
            && texts_lt(texts_view(b.extensions@), texts_view(a.extensions@)) {
            lemma_texts_lt_transitive(texts_view(a.extensions@), texts_view(b.extensions@), texts_view(a.extensions@));
        }
    }
    if texts_lt_exec(&a.extensions, &b.extensions) {
        return true;
    }
    if texts_lt_exec(&b.extensions, &a.extensions) {
        return false;
    }
    let ra = chars_of(a.remarks.as_str());
    let rb = chars_of(b.remarks.as_str());
    chars_lt(ra.as_slice(), rb.as_slice())
}

/// The rank keys as plain values.
pub open spec fn rank_views(keys: Seq<RankKey>) -> Seq<(u32, u32, Seq<char>, Seq<char>, Seq<Seq<char>>, Seq<char>)> {
    keys.map_values(|k: RankKey| rank_view(k))
}

/// `order` lists the first `n` candidates of `views`, each once, with no
/// candidate ranked ahead of one listed before it, and candidates of equal
/// key in the order they came in.
pub open spec fn ranked_prefix(
    views: Seq<(u32, u32, Seq<char>, Seq<char>, Seq<Seq<char>>, Seq<char>)>,
    order: Seq<usize>,
    n: nat,
) -> bool {
    &&& order.len() == n
    &&& forall|i: int| 0 <= i < order.len() ==> #[trigger] order[i] < n
    &&& forall|i: int, j: int| 0 <= i < j < order.len() ==> order[i] != order[j]
    &&& forall|i: int, j: int| 0 <= i < j < order.len() ==>
        !ranks_before(#[trigger] views[order[j] as int], #[trigger] views[order[i] as int])
    &&& forall|i: int, j: int| 0 <= i < j < order.len() && views[order[i] as int] == views[order[j] as int]
        ==> #[trigger] order[i] < #[trigger] order[j]
}

/// In a ranked list, once `x` ranks ahead of an entry it ranks ahead of every
/// later one.
proof fn lemma_ahead_of_later(
    views: Seq<(u32, u32, Seq<char>, Seq<char>, Seq<Seq<char>>, Seq<char>)>,
    order: Seq<usize>,
    n: nat,
    x: (u32, u32, Seq<char>, Seq<char>, Seq<Seq<char>>, Seq<char>),
    p: int,
    q: int,
)
    requires
        ranked_prefix(views, order, n),
        n <= views.len(),
        0 <= p <= q < order.len(),
        ranks_before(x, views[order[p] as int]),
    ensures
        ranks_before(x, views[order[q] as int]),
{
    if p < q {
        let a = views[order[p] as int];
        let b = views[order[q] as int];
        assert(!ranks_before(b, a));
        lemma_ranks_before_total(a, b);
        if ranks_before(a, b) {
            lemma_ranks_before_transitive(x, a, b);
        }
    }
}

/// The positions of the candidates in ranked order: a permutation of the
/// positions of `keys` in which no candidate ranks ahead of one listed before
/// it, and candidates of equal key keep the order they came in.
pub fn rank_order(keys: &Vec<RankKey>) -> (r: Vec<usize>)
    ensures
        ranked_prefix(rank_views(keys@), r@, keys@.len()),
{
    let ghost views = rank_views(keys@);
    let mut order: Vec<usize> = Vec::new();
    let mut k: usize = 0;
    while k < keys.len()
        invariant
            k <= keys@.len(),
            views == rank_views(keys@),
            ranked_prefix(views, order@, k as nat),
        decreases keys.len() - k,
    {
        let ghost xv = views[k as int];
        let mut lo: usize = 0;
        let mut hi: usize = order.len();
        while lo < hi
            invariant
                lo <= hi <= order@.len(),
                k < keys@.len(),
                xv == views[k as int],
                views == rank_views(keys@),
                ranked_prefix(views, order@, k as nat),
                forall|q: int| 0 <= q < lo ==> !ranks_before(xv, #[trigger] views[order@[q] as int]),
                forall|q: int| hi <= q < order@.len() ==> ranks_before(xv, #[trigger] views[order@[q] as int]),
            decreases hi - lo,
        {
            let mid = lo + (hi - lo) / 2;
            let m = order[mid];
            let ahead = rank_before(&keys[k], &keys[m]);
            proof {
                assert(order@[mid as int] < k);
                assert(views[m as int] == rank_view(keys@[m as int]));
                assert(xv == rank_view(keys@[k as int]));
            }
            if ahead {
                proof {
                    assert forall|q: int| mid <= q < order@.len() implies ranks_before(xv, #[trigger] views[order@[q] as int]) by {
                        lemma_ahead_of_later(views, order@, k as nat, xv, mid as int, q);
                    }
                }
                hi = mid;
            } else {
                proof {
                    assert forall|q: int| 0 <= q <= mid implies !ranks_before(xv, #[trigger] views[order@[q] as int]) by {
                        if ranks_before(xv, views[order@[q] as int]) {
                            lemma_ahead_of_later(views, order@, k as nat, xv, q, mid as int);
                        }
                    }
                }
                lo = mid + 1;
            }
        }
        let ghost old_order = order@;
        order.insert(lo, k);
        proof {
            old_order.insert_ensures(lo as int, k);
            let o = order@;
            let p = lo as int;
            lemma_ranks_before_irreflexive(xv);
            assert forall|i: int| 0 <= i < o.len() implies #[trigger] o[i] < k + 1 by {
                if i > p {
                    assert(o[i] == old_order[i - 1]);
                }
            }
            assert forall|i: int, j: int| 0 <= i < j < o.len() implies o[i] != o[j] by {
                if i > p {
                    assert(o[i] == old_order[i - 1]);
                }
                if j > p {
                    assert(o[j] == old_order[j - 1]);
                }
            }
            assert forall|i: int, j: int| 0 <= i < j < o.len() implies
                !ranks_before(#[trigger] views[o[j] as int], #[trigger] views[o[i] as int]) by {
                if i > p {
                    assert(o[i] == old_order[i - 1]);
                }
                if j > p {
                    assert(o[j] == old_order[j - 1]);
                }
                if j == p {
                    assert(!ranks_before(xv, views[old_order[i] as int]));
                } else if i == p {
                    let e = views[old_order[j - 1] as int];
                    assert(ranks_before(xv, e));
                    if ranks_before(e, xv) {
                        lemma_ranks_before_transitive(xv, e, xv);
                    }
                }
            }
            assert forall|i: int, j: int| 0 <= i < j < o.len() && views[o[i] as int] == views[o[j] as int]
                implies #[trigger] o[i] < #[trigger] o[j] by {
                if i > p {
                    assert(o[i] == old_order[i - 1]);
                }
                if j > p {
                    assert(o[j] == old_order[j - 1]);
                }
                if i == p {
                    assert(ranks_before(xv, views[old_order[j - 1] as int]));
                }
            }
        }
        k = k + 1;
    }
    order
}

} // verus!
