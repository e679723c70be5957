use vstd::prelude::*;
use crate::fuzzy::{skim_score, fuzzy_accepts, skim_fuzzy_match, has_ascii_upper, lemma_subsequence_within};
use crate::model::{CmdEntry, opt_text};

verus! {

/// Score given to a favorite when no search text is typed.
pub const FAVORITE_IDLE_SCORE: i64 = 1000;

/// Bonus added to a favorite's fuzzy score.
pub const FAVORITE_MATCH_BONUS: i64 = 50;

/// The text a search is matched against: name, display name, description
/// and category, separated by single spaces (absent parts are empty).
pub open spec fn search_text(e: CmdEntry) -> Seq<char> {
    e.name@ + seq![' '] + opt_text(e.display_name) + seq![' '] + opt_text(e.description) + seq![' ']
        + opt_text(e.category)
}

/// The rank of an entry for a query, `None` when the entry is filtered out.
pub open spec fn entry_rank(e: CmdEntry, query: Seq<char>) -> Option<int> {
    if query.len() == 0 {
        Some(if e.favorite { FAVORITE_IDLE_SCORE as int } else { 0 })
    } else {
        match skim_score(search_text(e), query) {
            Some(s) => Some(s + if e.favorite { FAVORITE_MATCH_BONUS as int } else { 0 }),
            None => None,
        }
    }
}

/// The ranks of all entries, in order.
pub open spec fn ranks(cmds: Seq<CmdEntry>, query: Seq<char>) -> Seq<Option<int>> {
    Seq::new(cmds.len(), |i: int| entry_rank(cmds[i], query))
}

/// Machine scores seen as mathematical integers.
pub open spec fn lift(scores: Seq<Option<i64>>) -> Seq<Option<int>> {
    Seq::new(scores.len(), |i: int| match scores[i] { Some(v) => Some(v as int), None => None })
}

/// Position `a` is listed before position `b`: higher score first, and
/// among equal scores the earlier position first.
pub open spec fn listed_before(s: Seq<Option<int>>, a: int, b: int) -> bool {
    ||| s[a]->0 > s[b]->0
    ||| (s[a]->0 == s[b]->0 && a < b)
}

/// `order` lists exactly the scored positions of `s`, best first, ties in
/// their given order (a stable sort by descending score).
pub open spec fn ordered_by(s: Seq<Option<int>>, order: Seq<usize>) -> bool {
    &&& forall|k: int| 0 <= k < order.len() ==> (#[trigger] order[k]) < s.len() && s[order[k] as int] is Some
    &&& forall|i: int| 0 <= i < s.len() && (#[trigger] s[i]) is Some ==> order.contains(i as usize)
    &&& forall|j: int, k: int| 0 <= j < k < order.len() ==> listed_before(s, #[trigger] order[j] as int, #[trigger] order[k] as int)
}

/// The list that a search shows: the entries that match, best rank first.
pub open spec fn is_ranking(cmds: Seq<CmdEntry>, query: Seq<char>, order: Seq<usize>) -> bool {
    ordered_by(ranks(cmds, query), order)
}

/// `order` is the list a search for `query` shows: a ranking in which, for
/// a non-empty query, exactly the entries whose search text the fuzzy
/// matcher accepts appear.
pub open spec fn shows(cmds: Seq<CmdEntry>, query: Seq<char>, order: Seq<usize>) -> bool {
    &&& is_ranking(cmds, query, order)
    &&& query.len() > 0 ==> forall|i: usize| i < cmds.len() ==>
        (#[trigger] order.contains(i) <==> fuzzy_accepts(search_text(cmds[i as int]), query))
}

/// Pairs sorted best first, with distinct positions.
spec fn sorted_pairs(v: Seq<(usize, i64)>) -> bool {
    forall|j: int, k: int| 0 <= j < k < v.len() ==>
        (#[trigger] v[j]).1 > (#[trigger] v[k]).1 || (v[j].1 == v[k].1 && v[j].0 < v[k].0)
}

/// Orders the positions that carry a score by descending score; equal
/// scores keep their given order. Positions without a score are left out.
pub fn order_by_score(scores: &Vec<Option<i64>>) -> (order: Vec<usize>)
    ensures
        ordered_by(lift(scores@), order@),
{
    let ghost s = lift(scores@);
    let mut sorted: Vec<(usize, i64)> = Vec::new();
    let mut i: usize = 0;
    while i < scores.len()
        invariant
            i <= scores.len(),
            s == lift(scores@),
            sorted_pairs(sorted@),
            forall|k: int| 0 <= k < sorted.len() ==> (#[trigger] sorted@[k]).0 < i
                && scores@[sorted@[k].0 as int] == Some(sorted@[k].1),
            forall|j: int| 0 <= j < i && (#[trigger] scores@[j]) is Some ==>
                exists|k: int| 0 <= k < sorted.len() && (#[trigger] sorted@[k]).0 == j,
        decreases scores.len() - i,
    {
        if let Some(score) = scores[i] {
            let mut p: usize = 0;
            while p < sorted.len() && sorted[p].1 >= score
                invariant
                    p <= sorted.len(),
                    forall|k: int| 0 <= k < p ==> (#[trigger] sorted@[k]).1 >= score,
                decreases sorted.len() - p,
            {
                p = p + 1;
            }
            let ghost before = sorted@;
            sorted.insert(p, (i, score));
            assert(sorted@ == before.insert(p as int, (i, score)));
            assert forall|j: int, k: int| 0 <= j < k < sorted@.len() implies
                (#[trigger] sorted@[j]).1 > (#[trigger] sorted@[k]).1
                || (sorted@[j].1 == sorted@[k].1 && sorted@[j].0 < sorted@[k].0) by {
                if k < p {
                } else if k == p {
                } else if j < p {
                    if p < before.len() {
                        assert(before[p as int].1 < score);
                    }
                } else if j == p {
                    assert(before[p as int].1 < score);
                    assert(before[k - 1].1 <= before[p as int].1 || k - 1 == p);
                } else {
                }
            }
            assert forall|j: int| 0 <= j < i + 1 && (#[trigger] scores@[j]) is Some implies
                exists|k: int| 0 <= k < sorted.len() && (#[trigger] sorted@[k]).0 == j by {
                if j == i {
                    assert(sorted@[p as int].0 == j);
                } else {
                    let k0 = choose|k: int| 0 <= k < before.len() && (#[trigger] before[k]).0 == j;
                    if k0 < p {
                        assert(sorted@[k0].0 == j);
                    } else {
                        assert(sorted@[k0 + 1].0 == j);
                    }
                }
            }
        }
        i = i + 1;
    }
    let mut order: Vec<usize> = Vec::new();
    let mut k: usize = 0;
    while k < sorted.len()
        invariant
            k <= sorted.len(),
            order.len() == k,
            forall|m: int| 0 <= m < k ==> (#[trigger] order@[m]) == sorted@[m].0,
        decreases sorted.len() - k,
    {
        order.push(sorted[k].0);
        k = k + 1;
    }
    assert forall|i: int| 0 <= i < s.len() && (#[trigger] s[i]) is Some implies order@.contains(i as usize) by {
        assert(scores@[i] is Some);
        let k0 = choose|k: int| 0 <= k < sorted.len() && (#[trigger] sorted@[k]).0 == i;
        assert(order@[k0] == i as usize);
    }
    assert forall|j: int, k: int| 0 <= j < k < order.len() implies
        listed_before(s, #[trigger] order@[j] as int, #[trigger] order@[k] as int) by {
        assert(sorted@[j].1 > sorted@[k].1 || (sorted@[j].1 == sorted@[k].1 && sorted@[j].0 < sorted@[k].0));
    }
    order
}


/// The characters of an optional text, empty when absent.
fn opt_str(o: &Option<String>) -> (r: &str)
    ensures
        r@ == opt_text(*o),
{
    match o {
        Some(s) => s.as_str(),
        None => {
            proof {
                reveal_strlit("");
            }
            ""
        },
    }
}

/// Builds the text that a search is matched against.
pub fn search_text_of(cmd: &CmdEntry) -> (t: String)
    ensures
        t@ == search_text(*cmd),
{
    proof {
        reveal_strlit(" ");
    }
    let mut t = cmd.name.clone();
    t.append(" ");
    t.append(opt_str(&cmd.display_name));
    t.append(" ");
    t.append(opt_str(&cmd.description));
    t.append(" ");
    t.append(opt_str(&cmd.category));
    t
}

/// The rank of one entry for a query: with no query, 1000 for a favorite and
/// 0 otherwise; with a query, the skim score of the entry's search text plus
/// 50 for a favorite, or `None` when the text does not match.
pub fn command_score(cmd: &CmdEntry, query: &str) -> (r: Option<i64>)
    ensures
        match r {
            Some(v) => entry_rank(*cmd, query@) == Some(v as int),
            None => entry_rank(*cmd, query@) is None,
        },
        query@.len() > 0 ==> (r is Some <==> fuzzy_accepts(search_text(*cmd), query@)),
{
    if query.is_empty() {
        Some(if cmd.favorite { FAVORITE_IDLE_SCORE } else { 0 })
    } else {
        let text = search_text_of(cmd);
        match skim_fuzzy_match(text.as_str(), query) {
            Some(score) => Some(score + if cmd.favorite { FAVORITE_MATCH_BONUS } else { 0 }),
            None => None,
        }
    }
}

/// The order in which a search lists the commands: the positions of the
/// entries that match `query`, best rank first, ties in stored order.
pub fn rank_commands(cmds: &Vec<CmdEntry>, query: &str) -> (order: Vec<usize>)
    ensures
        shows(cmds@, query@, order@),
{
    let mut scores: Vec<Option<i64>> = Vec::new();
    let mut i: usize = 0;
    while i < cmds.len()
        invariant
            i <= cmds.len(),
            scores.len() == i,
            forall|k: int| 0 <= k < i ==> lift(scores@)[k] == #[trigger] entry_rank(cmds@[k], query@),
            forall|k: int| 0 <= k < i ==> query@.len() > 0 ==>
                ((#[trigger] scores@[k]) is Some <==> fuzzy_accepts(search_text(cmds@[k]), query@)),
        decreases cmds.len() - i,
    {
        let r = command_score(&cmds[i], query);
        let ghost prev = scores@;
        scores.push(r);
        proof {
            assert forall|k: int| 0 <= k < i + 1 implies lift(scores@)[k] == #[trigger] entry_rank(cmds@[k], query@) by {
                if k < i {
                    assert(scores@[k] == prev[k]);
                    assert(lift(prev)[k] == entry_rank(cmds@[k], query@));
                }
            }
            assert forall|k: int| 0 <= k < i + 1 && query@.len() > 0 implies
                ((#[trigger] scores@[k]) is Some <==> fuzzy_accepts(search_text(cmds@[k]), query@)) by {
                if k < i {
                    assert(scores@[k] == prev[k]);
                }
            }
        }
        i = i + 1;
    }
    let order = order_by_score(&scores);
    assert(lift(scores@) == ranks(cmds@, query@));
    assert forall|i: usize| i < cmds.len() && query@.len() > 0 implies
        (#[trigger] order@.contains(i) <==> fuzzy_accepts(search_text(cmds@[i as int]), query@)) by {
        if order@.contains(i) {
            let k = choose|k: int| 0 <= k < order@.len() && order@[k] == i;
            assert(lift(scores@)[order@[k] as int] is Some);
        }
        assert(lift(scores@)[i as int] is Some <==> scores@[i as int] is Some);
    }
    order
}


/// Strictly increasing under `listed_before`.
pub open spec fn strictly_listed(s: Seq<Option<int>>, o: Seq<usize>) -> bool {
    forall|j: int, k: int| 0 <= j < k < o.len() ==> listed_before(s, #[trigger] o[j] as int, #[trigger] o[k] as int)
}

proof fn lemma_strictly_listed_eq(s: Seq<Option<int>>, a: Seq<usize>, b: Seq<usize>)
    requires
        strictly_listed(s, a),
        strictly_listed(s, b),
        forall|x: usize| a.contains(x) <==> b.contains(x),
    ensures
        a == b,
    decreases a.len(),
{
    if a.len() == 0 {
        if b.len() > 0 {
            assert(b.contains(b[0]));
        }
        assert(a =~= b);
    } else {
        assert(a.contains(a[0]));
        let m = choose|m: int| 0 <= m < b.len() && b[m] == a[0];
        assert(b.contains(b[0]));
        let m2 = choose|m2: int| 0 <= m2 < a.len() && a[m2] == b[0];
        if a[0] != b[0] {
            assert(m > 0 && m2 > 0);
            assert(listed_before(s, b[0] as int, b[m] as int));
            assert(listed_before(s, a[0] as int, a[m2] as int));
        }
        let ta = a.drop_first();
        let tb = b.drop_first();
        assert forall|j: int, k: int| 0 <= j < k < ta.len() implies listed_before(s, #[trigger] ta[j] as int, #[trigger] ta[k] as int) by {
            assert(ta[j] == a[j + 1] && ta[k] == a[k + 1]);
        }
        assert forall|j: int, k: int| 0 <= j < k < tb.len() implies listed_before(s, #[trigger] tb[j] as int, #[trigger] tb[k] as int) by {
            assert(tb[j] == b[j + 1] && tb[k] == b[k + 1]);
        }
        assert forall|x: usize| ta.contains(x) <==> tb.contains(x) by {
            if ta.contains(x) {
                let i = choose|i: int| 0 <= i < ta.len() && ta[i] == x;
                assert(a[i + 1] == x);
                assert(listed_before(s, a[0] as int, a[i + 1] as int));
                assert(a.contains(x));
                let i2 = choose|i2: int| 0 <= i2 < b.len() && b[i2] == x;
                assert(i2 != 0);
                assert(tb[i2 - 1] == x);
            }
            if tb.contains(x) {
                let i = choose|i: int| 0 <= i < tb.len() && tb[i] == x;
                assert(b[i + 1] == x);
                assert(listed_before(s, b[0] as int, b[i + 1] as int));
                assert(b.contains(x));
                let i2 = choose|i2: int| 0 <= i2 < a.len() && a[i2] == x;
                assert(i2 != 0);
                assert(ta[i2 - 1] == x);
            }
        }
        lemma_strictly_listed_eq(s, ta, tb);
        assert(a =~= b) by {
            assert forall|i: int| 0 <= i < a.len() implies a[i] == b[i] by {
                if i > 0 {
                    assert(a[i] == ta[i - 1] && b[i] == tb[i - 1]);
                }
            }
        }
    }
}

/// The listing is determined by the scores: two orders that both list
/// exactly the scored positions, best first with ties in given order,
/// are the same order.
pub proof fn law_order_is_unique(s: Seq<Option<int>>, o1: Seq<usize>, o2: Seq<usize>)
    requires
        ordered_by(s, o1),
        ordered_by(s, o2),
    ensures
        o1 == o2,
{
    assert forall|x: usize| o1.contains(x) <==> o2.contains(x) by {
        if o1.contains(x) {
            let k = choose|k: int| 0 <= k < o1.len() && o1[k] == x;
            assert(s[o1[k] as int] is Some);
            assert(s[x as int] is Some);
        }
        if o2.contains(x) {
            let k = choose|k: int| 0 <= k < o2.len() && o2[k] == x;
            assert(s[o2[k] as int] is Some);
            assert(s[x as int] is Some);
        }
    }
    lemma_strictly_listed_eq(s, o1, o2);
}

/// With no search text every command is listed, and favorites come before
/// all other commands.
pub proof fn law_favorites_first(cmds: Seq<CmdEntry>, order: Seq<usize>)
    requires
        is_ranking(cmds, Seq::empty(), order),
    ensures
        forall|i: usize| i < cmds.len() ==> #[trigger] order.contains(i),
        forall|j: int, k: int| 0 <= j < k < order.len() && (#[trigger] cmds[order[k] as int]).favorite
            ==> (#[trigger] cmds[order[j] as int]).favorite,
{
    let s = ranks(cmds, Seq::empty());
    assert forall|i: usize| i < cmds.len() implies #[trigger] order.contains(i) by {
        assert(s[i as int] is Some);
    }
    assert forall|j: int, k: int| 0 <= j < k < order.len() && (#[trigger] cmds[order[k] as int]).favorite
        implies (#[trigger] cmds[order[j] as int]).favorite by {
        assert(listed_before(s, order[j] as int, order[k] as int));
    }
}

/// Of two listed commands whose search texts are the same, a favorite comes
/// before one that is not.
pub proof fn law_favorite_listed_first(cmds: Seq<CmdEntry>, query: Seq<char>, order: Seq<usize>, j: int, k: int)
    requires
        is_ranking(cmds, query, order),
        0 <= j < order.len(),
        0 <= k < order.len(),
        search_text(cmds[order[j] as int]) == search_text(cmds[order[k] as int]),
        cmds[order[j] as int].favorite,
        !cmds[order[k] as int].favorite,
    ensures
        j < k,
{
    let s = ranks(cmds, query);
    assert(s[order[j] as int] is Some && s[order[k] as int] is Some);
    if k < j {
        assert(listed_before(s, order[k] as int, order[j] as int));
    }
    if j == k {
        assert(cmds[order[j] as int].favorite != cmds[order[k] as int].favorite);
    }
}

/// With a search text, a command is listed exactly when the text
/// fuzzy-matches its name, display name, description and category joined by
/// single spaces (absent parts empty).
pub proof fn law_search_covers_all_fields(cmds: Seq<CmdEntry>, query: Seq<char>, order: Seq<usize>, i: usize)
    requires
        shows(cmds, query, order),
        query.len() > 0,
        i < cmds.len(),
    ensures
        order.contains(i) <==> fuzzy_accepts(
            cmds[i as int].name@ + seq![' '] + (match cmds[i as int].display_name {
                Some(t) => t@,
                None => Seq::<char>::empty(),
            }) + seq![' '] + (match cmds[i as int].description {
                Some(t) => t@,
                None => Seq::<char>::empty(),
            }) + seq![' '] + (match cmds[i as int].category {
                Some(t) => t@,
                None => Seq::<char>::empty(),
            }),
            query,
        ),
{
}

/// With a search text, a command is listed whenever the text fuzzy-matches
/// any one of its name, display name, description or category.
pub proof fn law_any_field_match_is_listed(cmds: Seq<CmdEntry>, query: Seq<char>, order: Seq<usize>, i: usize)
    requires
        shows(cmds, query, order),
        query.len() > 0,
        i < cmds.len(),
        fuzzy_accepts(cmds[i as int].name@, query)
            || (cmds[i as int].display_name matches Some(t) && fuzzy_accepts(t@, query))
            || (cmds[i as int].description matches Some(t) && fuzzy_accepts(t@, query))
            || (cmds[i as int].category matches Some(t) && fuzzy_accepts(t@, query)),
    ensures
        order.contains(i),
{
    let e = cmds[i as int];
    let cs = has_ascii_upper(query);
    let sp = seq![' '];
    let n = e.name@;
    let d = opt_text(e.display_name);
    let de = opt_text(e.description);
    let c = opt_text(e.category);
    let full = search_text(e);
    assert(full == n + sp + d + sp + de + sp + c);
    if fuzzy_accepts(n, query) {
        lemma_subsequence_within(query, Seq::empty(), n, sp + d + sp + de + sp + c, cs);
        assert(Seq::<char>::empty() + n + (sp + d + sp + de + sp + c) =~= full);
    } else if e.display_name matches Some(t) && fuzzy_accepts(t@, query) {
        lemma_subsequence_within(query, n + sp, d, sp + de + sp + c, cs);
        assert(n + sp + d + (sp + de + sp + c) =~= full);
    } else if e.description matches Some(t) && fuzzy_accepts(t@, query) {
        lemma_subsequence_within(query, n + sp + d + sp, de, sp + c, cs);
        assert(n + sp + d + sp + de + (sp + c) =~= full);
    } else {
        lemma_subsequence_within(query, n + sp + d + sp + de + sp, c, Seq::empty(), cs);
        assert(n + sp + d + sp + de + sp + c + Seq::<char>::empty() =~= full);
    }
}

/// `order_by_score` lists every position that has a score, each once, and
/// only those; a higher score comes first, and equal scores keep their
/// positions' order.
pub proof fn law_order_by_score_descending(scores: Seq<Option<i64>>, order: Seq<usize>)
    requires
        ordered_by(lift(scores), order),
    ensures
        forall|k: int| 0 <= k < order.len() ==> (#[trigger] order[k]) < scores.len() && scores[order[k] as int] is Some,
        forall|i: usize| i < scores.len() && (#[trigger] scores[i as int]) is Some ==> order.contains(i),
        forall|j: int, k: int| #![trigger order[j], order[k]] 0 <= j < k < order.len() ==> {
            let a = scores[order[j] as int]->0;
            let b = scores[order[k] as int]->0;
            a > b || (a == b && order[j] < order[k])
        },
{
    let s = lift(scores);
    assert forall|i: usize| i < scores.len() && (#[trigger] scores[i as int]) is Some implies order.contains(i) by {
        assert(s[i as int] is Some);
    }
    assert forall|j: int, k: int| #![trigger order[j], order[k]] 0 <= j < k < order.len() implies {
        let a = scores[order[j] as int]->0;
        let b = scores[order[k] as int]->0;
        a > b || (a == b && order[j] < order[k])
    } by {
        assert(listed_before(s, order[j] as int, order[k] as int));
    }
}

/// With no search text the list holds every command once, favorites first,
/// and otherwise in stored order.
pub proof fn law_idle_order(cmds: Seq<CmdEntry>, order: Seq<usize>)
    requires
        is_ranking(cmds, Seq::empty(), order),
    ensures
        forall|i: usize| i < cmds.len() ==> #[trigger] order.contains(i),
        forall|j: int, k: int| #![trigger order[j], order[k]] 0 <= j < k < order.len() ==> {
            let a = cmds[order[j] as int];
            let b = cmds[order[k] as int];
            (a.favorite && !b.favorite) || (a.favorite == b.favorite && order[j] < order[k])
        },
{
    law_favorites_first(cmds, order);
    let s = ranks(cmds, Seq::empty());
    assert forall|j: int, k: int| #![trigger order[j], order[k]] 0 <= j < k < order.len() implies {
        let a = cmds[order[j] as int];
        let b = cmds[order[k] as int];
        (a.favorite && !b.favorite) || (a.favorite == b.favorite && order[j] < order[k])
    } by {
        assert(listed_before(s, order[j] as int, order[k] as int));
    }
}

/// With a search text, a listed command comes before another when its skim
/// score plus 50 for a favorite is higher, or equal with an earlier position.
pub proof fn law_search_order(cmds: Seq<CmdEntry>, query: Seq<char>, order: Seq<usize>)
    requires
        is_ranking(cmds, query, order),
        query.len() > 0,
    ensures
        forall|j: int, k: int| #![trigger order[j], order[k]] 0 <= j < k < order.len() ==> {
            let a = cmds[order[j] as int];
            let b = cmds[order[k] as int];
            let sa = skim_score(search_text(a), query)->0 + if a.favorite { 50int } else { 0int };
            let sb = skim_score(search_text(b), query)->0 + if b.favorite { 50int } else { 0int };
            skim_score(search_text(a), query) is Some && skim_score(search_text(b), query) is Some
                && (sa > sb || (sa == sb && order[j] < order[k]))
        },
{
    let s = ranks(cmds, query);
    assert forall|j: int, k: int| #![trigger order[j], order[k]] 0 <= j < k < order.len() implies {
        let a = cmds[order[j] as int];
        let b = cmds[order[k] as int];
        let sa = skim_score(search_text(a), query)->0 + if a.favorite { 50int } else { 0int };
        let sb = skim_score(search_text(b), query)->0 + if b.favorite { 50int } else { 0int };
        skim_score(search_text(a), query) is Some && skim_score(search_text(b), query) is Some
            && (sa > sb || (sa == sb && order[j] < order[k]))
    } by {
        assert(listed_before(s, order[j] as int, order[k] as int));
        assert(s[order[j] as int] is Some && s[order[k] as int] is Some);
    }
}

} // verus!
