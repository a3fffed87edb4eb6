//! Selecting and ordering session history by start time.
use vstd::prelude::*;
use vstd::string::*;
use crate::timer::{Session, SessionView};

verus! {

broadcast use vstd::seq_lib::group_to_multiset_ensures;

/// Text order: `a` is `b` or comes before it, comparing characters from the
/// left, a prefix first.
pub open spec fn text_le(a: Seq<char>, b: Seq<char>) -> bool
    decreases a.len(),
{
    if a.len() == 0 {
        true
    } else if b.len() == 0 {
        false
    } else if (a[0] as u32) != (b[0] as u32) {
        (a[0] as u32) < (b[0] as u32)
    } else {
        text_le(a.drop_first(), b.drop_first())
    }
}

pub proof fn lemma_text_le_total(a: Seq<char>, b: Seq<char>)
    ensures
        text_le(a, b) || text_le(b, a),
    decreases a.len(),
{
    if a.len() > 0 && b.len() > 0 && (a[0] as u32) == (b[0] as u32) {
        lemma_text_le_total(a.drop_first(), b.drop_first());
    }
}

pub proof fn lemma_text_le_trans(a: Seq<char>, b: Seq<char>, c: Seq<char>)
    requires
        text_le(a, b),
        text_le(b, c),
    ensures
        text_le(a, c),
    decreases a.len(),
{
    if a.len() > 0 && b.len() > 0 && c.len() > 0 && (a[0] as u32) == (b[0] as u32) && (b[0] as u32) == (c[0] as u32) {
        lemma_text_le_trans(a.drop_first(), b.drop_first(), c.drop_first());
    }
}

/// Whether `a` comes no later than `b` in text order.
pub fn text_le_exec(a: &str, b: &str) -> (r: bool)
    ensures
        r == text_le(a@, b@),
{
    let n = a.unicode_len();
    let m = b.unicode_len();
    let mut i: usize = 0;
    assert(a@.skip(0) =~= a@);
    assert(b@.skip(0) =~= b@);
    while i < n && i < m
        invariant
            n == a@.len(),
            m == b@.len(),
            i <= n,
            i <= m,
            text_le(a@, b@) == text_le(a@.skip(i as int), b@.skip(i as int)),
        decreases n - i,
    {
        let x = a.get_char(i);
        let y = b.get_char(i);
        if x as u32 != y as u32 {
            return (x as u32) < (y as u32);
        }
        assert(a@.skip(i as int).drop_first() =~= a@.skip(i + 1));
        assert(b@.skip(i as int).drop_first() =~= b@.skip(i + 1));
        i += 1;
    }
    i == n
}

/// The value of each session in `v`.
pub open spec fn views(v: Seq<Session>) -> Seq<SessionView> {
    v.map_values(|s: Session| s@)
}

/// Whether a session's start lies within the inclusive bounds that are given.
pub open spec fn in_range(s: SessionView, start: Option<Seq<char>>, end: Option<Seq<char>>) -> bool {
    &&& (start matches Some(a) ==> text_le(a, s.started_at))
    &&& (end matches Some(b) ==> text_le(s.started_at, b))
}

/// Latest start first.
pub open spec fn newest_first(v: Seq<SessionView>) -> bool {
    forall|i: int, j: int|
        0 <= i < j < v.len() ==> text_le(#[trigger] v[j].started_at, #[trigger] v[i].started_at)
}

/// The sessions of `v` whose start lies within the bounds.
pub open spec fn within(v: Seq<SessionView>, start: Option<Seq<char>>, end: Option<Seq<char>>) -> Seq<
    SessionView,
> {
    v.filter(|s: SessionView| in_range(s, start, end))
}

pub open spec fn opt_str_view(o: Option<&str>) -> Option<Seq<char>> {
    match o {
        Some(s) => Some(s@),
        None => None,
    }
}

/// Whether `s` starts within the bounds.
pub fn starts_within(s: &Session, start: Option<&str>, end: Option<&str>) -> (r: bool)
    ensures
        r == in_range(s@, opt_str_view(start), opt_str_view(end)),
{
    let after = match start {
        Some(a) => text_le_exec(a, s.started_at.as_str()),
        None => true,
    };
    let before = match end {
        Some(b) => text_le_exec(s.started_at.as_str(), b),
        None => true,
    };
    after && before
}

/// The sessions of `rows` that start within the inclusive bounds, latest
/// start first.
pub fn select_history(rows: &Vec<Session>, start: Option<&str>, end: Option<&str>) -> (r: Vec<
    Session,
>)
    ensures
        newest_first(views(r@)),
        forall|k: int|
            0 <= k < r@.len() ==> in_range(#[trigger] views(r@)[k], opt_str_view(start), opt_str_view(end)),
        views(r@).to_multiset() == within(views(rows@), opt_str_view(start), opt_str_view(end)).to_multiset(),
{
    let ghost lo = opt_str_view(start);
    let ghost hi = opt_str_view(end);
    let mut r: Vec<Session> = Vec::new();
    let mut i: usize = 0;
    while i < rows.len()
        invariant
            i <= rows.len(),
            lo == opt_str_view(start),
            hi == opt_str_view(end),
            newest_first(views(r@)),
            forall|k: int| 0 <= k < r@.len() ==> in_range(#[trigger] views(r@)[k], lo, hi),
            views(r@).to_multiset() == within(views(rows@.subrange(0, i as int)), lo, hi).to_multiset(),
        decreases rows.len() - i,
    {
        let ghost pre = views(rows@.subrange(0, i as int));
        assert(views(rows@.subrange(0, i + 1)) =~= pre.push(rows@[i as int]@));
        assert(pre.push(rows@[i as int]@).drop_last() =~= pre);
        let ghost y = rows@[i as int]@;
        proof {
            pre.lemma_filter_push(y, |s: SessionView| in_range(s, lo, hi));
        }
        assert(pre.push(y).filter(|s: SessionView| in_range(s, lo, hi)) == if in_range(y, lo, hi) {
            pre.filter(|s: SessionView| in_range(s, lo, hi)).push(y)
        } else {
            pre.filter(|s: SessionView| in_range(s, lo, hi))
        });
        assert(within(pre.push(y), lo, hi) == if in_range(y, lo, hi) {
            within(pre, lo, hi).push(y)
        } else {
            within(pre, lo, hi)
        });
        if starts_within(&rows[i], start, end) {
            let x = rows[i].snapshot();
            let mut j: usize = 0;
            while j < r.len() && text_le_exec(x.started_at.as_str(), r[j].started_at.as_str())
                invariant
                    j <= r.len(),
                    forall|p: int| 0 <= p < j ==> text_le(x@.started_at, #[trigger] r@[p]@.started_at),
                decreases r.len() - j,
            {
                j += 1;
            }
            let ghost old_r = r@;
            proof {
                if j < old_r.len() {
                    lemma_text_le_total(x@.started_at, old_r[j as int]@.started_at);
                }
            }
            r.insert(j, x);
            assert(views(r@) =~= views(old_r).insert(j as int, x@));
            proof {
                vstd::seq_lib::to_multiset_insert(views(old_r), j as int, x@);
                assert(within(pre, lo, hi).push(y) =~= within(pre, lo, hi).insert(
                    within(pre, lo, hi).len() as int,
                    y,
                ));
                vstd::seq_lib::to_multiset_insert(within(pre, lo, hi), within(pre, lo, hi).len() as int, y);
            }
            assert forall|p: int, q: int| 0 <= p < q < views(r@).len() implies text_le(
                #[trigger] views(r@)[q].started_at,
                #[trigger] views(r@)[p].started_at,
            ) by {
                let v = views(r@);
                let ov = views(old_r);
                if q < j {
                    assert(v[p] == ov[p] && v[q] == ov[q]);
                } else if q == j {
                    assert(v[p] == ov[p]);
                } else if p == j {
                    assert(v[q] == ov[q - 1]);
                    if j < q - 1 {
                        lemma_text_le_trans(ov[q - 1].started_at, ov[j as int].started_at, x@.started_at);
                    }
                } else if p < j {
                    assert(v[p] == ov[p] && v[q] == ov[q - 1]);
                } else {
                    assert(v[p] == ov[p - 1] && v[q] == ov[q - 1]);
                }
            }
        }
        i += 1;
    }
    assert(rows@.subrange(0, rows.len() as int) =~= rows@);
    r
}


/// With no bounds every session is selected: `select_history` without
/// bounds returns all of its rows, latest start first.
pub proof fn lemma_within_unbounded(v: Seq<SessionView>)
    ensures
        within(v, None, None) == v,
    decreases v.len(),
{
    let pred = |s: SessionView| in_range(s, None, None);
    if v.len() == 0 {
        v.lemma_filter_len(pred);
        assert(within(v, None, None) =~= v);
    } else {
        let pre = v.drop_last();
        lemma_within_unbounded(pre);
        pre.lemma_filter_push(v.last(), pred);
        assert(pre.push(v.last()) =~= v);
    }
}

} // verus!
