//! An in-memory watch store: creation with normalized URLs and fresh
//! ascending ids, deletion and listing scoped by owner.
use vstd::prelude::*;
use crate::url::{has_scheme, normalized, normalize_url, lemma_normalized_idempotent};
use crate::watch::{Watch, WatchView, Status, Link, LinkView, link_of, to_link};

verus! {

/// Why the store refused a write.
#[derive(PartialEq, Eq, Structural, Clone, Copy, Debug)]
pub enum StorageError {
    /// Every id the store can assign has been used.
    IdSpaceExhausted,
    /// The store could not be reached or refused the operation.
    Unavailable,
}

/// The views of a sequence of watches.
pub open spec fn views(s: Seq<Watch>) -> Seq<WatchView> {
    s.map_values(|w: Watch| w@)
}

/// The mathematical value of a store: its rows in order of creation and the
/// id the next created row receives.
pub struct StoreView {
    pub rows: Seq<WatchView>,
    pub next_id: int,
}

/// Ids strictly ascend along the rows.
pub open spec fn ids_ascending(rows: Seq<WatchView>) -> bool {
    forall|i: int, j: int| 0 <= i < j < rows.len() ==> #[trigger] rows[i].id < #[trigger] rows[j].id
}

/// The store's invariant: ids are positive, ascending and below the next id,
/// and every stored URL carries a scheme.
pub open spec fn store_wf(v: StoreView) -> bool {
    &&& 1 <= v.next_id <= i32::MAX
    &&& ids_ascending(v.rows)
    &&& forall|i: int| 0 <= i < v.rows.len() ==> 1 <= #[trigger] v.rows[i].id < v.next_id
    &&& forall|i: int| 0 <= i < v.rows.len() ==> has_scheme(#[trigger] v.rows[i].url)
}

/// The store after creating a watch (when an id is left).
pub open spec fn created(v: StoreView, owner: i64, url: Seq<char>, status: Status) -> StoreView {
    StoreView {
        rows: v.rows.push(
            WatchView { id: v.next_id as i32, owner, url: normalized(url), status },
        ),
        next_id: v.next_id + 1,
    }
}

/// The store after deleting the watches of `owner` on `url`.
pub open spec fn deleted(v: StoreView, owner: i64, url: Seq<char>) -> StoreView {
    StoreView { rows: v.rows.filter(row_filter(owner, Some(normalized(url)), true)), next_id: v.next_id }
}

/// The store after deleting every watch of `owner`.
pub open spec fn cleared(v: StoreView, owner: i64) -> StoreView {
    StoreView { rows: v.rows.filter(row_filter(owner, None, true)), next_id: v.next_id }
}

/// The watches of `owner`, in order of id.
pub open spec fn listed(v: StoreView, owner: i64) -> Seq<WatchView> {
    v.rows.filter(row_filter(owner, None, false))
}

/// The registry of watches.
pub struct WatchStore {
    rows: Vec<Watch>,
    next_id: i32,
}

impl View for WatchStore {
    type V = StoreView;

    closed spec fn view(&self) -> StoreView {
        StoreView { rows: views(self.rows@), next_id: self.next_id as int }
    }
}

impl WatchStore {
    /// Whether the store's invariant holds.
    pub open spec fn wf(&self) -> bool {
        store_wf(self@)
    }

    /// An empty store whose first id is 1.
    pub fn new() -> (r: WatchStore)
        ensures
            r@.rows == Seq::<WatchView>::empty(),
            r@.next_id == 1,
            r.wf(),
    {
        WatchStore::starting_at(1)
    }

    /// An empty store whose first id is `next_id`, as when ids up to it were
    /// used before.
    pub fn starting_at(next_id: i32) -> (r: WatchStore)
        requires
            next_id >= 1,
        ensures
            r@.rows == Seq::<WatchView>::empty(),
            r@.next_id == next_id,
            r.wf(),
    {
        let r = WatchStore { rows: Vec::new(), next_id };
        assert(views(r.rows@) =~= Seq::<WatchView>::empty());
        r
    }
}

/// A copy of a watch with the same value.
pub fn copy_watch(w: &Watch) -> (r: Watch)
    ensures
        r@ == w@,
{
    Watch { id: w.id, owner: w.owner, url: w.url.clone(), status: w.status }
}

proof fn lemma_views_push(s: Seq<Watch>, w: Watch)
    ensures
        views(s.push(w)) == views(s).push(w@),
{
    assert(views(s.push(w)) =~= views(s).push(w@));
}

proof fn lemma_filter_step(s: Seq<WatchView>, i: int, p: spec_fn(WatchView) -> bool)
    requires
        0 <= i < s.len(),
    ensures
        s.subrange(0, i + 1).filter(p) == (if p(s[i]) {
            s.subrange(0, i).filter(p).push(s[i])
        } else {
            s.subrange(0, i).filter(p)
        }),
{
    reveal(Seq::filter);
    assert(s.subrange(0, i + 1).drop_last() =~= s.subrange(0, i));
}

/// Copies of the rows that match `owner` (and `url`, when given), in their
/// order; with `negate`, of the rows that do not match.
fn keep_rows(rows: &Vec<Watch>, owner: i64, url: &Option<String>, negate: bool) -> (r: Vec<Watch>)
    ensures
        views(r@) == views(rows@).filter(row_filter(owner, opt_view(*url), negate)),
{
    let ghost p = row_filter(owner, opt_view(*url), negate);
    let ghost s = views(rows@);
    let mut out: Vec<Watch> = Vec::new();
    let mut i: usize = 0;
    proof {
        reveal(Seq::filter);
        assert(s.subrange(0, 0) =~= Seq::<WatchView>::empty());
        assert(views(out@) =~= Seq::<WatchView>::empty());
    }
    while i < rows.len()
        invariant
            i <= rows.len(),
            s == views(rows@),
            p == row_filter(owner, opt_view(*url), negate),
            views(out@) == s.subrange(0, i as int).filter(p),
        decreases rows.len() - i,
    {
        let w = &rows[i];
        let hit = match url {
            Some(u) => w.owner == owner && w.url == *u,
            None => w.owner == owner,
        };
        proof {
            lemma_filter_step(s, i as int, p);
        }
        if hit != negate {
            let c = copy_watch(w);
            proof {
                lemma_views_push(out@, c);
            }
            out.push(c);
        }
        i = i + 1;
    }
    assert(s.subrange(0, rows.len() as int) =~= s);
    out
}

/// The view of an optional URL.
pub open spec fn opt_view(u: Option<String>) -> Option<Seq<char>> {
    match u {
        Some(s) => Some(s@),
        None => None,
    }
}

/// Whether a row matches `owner` (and `url`, when given); with `negate`,
/// whether it does not. Listing keeps the rows of an owner, clearing keeps
/// the others, and deleting keeps the rows that do not match both owner and
/// URL.
pub open spec fn row_filter(owner: i64, url: Option<Seq<char>>, negate: bool) -> spec_fn(
    WatchView,
) -> bool {
    |w: WatchView|
        (match url {
            Some(u) => w.owner == owner && w.url == u,
            None => w.owner == owner,
        }) != negate
}

/// Filtering keeps ids ascending and keeps only rows of the original.
proof fn lemma_filter_ascending(s: Seq<WatchView>, p: spec_fn(WatchView) -> bool)
    requires
        ids_ascending(s),
    ensures
        ids_ascending(s.filter(p)),
        forall|k: int| 0 <= k < s.filter(p).len() ==> s.contains(#[trigger] s.filter(p)[k]),
    decreases s.len(),
{
    reveal(Seq::filter);
    if s.len() > 0 {
        let d = s.drop_last();
        lemma_filter_ascending(d, p);
        let f = d.filter(p);
        assert forall|k: int| 0 <= k < f.len() implies #[trigger] f[k].id < s.last().id by {
            assert(d.contains(f[k]));
            let j = choose|j: int| 0 <= j < d.len() && d[j] == f[k];
            assert(s[j] == d[j]);
        }
        assert forall|k: int| 0 <= k < s.filter(p).len() implies s.contains(
            #[trigger] s.filter(p)[k],
        ) by {
            if k < f.len() {
                assert(s.filter(p)[k] == f[k]);
                assert(d.contains(f[k]));
                let j = choose|j: int| 0 <= j < d.len() && d[j] == f[k];
                assert(s[j] == d[j]);
            } else {
                assert(s[s.len() - 1] == s.filter(p)[k]);
            }
        }
    }
}

/// A store whose rows are filtered stays well formed.
proof fn lemma_filter_wf(v: StoreView, p: spec_fn(WatchView) -> bool)
    requires
        store_wf(v),
    ensures
        store_wf(StoreView { rows: v.rows.filter(p), next_id: v.next_id }),
{
    lemma_filter_ascending(v.rows, p);
    let f = v.rows.filter(p);
    assert forall|k: int| 0 <= k < f.len() implies 1 <= #[trigger] f[k].id < v.next_id
        && has_scheme(f[k].url) by {
        assert(v.rows.contains(f[k]));
    }
}

/// Inserts a watch of `owner` on `url` (normalized) with the given status,
/// and returns its id: the store's next id. Fails, changing nothing, when no
/// id is left.
pub fn create_record(store: &mut WatchStore, status: Status, url: &str, owner: i64) -> (r: Result<
    i32,
    StorageError,
>)
    requires
        old(store).wf(),
    ensures
        final(store).wf(),
        old(store)@.next_id < i32::MAX ==> r == Ok::<i32, StorageError>(old(store)@.next_id as i32)
            && final(store)@ == created(old(store)@, owner, url@, status),
        old(store)@.next_id >= i32::MAX ==> r == Err::<i32, StorageError>(
            StorageError::IdSpaceExhausted,
        ) && final(store)@ == old(store)@,
{
    if store.next_id == i32::MAX {
        return Err(StorageError::IdSpaceExhausted);
    }
    let id = store.next_id;
    let w = Watch { id, owner, url: normalize_url(url), status };
    proof {
        lemma_views_push(store.rows@, w);
        lemma_normalized_idempotent(url@);
    }
    store.rows.push(w);
    store.next_id = id + 1;
    proof {
        let v = store@;
        assert(v == created(old(store)@, owner, url@, status));
        assert forall|i: int, j: int| 0 <= i < j < v.rows.len() implies #[trigger] v.rows[i].id
            < #[trigger] v.rows[j].id by {
            if j == v.rows.len() - 1 {
                assert(v.rows[i] == old(store)@.rows[i]);
            } else {
                assert(v.rows[i] == old(store)@.rows[i]);
                assert(v.rows[j] == old(store)@.rows[j]);
            }
        }
        assert forall|i: int| 0 <= i < v.rows.len() implies 1 <= #[trigger] v.rows[i].id
            < v.next_id && has_scheme(v.rows[i].url) by {
            if i < v.rows.len() - 1 {
                assert(v.rows[i] == old(store)@.rows[i]);
            }
        }
    }
    Ok(id)
}

/// Removes every watch of `owner` whose URL is `url` once normalized, and
/// returns how many were removed; other owners' rows are untouched.
pub fn delete_record(store: &mut WatchStore, url: &str, owner: i64) -> (r: usize)
    requires
        old(store).wf(),
    ensures
        final(store).wf(),
        final(store)@ == deleted(old(store)@, owner, url@),
        r == old(store)@.rows.len() - final(store)@.rows.len(),
{
    let u = Some(normalize_url(url));
    let kept = keep_rows(&store.rows, owner, &u, true);
    proof {
        lemma_filter_wf(store@, row_filter(owner, Some(normalized(url@)), true));
        views(store.rows@).lemma_filter_len(row_filter(owner, Some(normalized(url@)), true));
    }
    let removed = store.rows.len() - kept.len();
    store.rows = kept;
    removed
}

/// Removes every watch of `owner` and returns how many were removed.
pub fn clear_records(store: &mut WatchStore, owner: i64) -> (r: usize)
    requires
        old(store).wf(),
    ensures
        final(store).wf(),
        final(store)@ == cleared(old(store)@, owner),
        r == old(store)@.rows.len() - final(store)@.rows.len(),
{
    let kept = keep_rows(&store.rows, owner, &None, true);
    proof {
        lemma_filter_wf(store@, row_filter(owner, None, true));
        views(store.rows@).lemma_filter_len(row_filter(owner, None, true));
    }
    let removed = store.rows.len() - kept.len();
    store.rows = kept;
    removed
}

/// The watches of `owner`, in ascending order of id.
pub fn get_all_records(store: &WatchStore, owner: i64) -> (r: Vec<Watch>)
    requires
        store.wf(),
    ensures
        views(r@) == listed(store@, owner),
        ids_ascending(views(r@)),
{
    let r = keep_rows(&store.rows, owner, &None, false);
    proof {
        lemma_filter_ascending(store@.rows, row_filter(owner, None, false));
    }
    r
}

/// Every watch of every owner, in ascending order of id.
pub fn list_all_records(store: &WatchStore) -> (r: Vec<Watch>)
    requires
        store.wf(),
    ensures
        views(r@) == store@.rows,
        ids_ascending(views(r@)),
{
    let mut out: Vec<Watch> = Vec::new();
    let mut i: usize = 0;
    while i < store.rows.len()
        invariant
            i <= store.rows.len(),
            views(out@) == views(store.rows@).subrange(0, i as int),
        decreases store.rows.len() - i,
    {
        let c = copy_watch(&store.rows[i]);
        proof {
            lemma_views_push(out@, c);
            assert(views(store.rows@).subrange(0, i + 1) =~= views(store.rows@).subrange(
                0,
                i as int,
            ).push(c@));
        }
        out.push(c);
        i = i + 1;
    }
    assert(views(store.rows@).subrange(0, i as int) =~= views(store.rows@));
    out
}

/// The views of a sequence of links.
pub open spec fn link_views(s: Seq<Link>) -> Seq<LinkView> {
    s.map_values(|l: Link| l@)
}

/// Ids do not descend along the links.
pub open spec fn links_by_id(s: Seq<LinkView>) -> bool {
    forall|i: int, j: int| 0 <= i <= j < s.len() ==> #[trigger] s[i].id <= #[trigger] s[j].id
}

/// The links that show the given watches, in the same order.
pub open spec fn links_of(s: Seq<WatchView>) -> Seq<LinkView> {
    s.map_values(|w: WatchView| link_of(w))
}

proof fn lemma_insert_multiset(s: Seq<LinkView>, j: int, x: LinkView)
    requires
        0 <= j <= s.len(),
    ensures
        s.insert(j, x).to_multiset() == s.to_multiset().insert(x),
{
    broadcast use vstd::seq_lib::group_to_multiset_ensures;

    let t = s.insert(j, x);
    assert(t.remove(j) =~= s);
    assert(t[j] == x);
    assert(t.contains(x));
    assert(t.to_multiset() =~= s.to_multiset().insert(x));
}

/// Turns watches into the links that show them, ordered by ascending id.
pub fn sort_data(data: Vec<Watch>) -> (r: Vec<Link>)
    ensures
        links_by_id(link_views(r@)),
        link_views(r@).to_multiset() == links_of(views(data@)).to_multiset(),
{
    broadcast use vstd::seq_lib::group_to_multiset_ensures;

    let ghost src = links_of(views(data@));
    let mut out: Vec<Link> = Vec::new();
    let mut i: usize = 0;
    assert(link_views(out@) =~= Seq::<LinkView>::empty());
    assert(src.subrange(0, 0) =~= Seq::<LinkView>::empty());
    while i < data.len()
        invariant
            i <= data.len(),
            src == links_of(views(data@)),
            links_by_id(link_views(out@)),
            link_views(out@).to_multiset() == src.subrange(0, i as int).to_multiset(),
        decreases data.len() - i,
    {
        let l = to_link(&data[i]);
        let mut j: usize = 0;
        while j < out.len() && out[j].id <= l.id
            invariant
                j <= out.len(),
                links_by_id(link_views(out@)),
                forall|k: int| 0 <= k < j ==> #[trigger] out@[k].id <= l.id,
            decreases out.len() - j,
        {
            j = j + 1;
        }
        let ghost before = link_views(out@);
        assert(j < before.len() ==> before[j as int].id > l.id);
        assert(src[i as int] == l@);
        out.insert(j, l);
        proof {
            assert(link_views(out@) =~= before.insert(j as int, l@));
            lemma_insert_multiset(before, j as int, l@);
            assert(src.subrange(0, i + 1) =~= src.subrange(0, i as int).push(l@));
            src.subrange(0, i as int).to_multiset_ensures();
            assert(src.subrange(0, i + 1).to_multiset() == src.subrange(0, i as int).to_multiset().insert(l@));
            assert(link_views(out@).to_multiset() == before.to_multiset().insert(l@));
            let v = link_views(out@);
            assert forall|a: int, b: int| 0 <= a <= b < v.len() implies #[trigger] v[a].id
                <= #[trigger] v[b].id by {
                if a < j && b > j {
                    assert(v[a] == before[a]);
                    assert(v[b] == before[b - 1]);
                    assert(before[j as int].id <= before[b - 1].id);
                } else if a < j && b < j {
                    assert(v[a] == before[a]);
                    assert(v[b] == before[b]);
                } else if a < j && b == j {
                    assert(v[a] == before[a]);
                } else if a == j && b > j {
                    assert(v[b] == before[b - 1]);
                    assert(before[j as int].id <= before[b - 1].id);
                } else if a > j {
                    assert(v[a] == before[a - 1]);
                    assert(v[b] == before[b - 1]);
                }
            }
        }
        i = i + 1;
    }
    assert(src.subrange(0, data.len() as int) =~= src);
    out
}

/// A created watch keeps a URL that starts with `http` unchanged, and
/// otherwise stores it with `http://` prepended.
pub proof fn law_create_normalizes(v: StoreView, owner: i64, url: Seq<char>, status: Status)
    ensures
        created(v, owner, url, status).rows.last().url == (if has_scheme(url) {
            url
        } else {
            "http://"@ + url
        }),
        created(v, owner, url, status).rows.last().owner == owner,
        created(v, owner, url, status).rows.last().status == status,
        created(v, owner, url, status).rows.drop_last() == v.rows,
{
    assert(created(v, owner, url, status).rows.drop_last() =~= v.rows);
}

/// Deleting `(owner, url)` removes exactly the rows that match both the
/// owner and the normalized URL: rows of other owners on the same URL, and
/// rows of the owner on other URLs, remain; no row is added.
pub proof fn law_delete_scoped(v: StoreView, owner: i64, url: Seq<char>)
    ensures
        forall|i: int|
            0 <= i < v.rows.len() ==> (#[trigger] deleted(v, owner, url).rows.contains(v.rows[i])
                <==> !(v.rows[i].owner == owner && v.rows[i].url == normalized(url))),
        forall|k: int|
            0 <= k < deleted(v, owner, url).rows.len() ==> v.rows.contains(
                #[trigger] deleted(v, owner, url).rows[k],
            ),
{
    let p = row_filter(owner, Some(normalized(url)), true);
    let d = v.rows.filter(p);
    assert forall|i: int| 0 <= i < v.rows.len() implies (#[trigger] d.contains(v.rows[i]) <==> p(
        v.rows[i],
    )) by {
        if p(v.rows[i]) {
            v.rows.lemma_filter_contains(p, i);
        }
        if d.contains(v.rows[i]) {
            let k = choose|k: int| 0 <= k < d.len() && d[k] == v.rows[i];
            v.rows.lemma_filter_pred(p, k);
        }
    }
    assert forall|k: int| 0 <= k < d.len() implies v.rows.contains(#[trigger] d[k]) by {
        assert(d.contains(d[k]));
        v.rows.lemma_filter_contains_rev(p, d[k]);
    }
}

/// Listing an owner's watches returns only that owner's rows, every one of
/// them, in ascending order of id.
pub proof fn law_list_scoped(v: StoreView, owner: i64)
    requires
        store_wf(v),
    ensures
        forall|k: int|
            0 <= k < listed(v, owner).len() ==> (#[trigger] listed(v, owner)[k]).owner == owner,
        forall|i: int|
            0 <= i < v.rows.len() && v.rows[i].owner == owner ==> #[trigger] listed(
                v,
                owner,
            ).contains(v.rows[i]),
        ids_ascending(listed(v, owner)),
{
    let p = row_filter(owner, None, false);
    lemma_filter_ascending(v.rows, p);
    assert forall|k: int| 0 <= k < listed(v, owner).len() implies (#[trigger] listed(
        v,
        owner,
    )[k]).owner == owner by {
        v.rows.lemma_filter_pred(p, k);
    }
    assert forall|i: int| 0 <= i < v.rows.len() && v.rows[i].owner == owner implies #[trigger] listed(
        v,
        owner,
    ).contains(v.rows[i]) by {
        v.rows.lemma_filter_contains(p, i);
    }
}

/// Two creations of the same owner and URL both succeed while ids remain,
/// and both rows appear, in order, at the end of the owner's listing.
pub proof fn law_duplicates_kept(
    v: StoreView,
    owner: i64,
    url: Seq<char>,
    first: Status,
    second: Status,
)
    requires
        store_wf(v),
        v.next_id + 1 < i32::MAX,
    ensures
        v.next_id < i32::MAX,
        created(v, owner, url, first).next_id < i32::MAX,
        listed(created(created(v, owner, url, first), owner, url, second), owner) == listed(
            v,
            owner,
        ) + seq![
            WatchView { id: v.next_id as i32, owner, url: normalized(url), status: first },
            WatchView { id: (v.next_id + 1) as i32, owner, url: normalized(url), status: second },
        ],
{
    reveal(Seq::filter);
    let v1 = created(v, owner, url, first);
    let v2 = created(v1, owner, url, second);
    assert(v1.rows.drop_last() =~= v.rows);
    assert(v2.rows.drop_last() =~= v1.rows);
    let p = row_filter(owner, None, false);
    assert(p(v1.rows.last()));
    assert(p(v2.rows.last()));
    assert(listed(v1, owner) == listed(v, owner).push(v1.rows.last()));
    assert(listed(v2, owner) == listed(v1, owner).push(v2.rows.last()));
    assert(listed(v2, owner) =~= listed(v, owner) + seq![v1.rows.last(), v2.rows.last()]);
}

} // verus!
