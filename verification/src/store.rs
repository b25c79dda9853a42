//! A store of records in memory, ordered by identifier, that answers page
//! requests.
//!
//! `window` says which rows a store owes to a request, whatever way the
//! store has of deciding which records to keep, and the laws of paging
//! are stated of every such way.  The store in this module keeps the
//! records that meet the clauses of a predicate, and computes the window
//! by walking its records.

use vstd::prelude::*;
use crate::pagination::{
    ascending, get_cursors, in_fetch_order, lemma_page_items_ascending, page_cursors, page_items,
    trimmed, HasId, InvalidParams, NextAndPrevCursor, PaginationDirection, PaginationParams,
    PaginationRes, PaginationState,
};
use crate::predicate::{accepts, Clause, Predicate, Record};

verus! {

/// How the store in memory reads a conjunction: it keeps the records that
/// meet every clause.
pub open spec fn accepting<R: Record>(clauses: Seq<Clause>) -> spec_fn(R) -> bool {
    |r: R| accepts(clauses, r)
}

/// Whether a record is wanted by a request: the store keeps it and it lies
/// beyond the cursor.
pub open spec fn wanted<R: HasId>(keep: spec_fn(R) -> bool, params: PaginationParams) -> spec_fn(
    R,
) -> bool {
    |r: R| keep(r) && params.beyond_cursor(r.spec_id())
}

/// The records that a request wants, in the order of the store.
pub open spec fn eligible<R: HasId>(
    store: Seq<R>,
    keep: spec_fn(R) -> bool,
    params: PaginationParams,
) -> Seq<R> {
    store.filter(wanted(keep, params))
}

/// The number of rows in the window on `count` eligible records: all of
/// them, but no more than one beyond the limit.
pub open spec fn window_len(params: PaginationParams, count: nat) -> nat {
    if count <= params.limit {
        count
    } else {
        params.window_size()
    }
}

/// The rows that a store owes to a request: walking upwards, the first
/// eligible records in rising order; walking downwards, the last ones in
/// falling order.
pub open spec fn window<R: HasId>(
    store: Seq<R>,
    keep: spec_fn(R) -> bool,
    params: PaginationParams,
) -> Seq<R> {
    let all = eligible(store, keep, params);
    let n = window_len(params, all.len());
    match params.direction {
        PaginationDirection::Forward => all.take(n as int),
        PaginationDirection::Backward => all.skip(all.len() - n).reverse(),
    }
}

/// The records behind a sequence of references.
pub open spec fn referents<R>(rows: Seq<&R>) -> Seq<R> {
    rows.map_values(|r: &R| *r)
}

/// The records that the store keeps, in the order of the store.
pub open spec fn matching<R: HasId>(store: Seq<R>, keep: spec_fn(R) -> bool) -> Seq<R> {
    store.filter(keep)
}

/// The items of the page that answers a request.
pub open spec fn page_of<R: HasId>(
    store: Seq<R>,
    keep: spec_fn(R) -> bool,
    params: PaginationParams,
) -> Seq<R> {
    page_items(params, window(store, keep, params))
}

/// The cursors of the page that answers a request.
pub open spec fn cursors_of<R: HasId>(
    store: Seq<R>,
    keep: spec_fn(R) -> bool,
    params: PaginationParams,
) -> NextAndPrevCursor {
    page_cursors(params, window(store, keep, params))
}

/// Records in memory, in strictly rising order of identifier.
pub struct MemoryStore<R> {
    records: Vec<R>,
}

impl<R: Record> View for MemoryStore<R> {
    type V = Seq<R>;

    closed spec fn view(&self) -> Seq<R> {
        self.records@
    }
}

impl<R: Record> MemoryStore<R> {
    /// The order that every operation keeps.
    pub open spec fn wf(&self) -> bool {
        ascending(self@)
    }

    /// A store without records.
    pub fn new() -> (store: Self)
        ensures
            store.wf(),
            store@ == Seq::<R>::empty(),
    {
        MemoryStore { records: Vec::new() }
    }

    /// The number of records.
    pub fn len(&self) -> (n: usize)
        ensures
            n == self@.len(),
    {
        self.records.len()
    }

    /// Appends a record whose identifier is greater than every identifier
    /// in the store, and refuses any other.
    pub fn insert(&mut self, record: R) -> (added: bool)
        requires
            old(self).wf(),
        ensures
            final(self).wf(),
            added == (old(self)@.len() == 0 || old(self)@.last().spec_id() < record.spec_id()),
            added ==> final(self)@ == old(self)@.push(record),
            !added ==> final(self)@ == old(self)@,
    {
        let n = self.records.len();
        if n > 0 && self.records[n - 1].id() >= record.id() {
            return false;
        }
        self.records.push(record);
        true
    }

    /// The window on the store that a request asks for, or the fault of
    /// the request.
    pub fn fetch_page<'a>(&'a self, predicate: &Predicate, params: &PaginationParams) -> (res:
        Result<Vec<&'a R>, InvalidParams>)
        ensures
            match params.check_spec() {
                Ok(_) => res is Ok && referents(res->Ok_0@) == window(self@, accepting(predicate@), *params),
                Err(e) => res is Err && res->Err_0 == e,
            },
    {
        match params.check() {
            Err(e) => {
                return Err(e);
            },
            Ok(_) => {},
        }
        let want: usize = params.limit as usize + 1;
        let n = self.records.len();
        let ghost keep = wanted::<R>(accepting(predicate@), *params);
        let ghost store = self@;
        let mut rows: Vec<&'a R> = Vec::new();
        match params.direction {
            PaginationDirection::Forward => {
                let mut i: usize = 0;
                assert(store.take(0).filter(keep) =~= Seq::<R>::empty()) by {
                    reveal(Seq::filter);
                }
                assert(referents(rows@) =~= store.take(0).filter(keep));
                while i < n && rows.len() < want
                    invariant
                        store == self@,
                        n == store.len(),
                        i <= n,
                        keep == wanted::<R>(accepting(predicate@), *params),
                        rows@.len() <= want,
                        referents(rows@) == store.take(i as int).filter(keep),
                    decreases n - i,
                {
                    let record = &self.records[i];
                    proof {
                        assert(store.take(i + 1) =~= store.take(i as int).push(store[i as int]));
                        store.take(i as int).lemma_filter_push(store[i as int], keep);
                    }
                    if params.is_beyond_cursor(record.id()) && predicate.matches(record) {
                        rows.push(record);
                        assert(referents(rows@) =~= store.take(i + 1).filter(keep));
                    }
                    i = i + 1;
                }
                proof {
                    lemma_filter_split(store, keep, i as int);
                    let all = store.filter(keep);
                    let head = store.take(i as int).filter(keep);
                    if rows@.len() < want {
                        assert(store.take(i as int) =~= store);
                        assert(all.take(head.len() as int) =~= head);
                    } else {
                        assert(all.take(want as int) =~= head);
                    }
                }
            },
            PaginationDirection::Backward => {
                let mut i: usize = n;
                assert(store.skip(n as int).filter(keep) =~= Seq::<R>::empty()) by {
                    reveal(Seq::filter);
                }
                assert(referents(rows@) =~= store.skip(n as int).filter(keep).reverse());
                while i > 0 && rows.len() < want
                    invariant
                        store == self@,
                        n == store.len(),
                        i <= n,
                        keep == wanted::<R>(accepting(predicate@), *params),
                        rows@.len() <= want,
                        referents(rows@) == store.skip(i as int).filter(keep).reverse(),
                    decreases i,
                {
                    i = i - 1;
                    let record = &self.records[i];
                    proof {
                        lemma_filter_cons(store.skip(i as int), keep);
                        assert(store.skip(i as int).skip(1) =~= store.skip(i + 1));
                    }
                    if params.is_beyond_cursor(record.id()) && predicate.matches(record) {
                        rows.push(record);
                        proof {
                            let rest = store.skip(i + 1).filter(keep);
                            let joined = seq![store[i as int]] + rest;
                            assert(store.skip(i as int)[0] == store[i as int]);
                            assert(joined.reverse() =~= rest.reverse().push(store[i as int]));
                        }
                        assert(referents(rows@) =~= store.skip(i as int).filter(keep).reverse());
                    } else {
                        assert(referents(rows@) =~= store.skip(i as int).filter(keep).reverse());
                    }
                }
                proof {
                    lemma_filter_split(store, keep, i as int);
                    let all = store.filter(keep);
                    let tail = store.skip(i as int).filter(keep);
                    if rows@.len() < want {
                        assert(store.skip(i as int) =~= store);
                        assert(all.skip(0) =~= all);
                    } else {
                        assert(all.skip(all.len() - want) =~= tail);
                    }
                }
            },
        }
        Ok(rows)
    }

    /// The page that answers a request, or the fault of the request.  The
    /// items rise in identifier, each meets the predicate, and each lies
    /// beyond the cursor.
    pub fn paginate<'a>(&'a self, predicate: &Predicate, params: &PaginationParams) -> (res:
        Result<PaginationRes<&'a R>, InvalidParams>)
        requires
            self.wf(),
        ensures
            match params.check_spec() {
                Ok(_) => {
                    &&& res is Ok
                    &&& referents(res->Ok_0.items@) == page_of(self@, accepting(predicate@), *params)
                    &&& res->Ok_0.next_cursor == cursors_of(self@, accepting(predicate@), *params).next_cursor
                    &&& res->Ok_0.prev_cursor == cursors_of(self@, accepting(predicate@), *params).prev_cursor
                    &&& ascending(referents(res->Ok_0.items@))
                    &&& forall|i: int|
                        0 <= i < res->Ok_0.items@.len() ==> accepts(
                            predicate@,
                            *#[trigger] res->Ok_0.items@[i],
                        ) && params.beyond_cursor(res->Ok_0.items@[i].spec_id())
                },
                Err(e) => res is Err && res->Err_0 == e,
            },
    {
        match self.fetch_page(predicate, params) {
            Err(e) => Err(e),
            Ok(rows) => {
                let mut rows = rows;
                let ghost fetched = rows@;
                let cursors = get_cursors(params, &mut rows);
                proof {
                    lemma_referents_page(*params, fetched);
                    lemma_page_ascending(self@, accepting(predicate@), *params);
                    lemma_page_wanted(self@, accepting(predicate@), *params);
                    assert forall|i: int| 0 <= i < rows@.len() implies accepts(
                        predicate@,
                        *#[trigger] rows@[i],
                    ) && params.beyond_cursor(rows@[i].spec_id()) by {
                        assert(referents(rows@)[i] == *rows@[i]);
                    }
                }
                Ok(PaginationRes::new(rows, cursors))
            },
        }
    }
}

/// A page of references is the page of the records behind them.
pub proof fn lemma_referents_page<R: HasId>(params: PaginationParams, rows: Seq<&R>)
    ensures
        referents(page_items(params, rows)) == page_items(params, referents(rows)),
        page_cursors(params, rows) == page_cursors(params, referents(rows)),
{
    let kept = trimmed(params, rows);
    assert(referents(kept) =~= trimmed(params, referents(rows)));
    assert(referents(kept.reverse()) =~= referents(kept).reverse());
    let items = page_items(params, rows);
    assert(referents(items) =~= page_items(params, referents(rows)));
    if items.len() > 0 {
        assert(referents(items)[0] == *items[0]);
        assert(referents(items)[items.len() - 1] == *items[items.len() - 1]);
    }
}

/// Filtering keeps the rising order.
pub proof fn lemma_filter_ascending<R: HasId>(s: Seq<R>, keep: spec_fn(R) -> bool)
    requires
        ascending(s),
    ensures
        ascending(s.filter(keep)),
    decreases s.len(),
{
    reveal(Seq::filter);
    if s.len() > 0 {
        let front = s.drop_last();
        lemma_filter_ascending(front, keep);
        let kept = front.filter(keep);
        assert forall|i: int| 0 <= i < kept.len() implies kept[i].spec_id() < s.last().spec_id() by {
            assert(kept.contains(kept[i]));
            front.lemma_filter_contains_rev(keep, kept[i]);
            let k = choose|k: int| 0 <= k < front.len() && front[k] == kept[i];
            assert(s[k] == kept[i]);
        }
    }
}

/// The window comes in the order of the walk.
pub proof fn lemma_window_in_fetch_order<R: HasId>(
    store: Seq<R>,
    keep: spec_fn(R) -> bool,
    params: PaginationParams,
)
    requires
        ascending(store),
    ensures
        in_fetch_order(params, window(store, keep, params)),
{
    let all = eligible(store, keep, params);
    lemma_filter_ascending(store, wanted::<R>(keep, params));
    let n = window_len(params, all.len());
    match params.direction {
        PaginationDirection::Forward => {},
        PaginationDirection::Backward => {
            let tail = all.skip(all.len() - n);
            let rows = tail.reverse();
            assert forall|i: int, j: int| 0 <= i < j < rows.len() implies rows[i].spec_id()
                > rows[j].spec_id() by {
                assert(rows[i] == tail[tail.len() - 1 - i]);
                assert(rows[j] == tail[tail.len() - 1 - j]);
            }
        },
    }
}

/// Order: the items of every page rise in identifier, whichever way the
/// request walked.
pub proof fn lemma_page_ascending<R: HasId>(
    store: Seq<R>,
    keep: spec_fn(R) -> bool,
    params: PaginationParams,
)
    requires
        ascending(store),
    ensures
        ascending(page_of(store, keep, params)),
{
    lemma_window_in_fetch_order(store, keep, params);
    lemma_page_items_ascending(params, window(store, keep, params));
}

/// Exclusive boundary: every item of a page is one that the store keeps and lies
/// strictly beyond the cursor of the request, above it when walking
/// upwards and below it when walking downwards.
pub proof fn lemma_page_wanted<R: HasId>(
    store: Seq<R>,
    keep: spec_fn(R) -> bool,
    params: PaginationParams,
)
    ensures
        forall|i: int|
            0 <= i < page_of(store, keep, params).len() ==> {
                let item = #[trigger] page_of(store, keep, params)[i];
                &&& keep(item)
                &&& params.beyond_cursor(item.spec_id())
                &&& params.cursor is Some && params.direction == PaginationDirection::Forward
                    ==> item.spec_id() > params.cursor->Some_0
                &&& params.cursor is Some && params.direction == PaginationDirection::Backward
                    ==> item.spec_id() < params.cursor->Some_0
            },
{
    let wants = wanted::<R>(keep, params);
    let all = eligible(store, keep, params);
    let rows = window(store, keep, params);
    let items = page_of(store, keep, params);
    let n = window_len(params, all.len());
    assert forall|i: int| 0 <= i < all.len() implies wants(#[trigger] all[i]) by {
        store.lemma_filter_pred(wants, i);
    }
    assert forall|i: int| 0 <= i < rows.len() implies wants(#[trigger] rows[i]) by {
        match params.direction {
            PaginationDirection::Forward => {
                assert(rows[i] == all[i]);
            },
            PaginationDirection::Backward => {
                let tail = all.skip(all.len() - n);
                assert(rows[i] == tail[tail.len() - 1 - i]);
                assert(tail[tail.len() - 1 - i] == all[all.len() - 1 - i]);
            },
        }
    }
    let kept = trimmed(params, rows);
    assert forall|i: int| 0 <= i < items.len() implies wants(#[trigger] items[i]) by {
        match params.direction {
            PaginationDirection::Forward => {
                assert(items[i] == rows[i]);
            },
            PaginationDirection::Backward => {
                assert(items[i] == kept[kept.len() - 1 - i]);
                assert(kept[kept.len() - 1 - i] == rows[kept.len() - 1 - i]);
            },
        }
    }
}

/// Filtering the two parts of a sequence and joining the results is
/// filtering the whole.
pub proof fn lemma_filter_split<A>(s: Seq<A>, keep: spec_fn(A) -> bool, at: int)
    requires
        0 <= at <= s.len(),
    ensures
        s.filter(keep) == s.take(at).filter(keep) + s.skip(at).filter(keep),
{
    assert(s =~= s.take(at) + s.skip(at));
    Seq::filter_distributes_over_add(s.take(at), s.skip(at), keep);
}

/// Filtering a sequence that is not empty keeps or drops its first element
/// and filters the rest.
pub proof fn lemma_filter_cons<A>(s: Seq<A>, keep: spec_fn(A) -> bool)
    requires
        s.len() > 0,
    ensures
        s.filter(keep) == if keep(s[0]) {
            seq![s[0]] + s.skip(1).filter(keep)
        } else {
            s.skip(1).filter(keep)
        },
{
    lemma_filter_split(s, keep, 1);
    assert(s.take(1) =~= Seq::<A>::empty().push(s[0]));
    Seq::<A>::empty().lemma_filter_push(s[0], keep);
    assert(Seq::<A>::empty().filter(keep) =~= Seq::<A>::empty()) by {
        reveal(Seq::filter);
    }
    if keep(s[0]) {
        assert(Seq::<A>::empty().push(s[0]) =~= seq![s[0]]);
    } else {
        assert(Seq::<A>::empty() + s.skip(1).filter(keep) =~= s.skip(1).filter(keep));
    }
}

/// Filtering by two conditions at once is filtering by one and then by the
/// other.
pub proof fn lemma_filter_both<A>(
    s: Seq<A>,
    both: spec_fn(A) -> bool,
    first: spec_fn(A) -> bool,
    second: spec_fn(A) -> bool,
)
    requires
        forall|a: A| #[trigger] both(a) == (first(a) && second(a)),
    ensures
        s.filter(both) == s.filter(first).filter(second),
    decreases s.len(),
{
    reveal(Seq::filter);
    if s.len() > 0 {
        let front = s.drop_last();
        lemma_filter_both(front, both, first, second);
        assert(s =~= front.push(s.last()));
        front.lemma_filter_push(s.last(), both);
        front.lemma_filter_push(s.last(), first);
        front.filter(first).lemma_filter_push(s.last(), second);
    }
}

/// A condition that holds of the first `k` elements and of no other keeps
/// the first `k` elements.
pub proof fn lemma_filter_prefix<A>(s: Seq<A>, keep: spec_fn(A) -> bool, k: int)
    requires
        0 <= k <= s.len(),
        forall|i: int| 0 <= i < s.len() ==> keep(#[trigger] s[i]) == (i < k),
    ensures
        s.filter(keep) == s.take(k),
    decreases s.len(),
{
    reveal(Seq::filter);
    if s.len() > 0 {
        let front = s.drop_last();
        let m = if k == s.len() {
            k - 1
        } else {
            k
        };
        assert forall|i: int| 0 <= i < front.len() implies keep(#[trigger] front[i]) == (i
            < m) by {
            assert(front[i] == s[i]);
        }
        lemma_filter_prefix(front, keep, m);
        assert(keep(s[s.len() - 1]) == (k == s.len()));
        if k == s.len() {
            assert(front.take(m).push(s.last()) =~= s.take(k));
        } else {
            assert(front.take(m) =~= s.take(k));
        }
    } else {
        assert(s.take(k) =~= s);
    }
}

/// A condition that holds of the elements from the `k`th on and of no
/// other keeps the elements from the `k`th on.
pub proof fn lemma_filter_suffix<A>(s: Seq<A>, keep: spec_fn(A) -> bool, k: int)
    requires
        0 <= k <= s.len(),
        forall|i: int| 0 <= i < s.len() ==> keep(#[trigger] s[i]) == (i >= k),
    ensures
        s.filter(keep) == s.skip(k),
    decreases s.len(),
{
    reveal(Seq::filter);
    if s.len() > 0 {
        let front = s.drop_last();
        let m = if k == s.len() {
            k - 1
        } else {
            k
        };
        assert forall|i: int| 0 <= i < front.len() implies keep(#[trigger] front[i]) == (i
            >= m) by {
            assert(front[i] == s[i]);
        }
        lemma_filter_suffix(front, keep, m);
        assert(keep(s[s.len() - 1]) == (k < s.len()));
        if k == s.len() {
            assert(front.skip(m) =~= s.skip(k));
        } else {
            assert(front.skip(m).push(s.last()) =~= s.skip(k));
        }
    } else {
        assert(s.skip(k) =~= s);
    }
}

/// The eligible records are the matching ones beyond the cursor.
pub proof fn lemma_eligible_of_matching<R: HasId>(
    store: Seq<R>,
    keep: spec_fn(R) -> bool,
    params: PaginationParams,
)
    ensures
        eligible(store, keep, params) == matching(store, keep).filter(
            |r: R| params.beyond_cursor(r.spec_id()),
        ),
{
    lemma_filter_both(
        store,
        wanted::<R>(keep, params),
        keep,
        |r: R| params.beyond_cursor(r.spec_id()),
    );
}

/// Without a cursor, every matching record is eligible.
pub proof fn lemma_eligible_without_cursor<R: HasId>(
    store: Seq<R>,
    keep: spec_fn(R) -> bool,
    params: PaginationParams,
)
    requires
        params.cursor is None,
    ensures
        eligible(store, keep, params) == matching(store, keep),
{
    lemma_eligible_of_matching(store, keep, params);
    let found = matching(store, keep);
    lemma_filter_prefix(found, |r: R| params.beyond_cursor(r.spec_id()), found.len() as int);
    assert(found.take(found.len() as int) =~= found);
}

/// Walking upwards from the identifier of the `k`th matching record, the
/// eligible records are the matching ones after it.
pub proof fn lemma_eligible_after<R: HasId>(
    store: Seq<R>,
    keep: spec_fn(R) -> bool,
    params: PaginationParams,
    k: int,
)
    requires
        ascending(store),
        0 <= k < matching(store, keep).len(),
        params.direction == PaginationDirection::Forward,
        params.cursor == Some(matching(store, keep)[k].spec_id()),
    ensures
        eligible(store, keep, params) == matching(store, keep).skip(k + 1),
{
    lemma_eligible_of_matching(store, keep, params);
    let found = matching(store, keep);
    lemma_filter_ascending(store, keep);
    lemma_filter_suffix(found, |r: R| params.beyond_cursor(r.spec_id()), k + 1);
}

/// Walking downwards from the identifier of the `k`th matching record, the
/// eligible records are the matching ones before it.
pub proof fn lemma_eligible_before<R: HasId>(
    store: Seq<R>,
    keep: spec_fn(R) -> bool,
    params: PaginationParams,
    k: int,
)
    requires
        ascending(store),
        0 <= k < matching(store, keep).len(),
        params.direction == PaginationDirection::Backward,
        params.cursor == Some(matching(store, keep)[k].spec_id()),
    ensures
        eligible(store, keep, params) == matching(store, keep).take(k),
{
    lemma_eligible_of_matching(store, keep, params);
    let found = matching(store, keep);
    lemma_filter_ascending(store, keep);
    lemma_filter_prefix(found, |r: R| params.beyond_cursor(r.spec_id()), k);
}

/// Window trimming: a first request for pages of `limit` items is answered
/// by exactly `limit` items and a cursor to the next page if more than
/// `limit` records match, and by exactly `limit` items and no cursor to a
/// next page if exactly `limit` records match.
pub proof fn lemma_window_trimming<R: HasId>(store: Seq<R>, keep: spec_fn(R) -> bool, limit: u32)
    requires
        PaginationState::first(limit).params().well_formed(),
    ensures
        matching(store, keep).len() > limit ==> page_of(
            store,
            keep,
            PaginationState::first(limit).params(),
        ).len() == limit && cursors_of(
            store,
            keep,
            PaginationState::first(limit).params(),
        ).next_cursor is Some,
        matching(store, keep).len() == limit ==> page_of(
            store,
            keep,
            PaginationState::first(limit).params(),
        ).len() == limit && cursors_of(
            store,
            keep,
            PaginationState::first(limit).params(),
        ).next_cursor is None,
{
    let params = PaginationState::first(limit).params();
    lemma_eligible_without_cursor(store, keep, params);
}

/// Round trip: on a store that does not change, the first page, then a
/// step forwards, then a step backwards lead to the items of the first
/// page again, and that page again has no page before it.
pub proof fn lemma_round_trip<R: HasId>(store: Seq<R>, keep: spec_fn(R) -> bool, limit: u32)
    requires
        ascending(store),
        PaginationState::first(limit).params().well_formed(),
        cursors_of(store, keep, PaginationState::first(limit).params()).next_cursor is Some,
    ensures
        ({
            let start = PaginationState::first(limit);
            let second = start.with_response(
                cursors_of(store, keep, start.params()),
            ).forwards();
            let third = second.with_response(
                cursors_of(store, keep, second.params()),
            ).backwards();
            &&& page_of(store, keep, third.params()) == page_of(store, keep, start.params())
            &&& cursors_of(store, keep, third.params()).prev_cursor is None
            &&& cursors_of(store, keep, third.params()).next_cursor == cursors_of(
                store,
                keep,
                start.params(),
            ).next_cursor
        }),
{
    let found = matching(store, keep);
    let start = PaginationState::first(limit);
    let request1 = start.params();
    lemma_eligible_without_cursor(store, keep, request1);
    let window1 = window(store, keep, request1);
    assert(found.len() > limit);
    assert(window1 == found.take(limit + 1));
    let page1 = page_of(store, keep, request1);
    assert(page1 =~= found.take(limit as int));
    let cursors1 = cursors_of(store, keep, request1);
    assert(page1.last() == found[limit - 1]);
    assert(cursors1.next_cursor == Some(found[limit - 1].spec_id()));

    let second = start.with_response(cursors1).forwards();
    let request2 = second.params();
    lemma_eligible_after(store, keep, request2, limit - 1);
    let eligible2 = eligible(store, keep, request2);
    assert(eligible2 == found.skip(limit as int));
    let window2 = window(store, keep, request2);
    let page2 = page_of(store, keep, request2);
    assert(window2.len() >= 1);
    assert(window2[0] == eligible2[0]);
    assert(eligible2[0] == found[limit as int]);
    assert(page2.len() >= 1);
    assert(page2[0] == window2[0]);
    let cursors2 = cursors_of(store, keep, request2);
    assert(cursors2.prev_cursor == Some(found[limit as int].spec_id()));

    let third = second.with_response(cursors2).backwards();
    let request3 = third.params();
    lemma_eligible_before(store, keep, request3, limit as int);
    let eligible3 = eligible(store, keep, request3);
    assert(eligible3 == found.take(limit as int));
    let window3 = window(store, keep, request3);
    assert(eligible3.skip(0) =~= eligible3);
    assert(window3 == eligible3.reverse());
    let page3 = page_of(store, keep, request3);
    assert(eligible3.reverse().reverse() =~= eligible3);
    assert(page3 =~= page1);
}

} // verus!
