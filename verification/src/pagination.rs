//! Keyset pagination: the request for a page, the cursors that a fetched
//! window yields, and the state that a caller keeps between pages.
//!
//! A fetch asks the store for one row more than the page holds.  Whether that
//! extra row came back tells if another page follows in the direction of
//! travel, at the cost of no second query.

use vstd::prelude::*;

verus! {

/// The way a request walks the identifiers: upwards or downwards.
#[derive(Debug, Clone, Copy, PartialEq, Eq, Hash, Structural)]
pub enum PaginationDirection {
    Forward,
    Backward,
}

/// A record with the identifier by which the store orders it.
pub trait HasId {
    spec fn spec_id(&self) -> u32;

    fn id(&self) -> (r: u32)
        ensures
            r == self.spec_id(),
    ;
}

impl<'a, T: HasId> HasId for &'a T {
    open spec fn spec_id(&self) -> u32 {
        (**self).spec_id()
    }

    fn id(&self) -> (r: u32) {
        (**self).id()
    }
}

/// The cursors that lead away from a page.
#[derive(Debug, Clone, Copy, PartialEq, Eq, Hash, Structural)]
pub struct NextAndPrevCursor {
    pub next_cursor: Option<u32>,
    pub prev_cursor: Option<u32>,
}

/// A page: its items in ascending order of identifier, and its cursors.
pub struct PaginationRes<T> {
    pub items: Vec<T>,
    pub next_cursor: Option<u32>,
    pub prev_cursor: Option<u32>,
}

impl<T> PaginationRes<T> {
    /// The page of `items` with the given cursors.
    pub fn new(items: Vec<T>, cursors: NextAndPrevCursor) -> (res: Self)
        ensures
            res.items == items,
            res.next_cursor == cursors.next_cursor,
            res.prev_cursor == cursors.prev_cursor,
    {
        PaginationRes { items, next_cursor: cursors.next_cursor, prev_cursor: cursors.prev_cursor }
    }
}

/// One request: how many items, beyond which identifier, in which direction.
/// The cursor is exclusive.
#[derive(Debug, Clone, Copy, PartialEq, Eq, Hash, Structural)]
pub struct PaginationParams {
    pub limit: u32,
    pub cursor: Option<u32>,
    pub direction: PaginationDirection,
}

/// Why a request cannot be sent to a store.
#[derive(Debug, Clone, Copy, PartialEq, Eq, Hash, Structural)]
pub enum InvalidParams {
    /// A page of no items: the extra row could not tell anything.
    ZeroLimit,
    /// The limit leaves no room for the extra row.
    LimitTooLarge,
}

impl InvalidParams {
    /// The sentence of the fault.
    pub open spec fn text(self) -> Seq<char> {
        match self {
            InvalidParams::ZeroLimit => "Page limit must be at least 1"@,
            InvalidParams::LimitTooLarge => "Page limit is too large"@,
        }
    }

    /// The sentence that reports the fault to the user.
    pub fn message(&self) -> (r: String)
        ensures
            r@ == self.text(),
    {
        match self {
            InvalidParams::ZeroLimit => "Page limit must be at least 1".to_owned(),
            InvalidParams::LimitTooLarge => "Page limit is too large".to_owned(),
        }
    }
}

impl PaginationParams {
    /// A request is well formed when its page holds at least one item and
    /// the window of one row more can still be counted.
    pub open spec fn well_formed(self) -> bool {
        0 < self.limit < u32::MAX
    }

    /// The number of rows to ask the store for.
    pub open spec fn window_size(self) -> nat {
        (self.limit + 1) as nat
    }

    /// Whether an identifier lies beyond the cursor in the direction of travel.
    pub open spec fn beyond_cursor(self, id: u32) -> bool {
        match self.cursor {
            None => true,
            Some(c) => match self.direction {
                PaginationDirection::Forward => id > c,
                PaginationDirection::Backward => id < c,
            },
        }
    }

    /// The verdict on a request: none on a well formed one, else its fault.
    pub open spec fn check_spec(self) -> Result<(), InvalidParams> {
        if self.limit == 0 {
            Err(InvalidParams::ZeroLimit)
        } else if self.limit == u32::MAX {
            Err(InvalidParams::LimitTooLarge)
        } else {
            Ok(())
        }
    }

    /// Accepts a well formed request and names the fault of any other.
    pub fn check(&self) -> (res: Result<(), InvalidParams>)
        ensures
            res == self.check_spec(),
            res is Ok <==> self.well_formed(),
    {
        if self.limit == 0 {
            Err(InvalidParams::ZeroLimit)
        } else if self.limit == u32::MAX {
            Err(InvalidParams::LimitTooLarge)
        } else {
            Ok(())
        }
    }

    /// The exec form of `beyond_cursor`.
    pub fn is_beyond_cursor(&self, id: u32) -> (b: bool)
        ensures
            b == self.beyond_cursor(id),
    {
        match self.cursor {
            None => true,
            Some(c) => match self.direction {
                PaginationDirection::Forward => id > c,
                PaginationDirection::Backward => id < c,
            },
        }
    }
}

/// Whether a fetched window holds the extra row.
pub open spec fn has_more(params: PaginationParams, fetched: nat) -> bool {
    fetched > params.limit
}

/// The window without the extra row, still in the order of the fetch.
pub open spec fn trimmed<T>(params: PaginationParams, rows: Seq<T>) -> Seq<T> {
    if has_more(params, rows.len()) {
        rows.drop_last()
    } else {
        rows
    }
}

/// The items of the page: the trimmed window, turned round where the fetch
/// walked downwards.
pub open spec fn page_items<T>(params: PaginationParams, rows: Seq<T>) -> Seq<T> {
    match params.direction {
        PaginationDirection::Forward => trimmed(params, rows),
        PaginationDirection::Backward => trimmed(params, rows).reverse(),
    }
}

/// The identifier of the first item, if there is an item.
pub open spec fn start_id<T: HasId>(items: Seq<T>) -> Option<u32> {
    if items.len() == 0 {
        None
    } else {
        Some(items.first().spec_id())
    }
}

/// The identifier of the last item, if there is an item.
pub open spec fn end_id<T: HasId>(items: Seq<T>) -> Option<u32> {
    if items.len() == 0 {
        None
    } else {
        Some(items.last().spec_id())
    }
}

/// The cursors of the page that a fetched window yields.
///
/// Walking upwards, a next page exists if the extra row came back, and a
/// previous one if the request had a cursor.  Walking downwards, a next page
/// always exists, and a previous one if the extra row came back.
pub open spec fn page_cursors<T: HasId>(
    params: PaginationParams,
    rows: Seq<T>,
) -> NextAndPrevCursor {
    let items = page_items(params, rows);
    let more = has_more(params, rows.len());
    match params.direction {
        PaginationDirection::Forward => NextAndPrevCursor {
            next_cursor: if more {
                end_id(items)
            } else {
                None
            },
            prev_cursor: if params.cursor is Some {
                start_id(items)
            } else {
                None
            },
        },
        PaginationDirection::Backward => NextAndPrevCursor {
            next_cursor: end_id(items),
            prev_cursor: if more {
                start_id(items)
            } else {
                None
            },
        },
    }
}

/// Whether the identifiers rise strictly along the sequence.
pub open spec fn ascending<T: HasId>(rows: Seq<T>) -> bool {
    forall|i: int, j: int| 0 <= i < j < rows.len() ==> rows[i].spec_id() < rows[j].spec_id()
}

/// Whether the identifiers fall strictly along the sequence.
pub open spec fn descending<T: HasId>(rows: Seq<T>) -> bool {
    forall|i: int, j: int| 0 <= i < j < rows.len() ==> rows[i].spec_id() > rows[j].spec_id()
}

/// Whether a window is in the order in which a store answers the request.
pub open spec fn in_fetch_order<T: HasId>(params: PaginationParams, rows: Seq<T>) -> bool {
    match params.direction {
        PaginationDirection::Forward => ascending(rows),
        PaginationDirection::Backward => descending(rows),
    }
}

/// Turns the vector round in place.
pub fn reverse_rows<T>(rows: &mut Vec<T>)
    ensures
        final(rows)@ == old(rows)@.reverse(),
{
    let ghost before = rows@;
    let mut turned: Vec<T> = Vec::new();
    while rows.len() > 0
        invariant
            rows@.len() + turned@.len() == before.len(),
            rows@ == before.take(rows@.len() as int),
            forall|k: int|
                0 <= k < turned@.len() ==> turned@[k] == before[before.len() - 1 - k],
        decreases rows.len(),
    {
        match rows.pop() {
            Some(row) => {
                turned.push(row);
            },
            None => {},
        }
    }
    assert(turned@ =~= before.reverse());
    *rows = turned;
}

/// Makes the page out of the window that the store returned and gives its
/// cursors: drops the extra row if it is there, and puts the rows in
/// ascending order if the fetch walked downwards.  The items rise in
/// identifier if the store returned the window in the order of the walk.
pub fn get_cursors<T: HasId>(params: &PaginationParams, rows: &mut Vec<T>) -> (cursors:
    NextAndPrevCursor)
    ensures
        final(rows)@ == page_items(*params, old(rows)@),
        cursors == page_cursors(*params, old(rows)@),
        in_fetch_order(*params, old(rows)@) ==> ascending(final(rows)@),
{
    proof {
        if in_fetch_order(*params, rows@) {
            lemma_page_items_ascending(*params, rows@);
        }
    }
    let has_more = rows.len() > params.limit as usize;
    if has_more {
        rows.pop();
    }
    match params.direction {
        PaginationDirection::Backward => {
            reverse_rows(rows);
        },
        PaginationDirection::Forward => {},
    }
    let count = rows.len();
    let start_id = if count == 0 {
        None
    } else {
        Some(rows[0].id())
    };
    let end_id = if count == 0 {
        None
    } else {
        Some(rows[count - 1].id())
    };
    match params.direction {
        PaginationDirection::Forward => NextAndPrevCursor {
            next_cursor: if has_more {
                end_id
            } else {
                None
            },
            prev_cursor: if params.cursor.is_some() {
                start_id
            } else {
                None
            },
        },
        PaginationDirection::Backward => NextAndPrevCursor {
            next_cursor: end_id,
            prev_cursor: if has_more {
                start_id
            } else {
                None
            },
        },
    }
}

/// The page that a fetched window yields, with its cursors.
pub fn page_from_rows<T: HasId>(params: &PaginationParams, rows: Vec<T>) -> (page: PaginationRes<T>)
    ensures
        page.items@ == page_items(*params, rows@),
        page.next_cursor == page_cursors(*params, rows@).next_cursor,
        page.prev_cursor == page_cursors(*params, rows@).prev_cursor,
        in_fetch_order(*params, rows@) ==> ascending(page.items@),
{
    let mut rows = rows;
    let cursors = get_cursors(params, &mut rows);
    PaginationRes::new(rows, cursors)
}

/// What a caller remembers between pages: the last request it issued
/// (`current_cursor`, `direction`) and the cursors of the last answer.
#[derive(Debug, Clone, Copy, PartialEq, Eq, Hash, Structural)]
pub struct PaginationState {
    pub limit: u32,
    pub next_cursor: Option<u32>,
    pub prev_cursor: Option<u32>,
    pub current_cursor: Option<u32>,
    pub direction: PaginationDirection,
}

impl Default for PaginationState {
    fn default() -> (state: Self)
        ensures
            state == (PaginationState {
                limit: 50,
                next_cursor: None,
                prev_cursor: None,
                current_cursor: None,
                direction: PaginationDirection::Forward,
            }),
    {
        PaginationState {
            limit: 50,
            next_cursor: None,
            prev_cursor: None,
            current_cursor: None,
            direction: PaginationDirection::Forward,
        }
    }
}

impl PaginationState {
    /// The state before the first request for pages of `limit` items.
    pub open spec fn first(limit: u32) -> PaginationState {
        PaginationState {
            limit,
            next_cursor: None,
            prev_cursor: None,
            current_cursor: None,
            direction: PaginationDirection::Forward,
        }
    }

    /// The request that the state stands for.
    pub open spec fn params(self) -> PaginationParams {
        PaginationParams { limit: self.limit, cursor: self.current_cursor, direction: self.direction }
    }

    /// The state once the cursors of an answer are taken over.
    pub open spec fn with_response(self, cursors: NextAndPrevCursor) -> PaginationState {
        PaginationState {
            next_cursor: cursors.next_cursor,
            prev_cursor: cursors.prev_cursor,
            ..self
        }
    }

    /// The state once the next request is aimed past the last answer.
    pub open spec fn forwards(self) -> PaginationState {
        PaginationState {
            current_cursor: self.next_cursor,
            direction: PaginationDirection::Forward,
            ..self
        }
    }

    /// The state once the next request is aimed before the last answer.
    pub open spec fn backwards(self) -> PaginationState {
        PaginationState {
            current_cursor: self.prev_cursor,
            direction: PaginationDirection::Backward,
            ..self
        }
    }

    /// A state for pages of `limit` items, before the first request.
    pub fn with_limit(limit: u32) -> (state: PaginationState)
        ensures
            state == Self::first(limit),
    {
        PaginationState {
            limit,
            next_cursor: None,
            prev_cursor: None,
            current_cursor: None,
            direction: PaginationDirection::Forward,
        }
    }

    /// Forgets the way forward, as after a change of filter.  The request
    /// last issued stays as it is.
    pub fn reset_pagination(&mut self)
        ensures
            *final(self) == (PaginationState { next_cursor: None, ..*old(self) }),
    {
        self.next_cursor = None;
    }

    /// Whether the last answer told of a page before it.
    pub fn has_previous(&self) -> (b: bool)
        ensures
            b == self.prev_cursor is Some,
    {
        self.prev_cursor.is_some()
    }

    /// Whether the last answer told of a page after it.
    pub fn has_next(&self) -> (b: bool)
        ensures
            b == self.next_cursor is Some,
    {
        self.next_cursor.is_some()
    }

    /// Aims the next request at the page before the last answer.
    pub fn go_backwards(&mut self)
        ensures
            *final(self) == old(self).backwards(),
    {
        self.current_cursor = self.prev_cursor;
        self.direction = PaginationDirection::Backward;
    }

    /// Aims the next request at the page after the last answer.
    pub fn go_forwards(&mut self)
        ensures
            *final(self) == old(self).forwards(),
    {
        self.current_cursor = self.next_cursor;
        self.direction = PaginationDirection::Forward;
    }

    /// Takes over the cursors of an answer.  The request last issued stays.
    pub fn apply_response(&mut self, cursors: NextAndPrevCursor)
        ensures
            *final(self) == old(self).with_response(cursors),
    {
        self.next_cursor = cursors.next_cursor;
        self.prev_cursor = cursors.prev_cursor;
    }

    /// The request that the state stands for.
    pub fn to_pagination_params(&self) -> (params: PaginationParams)
        ensures
            params == self.params(),
    {
        PaginationParams { limit: self.limit, cursor: self.current_cursor, direction: self.direction }
    }
}

/// The items of a page rise in identifier whichever way the request walked,
/// provided that the store returned the window in the order of the walk.
pub proof fn lemma_page_items_ascending<T: HasId>(params: PaginationParams, rows: Seq<T>)
    requires
        in_fetch_order(params, rows),
    ensures
        ascending(page_items(params, rows)),
{
    let kept = trimmed(params, rows);
    assert(forall|i: int| 0 <= i < kept.len() ==> kept[i] == rows[i]);
    match params.direction {
        PaginationDirection::Forward => {},
        PaginationDirection::Backward => {
            let items = kept.reverse();
            assert forall|i: int, j: int| 0 <= i < j < items.len() implies items[i].spec_id()
                < items[j].spec_id() by {
                assert(items[i] == kept[kept.len() - 1 - i]);
                assert(items[j] == kept[kept.len() - 1 - j]);
            }
        },
    }
}

/// A request without a cursor that walks upwards is answered by a page
/// that has no page before it.
pub proof fn lemma_first_page_has_no_previous<T: HasId>(params: PaginationParams, rows: Seq<T>)
    requires
        params.cursor is None,
        params.direction == PaginationDirection::Forward,
    ensures
        page_cursors(params, rows).prev_cursor is None,
{
}

/// A page holds the fetched rows up to the limit: all of them if the store
/// had no extra row to return, else all but the extra one.
pub proof fn lemma_page_len<T>(params: PaginationParams, rows: Seq<T>)
    ensures
        page_items(params, rows).len() == if rows.len() > params.limit {
            rows.len() - 1
        } else {
            rows.len() as int
        },
{
}

} // verus!
