//! Offset pagination of the users, with a total count and a lookahead query
//! for the next page.
use vstd::prelude::*;
use crate::cursor::{decimal_of, decimal_parse, lemma_decimal_round_trip, Cursor};
use crate::nodes::{Edge, PageInfo, User, UserConnection, UserEdge};

verus! {

/// A window of rows, `limit` rows from `offset`, in primary key order.
#[derive(PartialEq, Eq, Structural, Clone, Copy, Debug)]
pub struct PageWindow {
    pub offset: i64,
    pub limit: i64,
}

/// The rows of an ordered table that a query for window `w` returns.
pub open spec fn window_rows<T>(table: Seq<T>, w: PageWindow) -> Seq<T> {
    let lo = if w.offset < table.len() { w.offset as int } else { table.len() as int };
    let end = w.offset + w.limit;
    let hi = if end < table.len() { end } else { table.len() as int };
    table.subrange(lo, hi)
}

/// The page number that a cursor asks for: page 1 without a cursor.
pub open spec fn requested_page(cursor: Option<Cursor>) -> Option<int> {
    match cursor {
        None => Some(1),
        Some(c) => decimal_parse(c.0@),
    }
}

/// Whether page `p` of size `s` can be served: pages count from 1, sizes are not
/// negative, and the offsets and the next page number fit in an `i64`.
pub open spec fn page_request_ok(p: int, s: int) -> bool {
    1 <= p && p < i64::MAX && 0 <= s && p * s <= i64::MAX
}

/// The window of page `p` of size `s`.
pub open spec fn page_window(p: int, s: int) -> PageWindow {
    PageWindow { offset: ((p - 1) * s) as i64, limit: s as i64 }
}

/// The lookahead window of page `p` of size `s`: the first row after the page.
pub open spec fn lookahead_window(p: int, s: int) -> PageWindow {
    PageWindow { offset: (p * s) as i64, limit: 1 }
}

/// `k / s` rounded up.
pub open spec fn ceil_div(k: int, s: int) -> int {
    (k + s - 1) / s
}

/// The queries and the forward cursor for one page of a connection.
pub struct ConnectionPlan {
    pub page_number: i64,
    /// The rows of the page.
    pub page: PageWindow,
    /// The lookahead: it finds a row iff a next page exists.
    pub lookahead: PageWindow,
    /// The cursor of the next page.
    pub next_cursor: Cursor,
}

impl ConnectionPlan {
    /// Whether the plan is the one for page `p` of size `s`.
    pub open spec fn is_plan_for(self, p: int, s: int) -> bool {
        &&& self.page_number == p
        &&& self.page == page_window(p, s)
        &&& self.lookahead == lookahead_window(p, s)
        &&& self.next_cursor.0@ == decimal_of(p + 1)
    }
}

/// Why a connection could not be resolved.
#[derive(PartialEq, Eq, Structural, Clone, Copy, Debug)]
pub enum ConnectionError {
    /// The cursor is not the decimal text of a page number.
    InvalidCursor,
    /// The page number is below 1, the page size is negative, or the offsets overflow.
    InvalidPage,
    /// The total count does not fit in a GraphQL `Int`.
    CountOutOfRange,
}

/// Plans the queries for the page that `cursor` names (page 1 without one),
/// of `page_size` rows.
pub fn plan_connection(cursor: Option<Cursor>, page_size: i32) -> (r: Result<ConnectionPlan, ConnectionError>)
    ensures
        match requested_page(cursor) {
            None => r == Err::<ConnectionPlan, ConnectionError>(ConnectionError::InvalidCursor),
            Some(p) => if page_request_ok(p, page_size as int) {
                r matches Ok(plan) && plan.is_plan_for(p, page_size as int)
            } else {
                r == Err::<ConnectionPlan, ConnectionError>(ConnectionError::InvalidPage)
            },
        },
        r matches Ok(plan) ==> requested_page(Some(plan.next_cursor)) == Some(plan.page_number + 1),
{
    let p: i64 = match cursor {
        None => 1,
        Some(c) => match c.page_number() {
            Ok(v) => v,
            Err(_) => {
                return Err(ConnectionError::InvalidCursor);
            },
        },
    };
    let s: i64 = page_size as i64;
    if p < 1 || p == i64::MAX || s < 0 {
        return Err(ConnectionError::InvalidPage);
    }
    match p.checked_mul(s) {
        None => Err(ConnectionError::InvalidPage),
        Some(end) => {
            assert((p - 1) * s <= p * s) by (nonlinear_arith)
                requires
                    s >= 0,
            ;
            assert((p - 1) * s >= 0) by (nonlinear_arith)
                requires
                    s >= 0,
                    p >= 1,
            ;
            assert((p - 1) * s == p * s - s) by (nonlinear_arith);
            proof {
                lemma_decimal_round_trip(p + 1);
            }
            let plan = ConnectionPlan {
                page_number: p,
                page: PageWindow { offset: end - s, limit: s },
                lookahead: PageWindow { offset: end, limit: 1 },
                next_cursor: Cursor::of_page(p + 1),
            };
            Ok(plan)
        },
    }
}

impl UserConnection {
    /// Whether the connection holds one edge per node, in order, each with
    /// `cursor`; the given total count; a next page iff the lookahead found a row;
    /// and `cursor` as start and end cursor unless there are no edges.
    pub open spec fn is_built_from(
        self,
        cursor: Cursor,
        nodes: Seq<User>,
        total_count: int,
        lookahead_rows: int,
    ) -> bool {
        &&& self.total_count == total_count
        &&& self.edges.len() == nodes.len()
        &&& forall|i: int|
            0 <= i < self.edges.len() ==> (#[trigger] self.edges[i]).node == nodes[i]
                && self.edges[i].cursor == cursor
        &&& self.page_info.has_next_page == (lookahead_rows > 0)
        &&& self.page_info.start_cursor == (if nodes.len() == 0 {
            None
        } else {
            Some(cursor)
        })
        &&& self.page_info.end_cursor == self.page_info.start_cursor
    }
}

/// Reading one table state twice with the same cursor and page size gives the
/// same rows, the same lookahead answer and the same forward cursor.
pub proof fn lemma_pagination_deterministic<T>(
    table: Seq<T>,
    a: ConnectionPlan,
    b: ConnectionPlan,
    cursor: Option<Cursor>,
    page_size: i32,
)
    requires
        requested_page(cursor) matches Some(p) && a.is_plan_for(p, page_size as int)
            && b.is_plan_for(p, page_size as int),
    ensures
        window_rows(table, a.page) == window_rows(table, b.page),
        window_rows(table, a.lookahead) == window_rows(table, b.lookahead),
        a.next_cursor.0@ == b.next_cursor.0@,
{
}

/// Consecutive pages neither overlap nor leave a gap: page `p + 1` starts where
/// page `p` ends, and page `p` holds the table's rows from `(p - 1) * s` on.
pub proof fn lemma_pages_adjacent<T>(table: Seq<T>, p: int, s: int)
    requires
        page_request_ok(p, s),
        page_request_ok(p + 1, s),
    ensures
        page_window(p + 1, s).offset == page_window(p, s).offset + page_window(p, s).limit,
        window_rows(table, page_window(p, s)) =~= table.subrange(
            if (p - 1) * s < table.len() { (p - 1) * s } else { table.len() as int },
            if p * s < table.len() { p * s } else { table.len() as int },
        ),
{
    assert((p - 1) * s == p * s - s) by (nonlinear_arith);
    assert(p * s == (p + 1) * s - s) by (nonlinear_arith);
    assert((p - 1) * s >= 0) by (nonlinear_arith)
        requires
            p >= 1,
            s >= 0,
    ;
}

/// For a table of `k` rows read in pages of `s >= 1` rows, the lookahead of page
/// `p` finds a row exactly when `p < ceil(k / s)`: a next page is reported on
/// every page before the last and not on the last.
pub proof fn lemma_has_next_page<T>(table: Seq<T>, p: int, s: int)
    requires
        page_request_ok(p, s),
        s >= 1,
    ensures
        (window_rows(table, lookahead_window(p, s)).len() > 0) == (p < ceil_div(table.len() as int, s)),
{
    let k = table.len() as int;
    let n = k + s - 1;
    let q = n / s;
    let r = n % s;
    vstd::arithmetic::div_mod::lemma_fundamental_div_mod(n, s);
    assert(0 <= r < s);
    assert(p * s >= 0) by (nonlinear_arith)
        requires
            p >= 1,
            s >= 0,
    ;
    if p * s < k {
        assert(p < q) by (nonlinear_arith)
            requires
                p * s < k,
                n == q * s + r,
                n == k + s - 1,
                0 <= r < s,
        ;
    } else {
        assert(q <= p) by (nonlinear_arith)
            requires
                p * s >= k,
                n == q * s + r,
                n == k + s - 1,
                0 <= r < s,
        ;
    }
}

/// Builds the connection from the answers to a plan's queries: `users`, the
/// nodes of the page's rows (empty where the query does not ask for nodes);
/// `total_count`, the row count of the whole table; `lookahead_rows`, how many
/// rows the lookahead query returned. Every edge carries the next page's cursor.
pub fn assemble_connection(
    plan: &ConnectionPlan,
    users: Vec<User>,
    total_count: i64,
    lookahead_rows: usize,
) -> (r: Result<UserConnection, ConnectionError>)
    ensures
        match r {
            Ok(c) => 0 <= total_count <= i32::MAX && c.is_built_from(
                plan.next_cursor,
                users@,
                total_count as int,
                lookahead_rows as int,
            ),
            Err(e) => !(0 <= total_count <= i32::MAX) && e == ConnectionError::CountOutOfRange,
        },
{
    if total_count < 0 || total_count > i32::MAX as i64 {
        return Err(ConnectionError::CountOutOfRange);
    }
    let ghost nodes = users@;
    let mut rest = users;
    let mut edges: Vec<UserEdge> = Vec::new();
    while rest.len() > 0
        invariant
            edges.len() + rest.len() == nodes.len(),
            rest@ == nodes.subrange(edges.len() as int, nodes.len() as int),
            forall|k: int|
                0 <= k < edges.len() ==> (#[trigger] edges[k]).node == nodes[k]
                    && edges[k].cursor == plan.next_cursor,
        decreases rest.len(),
    {
        let node = rest.remove(0);
        edges.push(Edge { node, cursor: plan.next_cursor.copy() });
    }
    let start_cursor = if edges.len() == 0 {
        None
    } else {
        Some(plan.next_cursor.copy())
    };
    let end_cursor = if edges.len() == 0 {
        None
    } else {
        Some(plan.next_cursor.copy())
    };
    let page_info = PageInfo { start_cursor, end_cursor, has_next_page: lookahead_rows > 0 };
    Ok(UserConnection { edges, page_info, total_count: total_count as i32 })
}

} // verus!
