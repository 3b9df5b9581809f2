use graphql_users::cursor::{Cursor, CursorError};
use graphql_users::models::UserRow;
use graphql_users::pagination::{assemble_connection, plan_connection, ConnectionError, PageWindow};
use graphql_users::schema::{connection_nodes, Query};
use graphql_users::trail::{UserConnectionTrail, UserTrail};

fn table(n: i32) -> Vec<UserRow> {
    (1..=n).map(|i| UserRow { id: i, name: format!("user{}", i), country_id: None }).collect()
}

fn window(rows: &[UserRow], w: PageWindow) -> Vec<UserRow> {
    rows.iter().skip(w.offset as usize).take(w.limit as usize).map(|r| r.copy()).collect()
}

/// Resolves one connection page against an in-memory table; returns the user
/// ids of the edges, the edge cursors, `has_next_page` and `total_count`.
fn page(rows: &[UserRow], after: Option<&str>, first: i32) -> (Vec<i32>, Vec<String>, bool, i32) {
    let plan = Query.field_user_connections(after.map(|s| Cursor(s.to_string())), first).unwrap();
    let page_rows = window(rows, plan.page);
    let lookahead = window(rows, plan.lookahead);
    let trail = UserConnectionTrail { edges_node: Some(UserTrail { country: None }) };
    let (users, loads) = connection_nodes(&page_rows, &trail);
    assert!(loads.countries.is_none());
    let conn = assemble_connection(&plan, users, rows.len() as i64, lookahead.len()).unwrap();
    let ids = conn.field_edges().iter().map(|e| e.field_node().user.id).collect();
    let cursors = conn.field_edges().iter().map(|e| e.field_cursor().0.clone()).collect();
    (ids, cursors, conn.field_page_info().field_has_next_page(), conn.field_total_count())
}

#[test]
fn five_users_in_pages_of_two() {
    let rows = table(5);
    let (ids, cursors, next, total) = page(&rows, None, 2);
    assert_eq!(ids, vec![1, 2]);
    assert_eq!(cursors, vec!["2".to_string(), "2".to_string()]);
    assert!(next);
    assert_eq!(total, 5);
    let (ids, cursors, next, total) = page(&rows, Some("2"), 2);
    assert_eq!(ids, vec![3, 4]);
    assert_eq!(cursors, vec!["3".to_string(), "3".to_string()]);
    assert!(next);
    assert_eq!(total, 5);
    let (ids, _, next, total) = page(&rows, Some("3"), 2);
    assert_eq!(ids, vec![5]);
    assert!(!next);
    assert_eq!(total, 5);
}

#[test]
fn same_page_twice_is_identical() {
    let rows = table(7);
    assert_eq!(page(&rows, Some("2"), 3), page(&rows, Some("2"), 3));
}

#[test]
fn total_count_ignores_the_page() {
    let rows = table(9);
    for p in ["1", "2", "3", "4", "10"] {
        assert_eq!(page(&rows, Some(p), 4).3, 9);
    }
}

#[test]
fn has_next_page_until_the_last_page() {
    for k in 0..12 {
        let rows = table(k);
        for s in 1..5 {
            let last = (k + s - 1) / s;
            for p in 1..=last.max(1) + 1 {
                let (_, _, next, _) = page(&rows, Some(&p.to_string()), s);
                assert_eq!(next, p < last, "k={} s={} p={}", k, s, p);
            }
        }
    }
}

#[test]
fn windows_of_a_page() {
    let plan = plan_connection(Some(Cursor("3".to_string())), 10).unwrap();
    assert_eq!(plan.page_number, 3);
    assert_eq!(plan.page, PageWindow { offset: 20, limit: 10 });
    assert_eq!(plan.lookahead, PageWindow { offset: 30, limit: 1 });
    assert_eq!(plan.next_cursor.0, "4");
}

#[test]
fn no_cursor_means_first_page() {
    let plan = plan_connection(None, 5).unwrap();
    assert_eq!(plan.page_number, 1);
    assert_eq!(plan.page, PageWindow { offset: 0, limit: 5 });
    assert_eq!(plan.next_cursor.0, "2");
}

#[test]
fn signed_cursor_is_read() {
    let plan = plan_connection(Some(Cursor("+2".to_string())), 5).unwrap();
    assert_eq!(plan.page_number, 2);
}

#[test]
fn malformed_cursor_is_refused() {
    for c in ["abc", "", "1.5", " 1", "-", "99999999999999999999"] {
        assert_eq!(
            plan_connection(Some(Cursor(c.to_string())), 2).err(),
            Some(ConnectionError::InvalidCursor)
        );
        assert_eq!(Cursor(c.to_string()).page_number(), Err(CursorError::Malformed));
    }
}

#[test]
fn invalid_pages_are_refused() {
    assert_eq!(plan_connection(Some(Cursor("0".to_string())), 2).err(), Some(ConnectionError::InvalidPage));
    assert_eq!(plan_connection(Some(Cursor("-3".to_string())), 2).err(), Some(ConnectionError::InvalidPage));
    assert_eq!(plan_connection(None, -1).err(), Some(ConnectionError::InvalidPage));
    let max = i64::MAX.to_string();
    assert_eq!(plan_connection(Some(Cursor(max)), 0).err(), Some(ConnectionError::InvalidPage));
    let big = (i64::MAX / 2).to_string();
    assert_eq!(plan_connection(Some(Cursor(big)), 3).err(), Some(ConnectionError::InvalidPage));
}

#[test]
fn count_out_of_range_is_refused() {
    let plan = plan_connection(None, 2).unwrap();
    assert_eq!(
        assemble_connection(&plan, vec![], i64::from(i32::MAX) + 1, 0).err(),
        Some(ConnectionError::CountOutOfRange)
    );
    assert_eq!(assemble_connection(&plan, vec![], -1, 0).err(), Some(ConnectionError::CountOutOfRange));
    assert_eq!(assemble_connection(&plan, vec![], i64::from(i32::MAX), 0).unwrap().total_count, i32::MAX);
}

#[test]
fn nodes_not_requested_give_no_edges() {
    let rows = table(3);
    let plan = plan_connection(None, 2).unwrap();
    let trail = UserConnectionTrail { edges_node: None };
    let (users, loads) = connection_nodes(&window(&rows, plan.page), &trail);
    assert!(users.is_empty());
    assert!(loads.countries.is_none());
    let conn = assemble_connection(&plan, users, 3, 1).unwrap();
    assert!(conn.edges.is_empty());
    assert!(conn.page_info.field_start_cursor().is_none());
    assert!(conn.page_info.field_end_cursor().is_none());
    assert!(conn.page_info.has_next_page);
    assert_eq!(conn.total_count, 3);
}

#[test]
fn start_and_end_cursor_are_the_next_page() {
    let rows = table(3);
    let plan = plan_connection(None, 2).unwrap();
    let trail = UserConnectionTrail { edges_node: Some(UserTrail { country: None }) };
    let (users, _) = connection_nodes(&window(&rows, plan.page), &trail);
    let conn = assemble_connection(&plan, users, 3, 1).unwrap();
    assert_eq!(conn.page_info.start_cursor.as_ref().map(|c| c.0.as_str()), Some("2"));
    assert_eq!(conn.page_info.end_cursor.as_ref().map(|c| c.0.as_str()), Some("2"));
}

#[test]
fn cursor_text_round_trips() {
    for n in [1i64, 7, 10, 123456, i64::MAX, -5, i64::MIN, 0] {
        let c = Cursor::of_page(n);
        assert_eq!(c.0, n.to_string());
        assert_eq!(c.page_number(), Ok(n));
    }
}
