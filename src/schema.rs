//! The root resolvers. Each one decides what to load; the caller runs the
//! queries against the database and hands the rows back.
use vstd::prelude::*;
use crate::cursor::Cursor;
use crate::eager::{distinct_country_ids, plan_user_loads, UserLoads};
use crate::models::UserRow;
use crate::nodes::User;
use crate::pagination::{plan_connection, requested_page, page_request_ok, ConnectionError, ConnectionPlan};
use crate::trail::{UserConnectionTrail, UserTrail};

verus! {

/// Wraps rows into nodes with unloaded slots, and plans the association
/// queries that `trail` asks for over all of them.
pub fn map_models_to_graphql_nodes(models: &Vec<UserRow>, trail: &UserTrail) -> (r: (Vec<User>, UserLoads))
    ensures
        r.0.len() == models.len(),
        forall|i: int|
            0 <= i < r.0.len() ==> (#[trigger] r.0[i]).user == models[i] && r.0[i].country is NotLoaded,
        r.1.queried() == trail.walked(),
        r.1.countries matches Some(ids) ==> ids@ == distinct_country_ids(r.0@),
{
    let users = User::from_db_models(models);
    let loads = plan_user_loads(&users, trail);
    (users, loads)
}

/// The nodes of a connection page: built only where the query asks for
/// `edges { node }`, and otherwise none, with no association query.
pub fn connection_nodes(models: &Vec<UserRow>, trail: &UserConnectionTrail) -> (r: (Vec<User>, UserLoads))
    ensures
        trail.edges_node is None ==> r.0.len() == 0 && r.1.countries is None,
        trail.edges_node matches Some(t) ==> {
            &&& r.0.len() == models.len()
            &&& forall|i: int|
                0 <= i < r.0.len() ==> (#[trigger] r.0[i]).user == models[i] && r.0[i].country is NotLoaded
            &&& r.1.queried() == t.walked()
            &&& r.1.countries matches Some(ids) ==> ids@ == distinct_country_ids(r.0@)
        },
{
    match trail.edges_node {
        Some(t) => map_models_to_graphql_nodes(models, &t),
        None => (Vec::new(), UserLoads { countries: None }),
    }
}

/// The root query type.
pub struct Query;

impl Query {
    /// `users`: the nodes for all user rows, and the association queries to run.
    pub fn field_users(&self, models: &Vec<UserRow>, trail: &UserTrail) -> (r: (Vec<User>, UserLoads))
        ensures
            r.0.len() == models.len(),
            forall|i: int|
                0 <= i < r.0.len() ==> (#[trigger] r.0[i]).user == models[i] && r.0[i].country is NotLoaded,
            r.1.queried() == trail.walked(),
            r.1.countries matches Some(ids) ==> ids@ == distinct_country_ids(r.0@),
    {
        map_models_to_graphql_nodes(models, trail)
    }

    /// `userConnections(after, first)`: the page queries to run.
    pub fn field_user_connections(&self, after: Option<Cursor>, first: i32) -> (r: Result<ConnectionPlan, ConnectionError>)
        ensures
            match requested_page(after) {
                None => r == Err::<ConnectionPlan, ConnectionError>(ConnectionError::InvalidCursor),
                Some(p) => if page_request_ok(p, first as int) {
                    r matches Ok(plan) && plan.is_plan_for(p, first as int)
                } else {
                    r == Err::<ConnectionPlan, ConnectionError>(ConnectionError::InvalidPage)
                },
            },
    {
        plan_connection(after, first)
    }
}

/// The root mutation type: a placeholder.
pub struct Mutation;

impl Mutation {
    /// `noop`: always true.
    pub fn field_noop(&self) -> (r: bool)
        ensures
            r,
    {
        true
    }
}

} // verus!
