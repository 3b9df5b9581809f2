//! The GraphQL-facing nodes: a row plus the association slots filled by eager loading.
use vstd::prelude::*;
use crate::cursor::{decimal_of, decimal_string, Cursor};
use crate::models::{CountryRow, UserRow};

verus! {

/// An association slot. It leaves `NotLoaded` once, when eager loading fills it.
pub enum HasOne<T> {
    NotLoaded,
    Loaded(T),
    LoadFailed,
}

/// Why an association could not be read.
#[derive(PartialEq, Eq, Structural, Clone, Copy, Debug)]
pub enum AssociationError {
    /// Eager loading never filled the slot.
    NotLoaded,
    /// Eager loading found no row for the key.
    LoadFailed,
}

impl<T> HasOne<T> {
    /// The loaded value, or why there is none.
    pub fn try_unwrap(&self) -> (r: Result<&T, AssociationError>)
        ensures
            match *self {
                HasOne::NotLoaded => r == Err::<&T, AssociationError>(AssociationError::NotLoaded),
                HasOne::LoadFailed => r == Err::<&T, AssociationError>(AssociationError::LoadFailed),
                HasOne::Loaded(v) => r matches Ok(x) && *x == v,
            },
    {
        match self {
            HasOne::NotLoaded => Err(AssociationError::NotLoaded),
            HasOne::LoadFailed => Err(AssociationError::LoadFailed),
            HasOne::Loaded(v) => Ok(v),
        }
    }
}

/// A `Country` node.
pub struct Country {
    pub country: CountryRow,
}

/// A `User` node; `country` holds `Loaded(None)` for a user without a country.
pub struct User {
    pub user: UserRow,
    pub country: HasOne<Option<Country>>,
}

impl Country {
    /// The identity: the decimal text of the primary key.
    pub fn field_id(&self) -> (r: String)
        ensures
            r@ == decimal_of(self.country.id as int),
    {
        decimal_string(self.country.id as i64)
    }

    pub fn field_name(&self) -> (r: &String)
        ensures
            *r == self.country.name,
    {
        &self.country.name
    }
}

impl User {
    /// One node per row, in order, with every association slot `NotLoaded`.
    pub fn from_db_models(models: &Vec<UserRow>) -> (r: Vec<User>)
        ensures
            r.len() == models.len(),
            forall|i: int|
                0 <= i < r.len() ==> (#[trigger] r[i]).user == models[i]
                    && r[i].country is NotLoaded,
    {
        let mut r: Vec<User> = Vec::new();
        let mut i: usize = 0;
        while i < models.len()
            invariant
                i <= models.len(),
                r.len() == i,
                forall|k: int|
                    0 <= k < i ==> (#[trigger] r[k]).user == models[k] && r[k].country is NotLoaded,
            decreases models.len() - i,
        {
            r.push(User { user: models[i].copy(), country: HasOne::NotLoaded });
            i = i + 1;
        }
        r
    }

    /// The identity: the decimal text of the primary key.
    pub fn field_id(&self) -> (r: String)
        ensures
            r@ == decimal_of(self.user.id as int),
    {
        decimal_string(self.user.id as i64)
    }

    pub fn field_name(&self) -> (r: &String)
        ensures
            *r == self.user.name,
    {
        &self.user.name
    }

    /// The country, `None` for a user without one; an error where eager loading
    /// did not fill the slot.
    pub fn field_country(&self) -> (r: Result<Option<&Country>, AssociationError>)
        ensures
            match self.country {
                HasOne::NotLoaded => r == Err::<Option<&Country>, AssociationError>(
                    AssociationError::NotLoaded,
                ),
                HasOne::LoadFailed => r == Err::<Option<&Country>, AssociationError>(
                    AssociationError::LoadFailed,
                ),
                HasOne::Loaded(None) => r == Ok::<Option<&Country>, AssociationError>(None),
                HasOne::Loaded(Some(c)) => r matches Ok(Some(x)) && *x == c,
            },
    {
        match self.country.try_unwrap() {
            Ok(Some(c)) => Ok(Some(c)),
            Ok(None) => Ok(None),
            Err(e) => Err(e),
        }
    }
}

/// Page metadata of a connection.
pub struct PageInfo {
    pub start_cursor: Option<Cursor>,
    pub end_cursor: Option<Cursor>,
    pub has_next_page: bool,
}

/// One result of a connection with its cursor.
pub struct Edge<T> {
    pub node: T,
    pub cursor: Cursor,
}

pub type UserEdge = Edge<User>;

/// One page of users.
pub struct UserConnection {
    pub edges: Vec<UserEdge>,
    pub page_info: PageInfo,
    /// The number of rows of the whole table, regardless of the page.
    pub total_count: i32,
}

impl PageInfo {
    pub fn field_start_cursor(&self) -> (r: &Option<Cursor>)
        ensures
            *r == self.start_cursor,
    {
        &self.start_cursor
    }

    pub fn field_end_cursor(&self) -> (r: &Option<Cursor>)
        ensures
            *r == self.end_cursor,
    {
        &self.end_cursor
    }

    pub fn field_has_next_page(&self) -> (r: bool)
        ensures
            r == self.has_next_page,
    {
        self.has_next_page
    }
}

impl<T> Edge<T> {
    pub fn field_node(&self) -> (r: &T)
        ensures
            *r == self.node,
    {
        &self.node
    }

    pub fn field_cursor(&self) -> (r: &Cursor)
        ensures
            *r == self.cursor,
    {
        &self.cursor
    }
}

impl UserConnection {
    pub fn field_edges(&self) -> (r: &Vec<UserEdge>)
        ensures
            *r == self.edges,
    {
        &self.edges
    }

    pub fn field_page_info(&self) -> (r: &PageInfo)
        ensures
            *r == self.page_info,
    {
        &self.page_info
    }

    pub fn field_total_count(&self) -> (r: i32)
        ensures
            r == self.total_count,
    {
        self.total_count
    }
}

} // verus!
