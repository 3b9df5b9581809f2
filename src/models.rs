use vstd::prelude::*;

verus! {

/// One row of the `users` table.
pub struct UserRow {
    pub id: i32,
    pub name: String,
    pub country_id: Option<i32>,
}

/// One row of the `countries` table.
pub struct CountryRow {
    pub id: i32,
    pub name: String,
}

impl UserRow {
    /// A field-by-field copy of the row.
    pub fn copy(&self) -> (r: UserRow)
        ensures
            r == *self,
    {
        UserRow { id: self.id, name: self.name.clone(), country_id: self.country_id }
    }
}

impl CountryRow {
    /// A field-by-field copy of the row.
    pub fn copy(&self) -> (r: CountryRow)
        ensures
            r == *self,
    {
        CountryRow { id: self.id, name: self.name.clone() }
    }
}

} // verus!
