//! Eager loading of associations, driven by the query trail.
//!
//! For each walked association one batched query is planned over the keys of
//! all parents; its rows are then matched back to the parents by key.
use vstd::prelude::*;
use crate::models::CountryRow;
use crate::nodes::{Country, HasOne, User};
use crate::trail::{Association, UserTrail};

verus! {

/// The distinct country keys of the users, in order of first appearance.
pub open spec fn distinct_country_ids(users: Seq<User>) -> Seq<i32>
    decreases users.len(),
{
    if users.len() == 0 {
        Seq::empty()
    } else {
        let before = distinct_country_ids(users.drop_last());
        match users.last().user.country_id {
            Some(x) => if before.contains(x) {
                before
            } else {
                before.push(x)
            },
            None => before,
        }
    }
}

/// The keys hold each foreign key of the users once, and nothing else.
pub proof fn lemma_distinct_country_ids(users: Seq<User>)
    ensures
        distinct_country_ids(users).no_duplicates(),
        forall|x: i32|
            distinct_country_ids(users).contains(x) <==> exists|i: int|
                0 <= i < users.len() && (#[trigger] users[i]).user.country_id == Some(x),
    decreases users.len(),
{
    if users.len() > 0 {
        let init = users.drop_last();
        lemma_distinct_country_ids(init);
        assert forall|x: i32|
            distinct_country_ids(users).contains(x) <==> exists|i: int|
                0 <= i < users.len() && (#[trigger] users[i]).user.country_id == Some(x) by {
            if exists|i: int| 0 <= i < init.len() && (#[trigger] init[i]).user.country_id == Some(x) {
                let i = choose|i: int| 0 <= i < init.len() && (#[trigger] init[i]).user.country_id == Some(x);
                assert(users[i] == init[i]);
            }
            if exists|i: int| 0 <= i < users.len() && (#[trigger] users[i]).user.country_id == Some(x) {
                let i = choose|i: int| 0 <= i < users.len() && (#[trigger] users[i]).user.country_id == Some(x);
                if i < users.len() - 1 {
                    assert(init[i] == users[i]);
                }
            }
            let before = distinct_country_ids(init);
            if let Some(y) = users.last().user.country_id {
                if !before.contains(y) {
                    assert(before.push(y)[before.len() as int] == y);
                    if before.push(y).contains(x) {
                        let k = choose|k: int| 0 <= k < before.push(y).len() && before.push(y)[k] == x;
                        if k < before.len() {
                            assert(before[k] == x);
                        }
                    }
                    if before.contains(x) {
                        let k = choose|k: int| 0 <= k < before.len() && before[k] == x;
                        assert(before.push(y)[k] == x);
                    }
                }
            }
        }
    }
}

/// The first row of `cs` at or after `start` whose key is `id`.
pub open spec fn find_country_from(cs: Seq<CountryRow>, id: i32, start: int) -> Option<CountryRow>
    decreases cs.len() - start,
{
    if start < 0 || start >= cs.len() {
        None
    } else if cs[start].id == id {
        Some(cs[start])
    } else {
        find_country_from(cs, id, start + 1)
    }
}

/// What the `country` slot of a user with foreign key `fk` becomes, given the
/// rows of the batched country query.
pub open spec fn country_slot(fk: Option<i32>, cs: Seq<CountryRow>) -> HasOne<Option<Country>> {
    match fk {
        None => HasOne::Loaded(None),
        Some(x) => match find_country_from(cs, x, 0) {
            Some(c) => HasOne::Loaded(Some(Country { country: c })),
            None => HasOne::LoadFailed,
        },
    }
}

proof fn lemma_find_country_from(cs: Seq<CountryRow>, id: i32, start: int)
    requires
        0 <= start,
    ensures
        find_country_from(cs, id, start) matches Some(c) ==> c.id == id,
        (exists|j: int| start <= j < cs.len() && cs[j].id == id) ==> find_country_from(
            cs,
            id,
            start,
        ) is Some,
    decreases cs.len() - start,
{
    if start < cs.len() && cs[start].id != id {
        lemma_find_country_from(cs, id, start + 1);
        if exists|j: int| start <= j < cs.len() && cs[j].id == id {
            let j = choose|j: int| start <= j < cs.len() && cs[j].id == id;
            assert(start + 1 <= j);
        }
    }
}

/// After the country association is loaded, a user whose foreign key is `x`
/// holds a country whose key is `x` when the batched query returned that row,
/// and a user without a foreign key holds a loaded empty slot.
pub proof fn lemma_to_one_association(fk: Option<i32>, cs: Seq<CountryRow>)
    ensures
        match fk {
            None => country_slot(fk, cs) == HasOne::<Option<Country>>::Loaded(None),
            Some(x) => (exists|j: int| 0 <= j < cs.len() && cs[j].id == x) ==> (country_slot(
                fk,
                cs,
            ) matches HasOne::Loaded(Some(c)) && c.country.id == x),
        },
{
    if let Some(x) = fk {
        lemma_find_country_from(cs, x, 0);
    }
}

/// The batched association queries to issue for a set of users.
pub struct UserLoads {
    /// `Some(ids)`: load the countries whose key is in `ids`.
    pub countries: Option<Vec<i32>>,
}

impl UserLoads {
    /// The associations that the plan queries.
    pub open spec fn queried(self) -> Set<Association> {
        if self.countries is Some {
            set![Association::Country]
        } else {
            Set::empty()
        }
    }

    /// How many queries the plan issues.
    pub open spec fn query_count(self) -> nat {
        if self.countries is Some {
            1
        } else {
            0
        }
    }
}

/// Whether `ids` holds `x`.
fn contains_id(ids: &Vec<i32>, x: i32) -> (r: bool)
    ensures
        r == ids@.contains(x),
{
    let mut j: usize = 0;
    while j < ids.len()
        invariant
            j <= ids.len(),
            forall|k: int| 0 <= k < j ==> ids@[k] != x,
        decreases ids.len() - j,
    {
        if ids[j] == x {
            return true;
        }
        j = j + 1;
    }
    false
}

/// The distinct country keys of the users: the key set of the batched query.
pub fn country_ids(users: &Vec<User>) -> (r: Vec<i32>)
    ensures
        r@ == distinct_country_ids(users@),
        r@.no_duplicates(),
        forall|x: i32|
            r@.contains(x) <==> exists|i: int|
                0 <= i < users.len() && (#[trigger] users[i]).user.country_id == Some(x),
{
    let mut r: Vec<i32> = Vec::new();
    let mut i: usize = 0;
    while i < users.len()
        invariant
            i <= users.len(),
            r@ == distinct_country_ids(users@.subrange(0, i as int)),
        decreases users.len() - i,
    {
        assert(users@.subrange(0, i + 1).drop_last() =~= users@.subrange(0, i as int));
        match users[i].user.country_id {
            Some(x) => {
                if !contains_id(&r, x) {
                    r.push(x);
                }
            },
            None => {},
        }
        i = i + 1;
    }
    assert(users@.subrange(0, users.len() as int) =~= users@);
    proof {
        lemma_distinct_country_ids(users@);
    }
    r
}

/// Plans the association queries for `users`: one batched query per walked
/// association, whatever the number of users, and none for the others.
pub fn plan_user_loads(users: &Vec<User>, trail: &UserTrail) -> (r: UserLoads)
    ensures
        r.queried() == trail.walked(),
        trail.country is Some ==> r.query_count() == 1,
        trail.country is None ==> r.query_count() == 0,
        r.countries matches Some(ids) ==> ids@ == distinct_country_ids(users@),
{
    match trail.country {
        Some(_) => UserLoads { countries: Some(country_ids(users)) },
        None => UserLoads { countries: None },
    }
}

/// The first row of `cs` whose key is `id`.
fn find_country(cs: &Vec<CountryRow>, id: i32) -> (r: Option<&CountryRow>)
    ensures
        match find_country_from(cs@, id, 0) {
            Some(c) => r matches Some(x) && *x == c,
            None => r is None,
        },
{
    let mut j: usize = 0;
    while j < cs.len()
        invariant
            j <= cs.len(),
            find_country_from(cs@, id, 0) == find_country_from(cs@, id, j as int),
        decreases cs.len() - j,
    {
        if cs[j].id == id {
            return Some(&cs[j]);
        }
        j = j + 1;
    }
    None
}

/// The `country` slot for foreign key `fk`, from the rows of the batched query.
fn slot_for(fk: Option<i32>, cs: &Vec<CountryRow>) -> (r: HasOne<Option<Country>>)
    ensures
        r == country_slot(fk, cs@),
{
    match fk {
        None => HasOne::Loaded(None),
        Some(x) => match find_country(cs, x) {
            Some(c) => HasOne::Loaded(Some(Country { country: c.copy() })),
            None => HasOne::LoadFailed,
        },
    }
}

/// Attaches the rows of the batched country query to the users: each user is
/// matched to the country whose key equals its foreign key.
pub fn attach_countries(users: &mut Vec<User>, countries: &Vec<CountryRow>)
    ensures
        final(users).len() == old(users).len(),
        forall|i: int|
            0 <= i < final(users).len() ==> (#[trigger] final(users)[i]).user == old(users)[i].user
                && final(users)[i].country == country_slot(old(users)[i].user.country_id, countries@),
{
    let ghost before = users@;
    let mut i: usize = 0;
    while i < users.len()
        invariant
            i <= users.len(),
            users.len() == before.len(),
            forall|k: int|
                0 <= k < users.len() ==> (#[trigger] users[k]).user == before[k].user,
            forall|k: int|
                0 <= k < i ==> (#[trigger] users[k]).country == country_slot(before[k].user.country_id, countries@),
            forall|k: int| i <= k < users.len() ==> (#[trigger] users[k]).country == before[k].country,
        decreases users.len() - i,
    {
        let slot = slot_for(users[i].user.country_id, countries);
        users[i].country = slot;
        i = i + 1;
    }
}

/// Applies the results of a plan: `countries` holds the rows of the country
/// query where one was planned. Slots of associations not loaded stay as they are.
pub fn apply_user_loads(users: &mut Vec<User>, countries: Option<&Vec<CountryRow>>)
    ensures
        final(users).len() == old(users).len(),
        forall|i: int| 0 <= i < final(users).len() ==> (#[trigger] final(users)[i]).user == old(users)[i].user,
        forall|i: int|
            0 <= i < final(users).len() ==> (#[trigger] final(users)[i]).country == match countries {
                Some(cs) => country_slot(old(users)[i].user.country_id, cs@),
                None => old(users)[i].country,
            },
{
    match countries {
        Some(cs) => attach_countries(users, cs),
        None => {},
    }
}

} // verus!
