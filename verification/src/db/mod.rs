//! The records the bridge keeps, the forms it accepts, and what a lookup
//! that found nothing is answered with.
use vstd::prelude::*;

use crate::errors::BridgeError;
use crate::db::models::{APPS, GROUP, LOCKS, USER};
use crate::text::{copy_string, str_eq, views};

pub mod deserialize;
pub mod keydb;
pub mod models;
pub mod mongo;

verus! {

/// The pattern that finds the users whose e-mail starts with `name`.
pub fn search_pattern(name: &str) -> (r: String)
    ensures
        r@ == "^"@ + name@,
{
    copy_string("^").concat(name)
}

/// The document a lookup found, or the error for finding none.
pub fn document_found<T>(doc: Option<T>) -> (r: Result<T, BridgeError>)
    ensures
        match doc {
            Some(d) => r == Ok::<T, BridgeError>(d),
            None => r matches Err(BridgeError::GeneralError(m)) && m@
                == "Could not find any document"@,
        },
{
    match doc {
        Some(d) => Ok(d),
        None => Err(BridgeError::GeneralError(copy_string("Could not find any document"))),
    }
}

/// The documents a query found, or the error for finding none: a search of
/// users reports a failed search, any other query a general error.
pub fn documents_found<T>(docs: Vec<T>, search: bool) -> (r: Result<Vec<T>, BridgeError>)
    ensures
        docs@.len() > 0 ==> r == Ok::<Vec<T>, BridgeError>(docs),
        docs@.len() == 0 && search ==> (r matches Err(BridgeError::RecordSearchError(m)) && m@
            == "Could not find any documents"@),
        docs@.len() == 0 && !search ==> (r matches Err(BridgeError::GeneralError(m)) && m@
            == "Could not find any documents"@),
{
    if docs.len() == 0 {
        let m = copy_string("Could not find any documents");
        if search {
            Err(BridgeError::RecordSearchError(m))
        } else {
            Err(BridgeError::GeneralError(m))
        }
    } else {
        Ok(docs)
    }
}

/// The collections the bridge keeps its records in.
pub const COLLECTIONS: [&'static str; 4] = [USER, GROUP, LOCKS, APPS];

/// The names of `names` that are not among `existing`, in order.
pub open spec fn missing_from(names: Seq<&'static str>, existing: Seq<Seq<char>>) -> Seq<&'static str>
    decreases names.len(),
{
    if names.len() == 0 {
        Seq::empty()
    } else {
        let rest = missing_from(names.drop_last(), existing);
        if existing.contains(names.last()@) {
            rest
        } else {
            rest.push(names.last())
        }
    }
}

fn listed(existing: &Vec<String>, name: &str) -> (r: bool)
    ensures
        r == views(existing@).contains(name@),
{
    let mut i: usize = 0;
    while i < existing.len()
        invariant
            i <= existing@.len(),
            forall|j: int| 0 <= j < i ==> views(existing@)[j] != name@,
        decreases existing@.len() - i,
    {
        if str_eq(existing[i].as_str(), name) {
            assert(views(existing@)[i as int] == name@);
            return true;
        }
        i = i + 1;
    }
    false
}

/// The collections to create at start-up: those the database does not
/// list yet.
pub fn collections_to_create(existing: &Vec<String>) -> (r: Vec<&'static str>)
    ensures
        r@ == missing_from(COLLECTIONS@, views(existing@)),
{
    let ghost ev = views(existing@);
    let mut out: Vec<&'static str> = Vec::new();
    let mut i: usize = 0;
    while i < 4
        invariant
            i <= 4,
            ev == views(existing@),
            out@ == missing_from(COLLECTIONS@.take(i as int), ev),
        decreases 4 - i,
    {
        let c = COLLECTIONS[i];
        assert(COLLECTIONS@.take(i + 1).drop_last() =~= COLLECTIONS@.take(i as int));
        if !listed(existing, c) {
            out.push(c);
        }
        i = i + 1;
    }
    assert(COLLECTIONS@.take(4) =~= COLLECTIONS@);
    out
}

} // verus!
