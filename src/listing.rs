//! The list of installed drivers, from the platform's configuration store.
//!
//! The host program reads the store: the vendor-support key with, for each of
//! its child keys in enumeration order, the three values `Name`, `Vendor` and
//! `FunctionLibrary`. This module decides what the listing is.
use vstd::prelude::*;

verus! {

/// A failure of the configuration store.
#[derive(Copy, Clone, Debug, PartialEq, Eq, Structural)]
pub enum StoreError {
    /// The key or value does not exist.
    NotFound,
    /// Any other failure, with the platform's error code.
    Other(i32),
}

/// What was read from one child key of the vendor-support key.
#[derive(Debug)]
pub struct StoreEntry {
    pub name: Result<String, StoreError>,
    pub vendor: Result<String, StoreError>,
    pub path: Result<String, StoreError>,
}

/// An installed driver: its name, its vendor and the path of its module.
#[derive(Clone, Debug)]
pub struct Listing {
    pub name: String,
    pub vendor: String,
    pub path: String,
}

/// The first failure in reading a child key, if any: the key itself, then
/// its values in the order name, vendor, path.
pub open spec fn entry_error(c: Result<StoreEntry, StoreError>) -> Option<StoreError> {
    match c {
        Err(e) => Some(e),
        Ok(en) => if en.name is Err {
            Some(en.name->Err_0)
        } else if en.vendor is Err {
            Some(en.vendor->Err_0)
        } else if en.path is Err {
            Some(en.path->Err_0)
        } else {
            None
        },
    }
}

/// `l` holds exactly the three values read from `c`.
pub open spec fn listing_of(l: Listing, c: Result<StoreEntry, StoreError>) -> bool {
    &&& c is Ok
    &&& c->Ok_0.name == Ok::<String, StoreError>(l.name)
    &&& c->Ok_0.vendor == Ok::<String, StoreError>(l.vendor)
    &&& c->Ok_0.path == Ok::<String, StoreError>(l.path)
}

/// The driver listing. `support` is the vendor-support key as read: its
/// absence gives an empty listing; any other failure is returned; else the
/// child keys, each of which must hold all three values. One child that does
/// not fails the whole listing with the first such failure.
pub fn list(support: Result<Vec<Result<StoreEntry, StoreError>>, StoreError>) -> (r: Result<
    Vec<Listing>,
    StoreError,
>)
    ensures
        support == Err::<Vec<Result<StoreEntry, StoreError>>, StoreError>(StoreError::NotFound)
            ==> (r matches Ok(v) && v@.len() == 0),
        support is Err && support->Err_0 != StoreError::NotFound ==> r == Err::<
            Vec<Listing>,
            StoreError,
        >(support->Err_0),
        support matches Ok(children) ==> {
            &&& (r is Ok <==> forall|i: int|
                0 <= i < children@.len() ==> entry_error(#[trigger] children@[i]) is None)
            &&& (r matches Ok(v) ==> v@.len() == children@.len() && forall|i: int|
                0 <= i < v@.len() ==> listing_of(#[trigger] v@[i], children@[i]))
            &&& (r matches Err(e) ==> exists|i: int|
                0 <= i < children@.len() && entry_error(#[trigger] children@[i]) == Some(e)
                    && forall|j: int| 0 <= j < i ==> entry_error(#[trigger] children@[j]) is None)
        },
{
    let mut children = match support {
        Ok(c) => c,
        Err(StoreError::NotFound) => return Ok(Vec::new()),
        Err(e) => return Err(e),
    };
    let ghost all = children@;
    let mut listings: Vec<Listing> = Vec::new();
    while children.len() > 0
        invariant
            support is Ok,
            support->Ok_0@ == all,
            listings@.len() + children@.len() == all.len(),
            children@ == all.subrange(listings@.len() as int, all.len() as int),
            forall|j: int| 0 <= j < listings@.len() ==> entry_error(#[trigger] all[j]) is None,
            forall|j: int| 0 <= j < listings@.len() ==> listing_of(#[trigger] listings@[j], all[j]),
        decreases children@.len(),
    {
        let ghost at = listings@.len() as int;
        let child = children.remove(0);
        assert(child == all[at]);
        let StoreEntry { name, vendor, path } = match child {
            Ok(en) => en,
            Err(e) => return Err(e),
        };
        let name = match name {
            Ok(s) => s,
            Err(e) => return Err(e),
        };
        let vendor = match vendor {
            Ok(s) => s,
            Err(e) => return Err(e),
        };
        let path = match path {
            Ok(s) => s,
            Err(e) => return Err(e),
        };
        listings.push(Listing { name, vendor, path });
        assert(children@ =~= all.subrange(listings@.len() as int, all.len() as int));
    }
    Ok(listings)
}

} // verus!
