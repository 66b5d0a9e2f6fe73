use vstd::prelude::*;

verus! {

/// A request to add a component of one kind to a page.
#[derive(Debug, Clone)]
pub struct CreateQuery {
    pub kind_uuid: String,
    pub page_id: u64,
}

impl CreateQuery {
    pub fn new(kind_uuid: String, page_id: u64) -> (r: Self)
        ensures
            r.kind_uuid@ == kind_uuid@,
            r.page_id == page_id,
    {
        CreateQuery { kind_uuid, page_id }
    }
}

/// A reference to one stored component, used to fetch or update it.
#[derive(Debug, Clone)]
pub struct UpdateFetchQuery {
    pub kind_uuid: String,
    pub id: u64,
}

impl UpdateFetchQuery {
    pub fn new(kind_uuid: String, id: u64) -> (r: Self)
        ensures
            r.kind_uuid@ == kind_uuid@,
            r.id == id,
    {
        UpdateFetchQuery { kind_uuid, id }
    }
}

/// The kind identifier that a request was routed under.
#[derive(Debug, Clone)]
pub struct KindUuid(pub String);

/// The identifier carried by a delete request's header.
#[derive(Debug, Clone, Copy, PartialEq, Eq, Structural)]
pub struct HeaderId(pub u64);

} // verus!
