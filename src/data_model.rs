use crate::query::UpdateFetchQuery;
use crate::status::CmsPageStatus;
use vstd::prelude::*;

verus! {

/// The identifier given to a newly stored row.
#[derive(Debug, Clone, Copy, PartialEq, Eq, Structural)]
pub struct ReturningIdModel(pub i64);

/// The identifier of a user, as stored with a page.
#[derive(Debug, Clone, Copy, PartialEq, Eq, Structural)]
pub struct UserIdModel(pub i64);

/// A page to be stored.
#[derive(Debug, Clone)]
pub struct AddPageModel {
    pub user_id: i64,
    pub title: String,
    pub summary: String,
    pub status: CmsPageStatus,
}

/// A component to be stored, with its payload already encoded.
#[derive(Debug, Clone)]
pub struct CreateComponentModel {
    pub page_id: i64,
    pub kind_uuid: String,
    pub raw_data: Vec<u8>,
    pub label: String,
}

/// A stored component's label, position and payload (raw bytes or decoded).
#[derive(Debug, Clone)]
pub struct FetchComponentModel<T> {
    pub label: String,
    pub position: i64,
    pub raw_data: T,
}

/// A stored page's editable fields.
#[derive(Debug, Clone)]
pub struct FetchPageModel {
    pub id: i64,
    pub title: String,
    pub summary: String,
    pub status: CmsPageStatus,
}

/// One entry of a page's component listing.
#[derive(Debug, Clone)]
pub struct ListComponentModel {
    pub id: i64,
    pub kind_uuid: String,
    pub position: i64,
    pub label: String,
}

impl ListComponentModel {
    /// The fetch/update reference of this component.
    pub fn as_query(&self) -> (r: UpdateFetchQuery)
        ensures
            r.kind_uuid@ == self.kind_uuid@,
            r.id == self.id as u64,
            self.id >= 0 ==> r.id == self.id,
    {
        UpdateFetchQuery::new(self.kind_uuid.clone(), self.id as u64)
    }
}

/// One entry of the page listing; times are seconds since the Unix epoch.
#[derive(Debug, Clone)]
pub struct ListPageModel {
    pub id: i64,
    pub user_id: i64,
    pub title: String,
    pub added: i64,
    pub updated: Option<i64>,
    pub status: CmsPageStatus,
}

/// A new label and encoded payload for a stored component.
#[derive(Debug, Clone)]
pub struct UpdateComponentModel {
    pub id: i64,
    pub label: String,
    pub raw_data: Vec<u8>,
}

/// A new position for a component, scoped to the page it must belong to.
#[derive(Debug, Clone, Copy, PartialEq, Eq, Structural)]
pub struct UpdateComponentPositionModel {
    pub id: i64,
    pub position: i64,
    pub page_id: i64,
}

/// New editable fields for a stored page.
#[derive(Debug, Clone)]
pub struct UpdatePageModel {
    pub id: i64,
    pub title: String,
    pub summary: String,
    pub status: CmsPageStatus,
}

/// A file attachment to be stored; the file itself is already written.
#[derive(Debug, Clone)]
pub struct AddFileAttachmentModel {
    pub component_id: i64,
    pub file_name: String,
    pub file_path: String,
    pub file_type: String,
}

/// One entry of a component's attachment listing; `uploaded` is seconds since the Unix epoch.
#[derive(Debug, Clone)]
pub struct ListFileAttachmentModel {
    pub id: i64,
    pub file_name: String,
    pub file_path: String,
    pub file_type: String,
    pub uploaded: i64,
}

/// Where a stored attachment's file lies, relative to the upload root.
#[derive(Debug, Clone)]
pub struct FilePath(pub String);

} // verus!
