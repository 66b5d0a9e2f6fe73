use vstd::prelude::*;

verus! {

/// Publication state of a page.
#[derive(Debug, Clone, Copy, PartialEq, Eq, Structural)]
pub enum CmsPageStatus {
    Draft,
    Published,
}

impl CmsPageStatus {
    /// The text under which a status is stored and shown.
    pub open spec fn spec_text(self) -> Seq<char> {
        match self {
            CmsPageStatus::Draft => "draft"@,
            CmsPageStatus::Published => "published"@,
        }
    }

    /// Every status, in the order they are offered.
    pub fn all_statuses() -> (r: Vec<CmsPageStatus>)
        ensures
            r@ == seq![CmsPageStatus::Draft, CmsPageStatus::Published],
    {
        vec![CmsPageStatus::Draft, CmsPageStatus::Published]
    }

    /// The status stored under the given text, if any.
    pub fn try_from_text(s: &String) -> (r: Option<CmsPageStatus>)
        ensures
            r == (if s@ == CmsPageStatus::Draft.spec_text() {
                Some(CmsPageStatus::Draft)
            } else if s@ == CmsPageStatus::Published.spec_text() {
                Some(CmsPageStatus::Published)
            } else {
                None::<CmsPageStatus>
            }),
    {
        if *s == "draft".to_string() {
            Some(CmsPageStatus::Draft)
        } else if *s == "published".to_string() {
            Some(CmsPageStatus::Published)
        } else {
            None
        }
    }

    /// The stored text of this status.
    pub fn as_stringed(&self) -> (r: String)
        ensures
            r@ == self.spec_text(),
    {
        match self {
            CmsPageStatus::Draft => "draft".to_string(),
            CmsPageStatus::Published => "published".to_string(),
        }
    }
}

impl Default for CmsPageStatus {
    /// A new page starts as a draft.
    fn default() -> (r: Self)
        ensures
            r == CmsPageStatus::Draft,
    {
        CmsPageStatus::Draft
    }
}

} // verus!
