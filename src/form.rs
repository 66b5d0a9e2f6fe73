use crate::status::CmsPageStatus;
use vstd::prelude::*;

verus! {

/// Input of the page creation form.
#[derive(Debug, Clone, Default)]
pub struct AddPageForm {
    pub title: String,
}

/// Field messages for a rejected page creation form.
#[derive(Debug, Clone, Default)]
pub struct AddPageFormMessage {
    pub title: Vec<String>,
}

/// Input of the page amendment form.
#[derive(Debug, Clone)]
pub struct AmendPageForm {
    pub title: String,
    pub summary: String,
    pub status: CmsPageStatus,
}

/// Field messages for a rejected page amendment form.
#[derive(Debug, Clone, Default)]
pub struct AmendPageFormMessage {
    pub title: Vec<String>,
    pub summary: Vec<String>,
}

/// Input of the form shared by kinds that only carry a label.
#[derive(Debug, Clone, Default)]
pub struct CommonLabelForm {
    pub label: String,
}

/// Field messages for a rejected label form.
#[derive(Debug, Clone, Default)]
pub struct CommonFormMessage {
    pub label: Vec<String>,
}

/// Input of the markdown component form.
#[derive(Debug, Clone, Default)]
pub struct MarkdownForm {
    pub label: String,
    pub markdown: String,
}

/// Field messages for a rejected markdown form.
#[derive(Debug, Clone, Default)]
pub struct MarkdownFormMessage {
    pub label: Vec<String>,
    pub markdown: Vec<String>,
}

/// New positions for components of one page, as pairs of component id and position.
#[derive(Debug, Clone, Default)]
pub struct ComponentPositionForm {
    pub mapping: Vec<(i64, i64)>,
}

} // verus!
