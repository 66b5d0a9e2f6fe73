use crate::component::{CmsComponentInfo, ComponentDataMarker, MarkdownComponent, MarkdownView};
use crate::data_model::{CreateComponentModel, FetchComponentModel, UpdateComponentModel};
use crate::form::MarkdownForm;
use crate::query::{CreateQuery, UpdateFetchQuery};
use crate::repository::{appended_component, find_component, relabelled_component, CmsRepository};
use vstd::prelude::*;

verus! {

/// Failures of the markdown component operations.
#[derive(Debug, Clone, Copy, PartialEq, Eq, Structural)]
pub enum MarkdownComponentServiceError {
    DbError,
    NotFound,
    /// The stored bytes are not a markdown payload.
    CodecError,
}

/// The payload stored for a markdown text: the text is both source and rendered form.
pub open spec fn markdown_payload(markdown: Seq<char>) -> Seq<u8> {
    MarkdownComponent::encoded(MarkdownView { content: markdown, parse_html: markdown })
}

/// Create, fetch and update for markdown components.
#[derive(Debug, Clone)]
pub struct MarkdownComponentService {
    pub cms_component_info: CmsComponentInfo,
}

impl MarkdownComponentService {
    pub fn new(cms_component_info: CmsComponentInfo) -> (r: Self)
        ensures
            r.cms_component_info == cms_component_info,
    {
        MarkdownComponentService { cms_component_info }
    }

    /// Stores a new markdown component on the query's page and returns its reference.
    pub fn create_component(
        &self,
        repo: &mut CmsRepository,
        query: &CreateQuery,
        markdown_form: &MarkdownForm,
    ) -> (r: Result<UpdateFetchQuery, MarkdownComponentServiceError>)
        requires
            old(repo).wf(),
        ensures
            final(repo).wf(),
            final(repo).page_rows() == old(repo).page_rows(),
            final(repo).attachment_rows() == old(repo).attachment_rows(),
            r is Err ==> *final(repo) == *old(repo),
            query.page_id > i64::MAX ==> r == Err::<UpdateFetchQuery, _>(
                MarkdownComponentServiceError::NotFound,
            ),
            query.page_id <= i64::MAX ==> (r is Err <==> old(repo).spec_next_component_id()
                == i64::MAX),
            query.page_id <= i64::MAX && r is Err ==> r == Err::<UpdateFetchQuery, _>(
                MarkdownComponentServiceError::DbError,
            ),
            r is Ok ==> r->Ok_0.id == old(repo).spec_next_component_id() && r->Ok_0.kind_uuid@
                == self.cms_component_info.kind_uuid@ && appended_component(
                old(repo).component_rows(),
                final(repo).component_rows(),
                old(repo).spec_next_component_id(),
                query.page_id as i64,
                self.cms_component_info.kind_uuid@,
                markdown_form.label@,
                markdown_payload(markdown_form.markdown@),
            ),
    {
        if query.page_id > i64::MAX as u64 {
            return Err(MarkdownComponentServiceError::NotFound);
        }
        let payload = MarkdownComponent {
            content: markdown_form.markdown.clone(),
            parse_html: markdown_form.markdown.clone(),
        };
        let raw_data = payload.into_data();
        let model = CreateComponentModel {
            page_id: query.page_id as i64,
            kind_uuid: self.cms_component_info.kind_uuid.clone(),
            raw_data,
            label: markdown_form.label.clone(),
        };
        match repo.create_component(model) {
            Ok(id) => {
                proof {
                    assert(repo.component_rows().drop_last() =~= old(repo).component_rows());
                }
                Ok(UpdateFetchQuery::new(self.cms_component_info.kind_uuid.clone(), id.0 as u64))
            },
            Err(_) => Err(MarkdownComponentServiceError::DbError),
        }
    }

    /// The label, position and decoded payload of the referenced component.
    pub fn fetch_component(&self, repo: &CmsRepository, query: &UpdateFetchQuery) -> (r: Result<
        FetchComponentModel<MarkdownComponent>,
        MarkdownComponentServiceError,
    >)
        ensures
            query.id > i64::MAX ==> r == Err::<FetchComponentModel<MarkdownComponent>, _>(
                MarkdownComponentServiceError::NotFound,
            ),
            query.id <= i64::MAX ==> match find_component(repo.component_rows(), query.id as i64) {
                None => r == Err::<FetchComponentModel<MarkdownComponent>, _>(
                    MarkdownComponentServiceError::NotFound,
                ),
                Some(c) => {
                    &&& r is Err ==> r == Err::<FetchComponentModel<MarkdownComponent>, _>(
                        MarkdownComponentServiceError::CodecError,
                    )
                    &&& r is Ok ==> r->Ok_0.label@ == c.label@ && r->Ok_0.position == c.position
                    &&& forall|v: MarkdownView|
                        MarkdownComponent::round_trips(v) && #[trigger] MarkdownComponent::encoded(v)
                            == c.raw_data@ ==> r is Ok
                            && r->Ok_0.raw_data@ == v
                },
            },
    {
        if query.id > i64::MAX as u64 {
            return Err(MarkdownComponentServiceError::NotFound);
        }
        let component_data = match repo.fetch_component(query.id as i64) {
            Ok(Some(c)) => c,
            Ok(None) => {
                return Err(MarkdownComponentServiceError::NotFound);
            },
            Err(_) => {
                return Err(MarkdownComponentServiceError::DbError);
            },
        };
        match MarkdownComponent::from_data(&component_data.raw_data) {
            Ok(raw_data) => Ok(
                FetchComponentModel {
                    label: component_data.label,
                    position: component_data.position,
                    raw_data,
                },
            ),
            Err(_) => Err(MarkdownComponentServiceError::CodecError),
        }
    }

    /// Stores a new label and markdown text on the referenced component.
    pub fn update_component(
        &self,
        repo: &mut CmsRepository,
        query: &UpdateFetchQuery,
        form: &MarkdownForm,
    ) -> (r: Result<(), MarkdownComponentServiceError>)
        requires
            old(repo).wf(),
        ensures
            final(repo).wf(),
            final(repo).page_rows() == old(repo).page_rows(),
            final(repo).attachment_rows() == old(repo).attachment_rows(),
            r is Err ==> *final(repo) == *old(repo),
            query.id > i64::MAX ==> r == Err::<(), _>(MarkdownComponentServiceError::NotFound),
            query.id <= i64::MAX ==> r is Ok && relabelled_component(
                old(repo).component_rows(),
                final(repo).component_rows(),
                query.id as i64,
                form.label@,
                markdown_payload(form.markdown@),
            ),
    {
        if query.id > i64::MAX as u64 {
            return Err(MarkdownComponentServiceError::NotFound);
        }
        let payload = MarkdownComponent {
            content: form.markdown.clone(),
            parse_html: form.markdown.clone(),
        };
        let raw_data = payload.into_data();
        let model = UpdateComponentModel { id: query.id as i64, label: form.label.clone(), raw_data };
        let ghost m = model;
        match repo.update_component(model) {
            Ok(()) => {
                proof {
                    assert(relabelled_component(
                        old(repo).component_rows(),
                        repo.component_rows(),
                        query.id as i64,
                        form.label@,
                        markdown_payload(form.markdown@),
                    )) by {
                        assert(m.label@ == form.label@);
                    }
                }
                Ok(())
            },
            Err(_) => Err(MarkdownComponentServiceError::DbError),
        }
    }
}

} // verus!
