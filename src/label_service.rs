use crate::component::{CmsComponentInfo, ComponentDataMarker, FileAttachmentsComponent};
use crate::data_model::{CreateComponentModel, FetchComponentModel, UpdateComponentModel};
use crate::form::CommonLabelForm;
use crate::query::{CreateQuery, UpdateFetchQuery};
use crate::repository::{appended_component, find_component, relabelled_component, CmsRepository};
use vstd::prelude::*;

verus! {

/// Failures of the operations on kinds that carry only a label.
#[derive(Debug, Clone, Copy, PartialEq, Eq, Structural)]
pub enum CommonLabelServiceError {
    DbError,
    NotFound,
}

/// Create, fetch and update for kinds whose payload is empty, such as file attachments.
#[derive(Debug, Clone)]
pub struct CommonLabelService {
    pub cms_component_info: CmsComponentInfo,
}

impl CommonLabelService {
    pub fn new(cms_component_info: CmsComponentInfo) -> (r: Self)
        ensures
            r.cms_component_info == cms_component_info,
    {
        CommonLabelService { cms_component_info }
    }

    /// Stores a new component with an empty payload on the query's page.
    pub fn create_component(
        &self,
        repo: &mut CmsRepository,
        query: &CreateQuery,
        form: &CommonLabelForm,
    ) -> (r: Result<UpdateFetchQuery, CommonLabelServiceError>)
        requires
            old(repo).wf(),
        ensures
            final(repo).wf(),
            final(repo).page_rows() == old(repo).page_rows(),
            final(repo).attachment_rows() == old(repo).attachment_rows(),
            r is Err ==> *final(repo) == *old(repo),
            query.page_id > i64::MAX ==> r == Err::<UpdateFetchQuery, _>(
                CommonLabelServiceError::NotFound,
            ),
            query.page_id <= i64::MAX ==> (r is Err <==> old(repo).spec_next_component_id()
                == i64::MAX),
            r is Ok ==> r->Ok_0.id == old(repo).spec_next_component_id() && r->Ok_0.kind_uuid@
                == self.cms_component_info.kind_uuid@ && appended_component(
                old(repo).component_rows(),
                final(repo).component_rows(),
                old(repo).spec_next_component_id(),
                query.page_id as i64,
                self.cms_component_info.kind_uuid@,
                form.label@,
                Seq::empty(),
            ),
    {
        if query.page_id > i64::MAX as u64 {
            return Err(CommonLabelServiceError::NotFound);
        }
        let raw_data = FileAttachmentsComponent.into_data();
        let model = CreateComponentModel {
            page_id: query.page_id as i64,
            kind_uuid: self.cms_component_info.kind_uuid.clone(),
            raw_data,
            label: form.label.clone(),
        };
        match repo.create_component(model) {
            Ok(id) => {
                proof {
                    assert(repo.component_rows().drop_last() =~= old(repo).component_rows());
                }
                Ok(UpdateFetchQuery::new(self.cms_component_info.kind_uuid.clone(), id.0 as u64))
            },
            Err(_) => Err(CommonLabelServiceError::DbError),
        }
    }

    /// The label and position of the referenced component.
    pub fn fetch_component(&self, repo: &CmsRepository, query: &UpdateFetchQuery) -> (r: Result<
        FetchComponentModel<FileAttachmentsComponent>,
        CommonLabelServiceError,
    >)
        ensures
            query.id > i64::MAX ==> r is Err,
            query.id <= i64::MAX ==> match find_component(repo.component_rows(), query.id as i64) {
                None => r is Err,
                Some(c) => r is Ok && r->Ok_0.label@ == c.label@ && r->Ok_0.position == c.position,
            },
            r is Err ==> r == Err::<FetchComponentModel<FileAttachmentsComponent>, _>(
                CommonLabelServiceError::NotFound,
            ),
    {
        if query.id > i64::MAX as u64 {
            return Err(CommonLabelServiceError::NotFound);
        }
        match repo.fetch_component(query.id as i64) {
            Ok(Some(c)) => Ok(
                FetchComponentModel {
                    label: c.label,
                    position: c.position,
                    raw_data: FileAttachmentsComponent,
                },
            ),
            Ok(None) => Err(CommonLabelServiceError::NotFound),
            Err(_) => Err(CommonLabelServiceError::DbError),
        }
    }

    /// Stores a new label, with an empty payload, on the referenced component.
    pub fn update_component(
        &self,
        repo: &mut CmsRepository,
        query: &UpdateFetchQuery,
        form: &CommonLabelForm,
    ) -> (r: Result<(), CommonLabelServiceError>)
        requires
            old(repo).wf(),
        ensures
            final(repo).wf(),
            final(repo).page_rows() == old(repo).page_rows(),
            final(repo).attachment_rows() == old(repo).attachment_rows(),
            query.id > i64::MAX ==> r == Err::<(), _>(CommonLabelServiceError::NotFound),
            query.id > i64::MAX ==> *final(repo) == *old(repo),
            query.id <= i64::MAX ==> r is Ok && relabelled_component(
                old(repo).component_rows(),
                final(repo).component_rows(),
                query.id as i64,
                form.label@,
                Seq::empty(),
            ),
    {
        if query.id > i64::MAX as u64 {
            return Err(CommonLabelServiceError::NotFound);
        }
        let raw_data = FileAttachmentsComponent.into_data();
        let model = UpdateComponentModel { id: query.id as i64, label: form.label.clone(), raw_data };
        let ghost m = model;
        match repo.update_component(model) {
            Ok(()) => {
                proof {
                    assert(relabelled_component(
                        old(repo).component_rows(),
                        repo.component_rows(),
                        query.id as i64,
                        form.label@,
                        Seq::empty(),
                    )) by {
                        assert(m.raw_data@ =~= Seq::<u8>::empty());
                    }
                }
                Ok(())
            },
            Err(_) => Err(CommonLabelServiceError::DbError),
        }
    }
}

} // verus!
