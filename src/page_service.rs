use crate::data_model::{
    AddPageModel, FetchPageModel, ListComponentModel, ListPageModel, ReturningIdModel,
    UpdateComponentPositionModel, UpdatePageModel,
};
use crate::form::{AddPageForm, AmendPageForm, ComponentPositionForm};
use crate::permission::UserPointer;
use crate::repository::{
    component_other_than, find_page, lists_page, listed_in, shows_component_of, sorted_listing,
    with_page_fields, with_position, CmsRepository, ComponentRow,
};
use crate::status::CmsPageStatus;
use vstd::prelude::*;

verus! {

/// Failures of page-level operations.
#[derive(Debug, Clone, Copy, PartialEq, Eq, Structural)]
pub enum CmsPageServiceError {
    DbError,
    NotFoundError,
}

/// The components after each (component id, position) pair is applied in turn to the
/// components of the given page.
pub open spec fn apply_positions(
    rows: Seq<ComponentRow>,
    page_id: i64,
    mapping: Seq<(i64, i64)>,
) -> Seq<ComponentRow>
    decreases mapping.len(),
{
    if mapping.len() == 0 {
        rows
    } else {
        with_position(
            apply_positions(rows, page_id, mapping.drop_last()),
            mapping.last().0,
            page_id,
            mapping.last().1,
        )
    }
}

/// Reordering touches positions only, and only of components of the page that a pair names:
/// components of other pages, and components that no pair names, keep their position.
pub proof fn lemma_positions_scoped(rows: Seq<ComponentRow>, page_id: i64, mapping: Seq<(i64, i64)>)
    ensures
        apply_positions(rows, page_id, mapping).len() == rows.len(),
        forall|i: int|
            0 <= i < rows.len() ==> {
                let after = #[trigger] apply_positions(rows, page_id, mapping)[i];
                &&& after.id == rows[i].id
                &&& after.page_id == rows[i].page_id
                &&& after.kind_uuid == rows[i].kind_uuid
                &&& after.label == rows[i].label
                &&& after.raw_data == rows[i].raw_data
                &&& (rows[i].page_id != page_id || (forall|k: int|
                    0 <= k < mapping.len() ==> (#[trigger] mapping[k]).0 != rows[i].id)) ==> after
                    == rows[i]
            },
    decreases mapping.len(),
{
    if mapping.len() > 0 {
        let prefix = mapping.drop_last();
        lemma_positions_scoped(rows, page_id, prefix);
        assert forall|i: int| 0 <= i < rows.len() implies {
            let after = #[trigger] apply_positions(rows, page_id, mapping)[i];
            &&& after.id == rows[i].id
            &&& after.page_id == rows[i].page_id
            &&& after.kind_uuid == rows[i].kind_uuid
            &&& after.label == rows[i].label
            &&& after.raw_data == rows[i].raw_data
            &&& (rows[i].page_id != page_id || (forall|k: int|
                0 <= k < mapping.len() ==> (#[trigger] mapping[k]).0 != rows[i].id)) ==> after
                == rows[i]
        } by {
            let before = apply_positions(rows, page_id, prefix)[i];
            if rows[i].page_id != page_id || (forall|k: int|
                0 <= k < mapping.len() ==> (#[trigger] mapping[k]).0 != rows[i].id) {
                if rows[i].page_id == page_id {
                    assert forall|k: int| 0 <= k < prefix.len() implies (#[trigger] prefix[k]).0
                        != rows[i].id by {
                        assert(prefix[k] == mapping[k]);
                    }
                    assert(mapping[mapping.len() - 1].0 != rows[i].id);
                }
            }
        }
    }
}

/// The position that the last pair naming the component gives it, if a pair names it.
pub open spec fn last_position_for(mapping: Seq<(i64, i64)>, id: i64) -> Option<i64>
    decreases mapping.len(),
{
    if mapping.len() == 0 {
        None
    } else if mapping.last().0 == id {
        Some(mapping.last().1)
    } else {
        last_position_for(mapping.drop_last(), id)
    }
}

/// After reordering, a component of the page that some pair names stands at the position of
/// the last such pair; every other component keeps its position.
pub proof fn lemma_positions_applied(rows: Seq<ComponentRow>, page_id: i64, mapping: Seq<(i64, i64)>)
    ensures
        apply_positions(rows, page_id, mapping).len() == rows.len(),
        forall|i: int|
            0 <= i < rows.len() ==> (#[trigger] apply_positions(rows, page_id, mapping)[i]).position
                == if rows[i].page_id == page_id {
                match last_position_for(mapping, rows[i].id) {
                    Some(p) => p,
                    None => rows[i].position,
                }
            } else {
                rows[i].position
            },
    decreases mapping.len(),
{
    lemma_positions_scoped(rows, page_id, mapping);
    if mapping.len() > 0 {
        lemma_positions_applied(rows, page_id, mapping.drop_last());
        lemma_positions_scoped(rows, page_id, mapping.drop_last());
    }
}

/// Page-level operations for the acting user.
#[derive(Debug, Clone, Copy)]
pub struct CmsPageService {
    pub user_pointer: UserPointer,
}

impl CmsPageService {
    pub fn new(user_pointer: UserPointer) -> (r: Self)
        ensures
            r.user_pointer == user_pointer,
    {
        CmsPageService { user_pointer }
    }

    /// Stores a new draft page with an empty summary, written by the acting user at `now`.
    pub fn add_page(&self, repo: &mut CmsRepository, form: &AddPageForm, now: i64) -> (r: Result<
        ReturningIdModel,
        CmsPageServiceError,
    >)
        requires
            old(repo).wf(),
        ensures
            final(repo).wf(),
            final(repo).component_rows() == old(repo).component_rows(),
            final(repo).attachment_rows() == old(repo).attachment_rows(),
            r is Err <==> old(repo).spec_next_page_id() == i64::MAX,
            r is Err ==> r == Err::<ReturningIdModel, _>(CmsPageServiceError::DbError),
            r is Err ==> *final(repo) == *old(repo),
            r is Ok ==> ({
                let p = final(repo).page_rows().last();
                &&& final(repo).page_rows().drop_last() == old(repo).page_rows()
                &&& final(repo).page_rows().len() == old(repo).page_rows().len() + 1
                &&& r->Ok_0.0 == p.id
                &&& p.id == old(repo).spec_next_page_id()
                &&& p.user_id == self.user_pointer.id
                &&& p.title@ == form.title@
                &&& p.summary@.len() == 0
                &&& p.status == CmsPageStatus::Draft
                &&& p.added == now
                &&& p.updated is None
            }),
    {
        let model = AddPageModel {
            user_id: self.user_pointer.id,
            title: form.title.clone(),
            summary: String::new(),
            status: CmsPageStatus::Draft,
        };
        match repo.add_page(model, now) {
            Ok(id) => {
                proof {
                    assert(repo.page_rows().drop_last() =~= old(repo).page_rows());
                }
                Ok(id)
            },
            Err(_) => Err(CmsPageServiceError::DbError),
        }
    }

    /// The editable fields of a page, or `NotFoundError` when there is no such page.
    pub fn fetch_page(&self, repo: &CmsRepository, page_id: i64) -> (r: Result<
        FetchPageModel,
        CmsPageServiceError,
    >)
        ensures
            match find_page(repo.page_rows(), page_id) {
                Some(p) => r matches Ok(m) && m.id == p.id && m.title@ == p.title@ && m.summary@
                    == p.summary@ && m.status == p.status,
                None => r == Err::<FetchPageModel, _>(CmsPageServiceError::NotFoundError),
            },
    {
        match repo.fetch_page(page_id) {
            Ok(Some(m)) => Ok(m),
            Ok(None) => Err(CmsPageServiceError::NotFoundError),
            Err(_) => Err(CmsPageServiceError::DbError),
        }
    }

    /// Every page, in the order they were stored.
    pub fn list_page(&self, repo: &CmsRepository) -> (r: Result<Vec<ListPageModel>, CmsPageServiceError>)
        ensures
            r is Ok,
            r->Ok_0@.len() == repo.page_rows().len(),
            forall|m: int|
                0 <= m < r->Ok_0@.len() ==> lists_page(#[trigger] r->Ok_0@[m], repo.page_rows()[m]),
    {
        match repo.list_page() {
            Ok(pages) => Ok(pages),
            Err(_) => Err(CmsPageServiceError::DbError),
        }
    }

    /// Sets the title, summary and status of a page, updated at `now`.
    pub fn update_page(
        &self,
        repo: &mut CmsRepository,
        page_id: i64,
        form: &AmendPageForm,
        now: i64,
    ) -> (r: Result<(), CmsPageServiceError>)
        requires
            old(repo).wf(),
        ensures
            r is Ok,
            final(repo).wf(),
            final(repo).component_rows() == old(repo).component_rows(),
            final(repo).attachment_rows() == old(repo).attachment_rows(),
            exists|m: UpdatePageModel|
                m.id == page_id && m.title@ == form.title@ && m.summary@ == form.summary@
                    && m.status == form.status && final(repo).page_rows() == with_page_fields(
                    old(repo).page_rows(),
                    m,
                    now,
                ),
    {
        let model = UpdatePageModel {
            id: page_id,
            title: form.title.clone(),
            summary: form.summary.clone(),
            status: form.status,
        };
        let ghost m = model;
        match repo.update_page(model, now) {
            Ok(()) => Ok(()),
            Err(_) => Err(CmsPageServiceError::DbError),
        }
    }

    /// Gives each listed component of the page its new position, pair by pair; a pair whose
    /// component is not on the page changes nothing.
    pub fn update_component_position(
        &self,
        repo: &mut CmsRepository,
        component_position_form: &ComponentPositionForm,
        page_id: i64,
    ) -> (r: Result<(), CmsPageServiceError>)
        requires
            old(repo).wf(),
        ensures
            r is Ok,
            final(repo).wf(),
            final(repo).component_rows() == apply_positions(
                old(repo).component_rows(),
                page_id,
                component_position_form.mapping@,
            ),
            final(repo).page_rows() == old(repo).page_rows(),
            final(repo).attachment_rows() == old(repo).attachment_rows(),
            final(repo).spec_next_component_id() == old(repo).spec_next_component_id(),
    {
        let ghost mapping = component_position_form.mapping@;
        let mut i: usize = 0;
        proof {
            assert(mapping.subrange(0, 0) =~= Seq::<(i64, i64)>::empty());
        }
        while i < component_position_form.mapping.len()
            invariant
                i <= mapping.len(),
                mapping == component_position_form.mapping@,
                repo.wf(),
                repo.component_rows() == apply_positions(
                    old(repo).component_rows(),
                    page_id,
                    mapping.subrange(0, i as int),
                ),
                repo.page_rows() == old(repo).page_rows(),
                repo.attachment_rows() == old(repo).attachment_rows(),
                repo.spec_next_component_id() == old(repo).spec_next_component_id(),
            decreases mapping.len() - i,
        {
            let (component_id, position) = component_position_form.mapping[i];
            proof {
                assert(mapping.subrange(0, i + 1).drop_last() =~= mapping.subrange(0, i as int));
            }
            match repo.update_component_position(
                UpdateComponentPositionModel { id: component_id, position, page_id },
            ) {
                Ok(()) => {},
                Err(_) => {
                    return Err(CmsPageServiceError::DbError);
                },
            }
            i = i + 1;
        }
        proof {
            assert(mapping.subrange(0, mapping.len() as int) =~= mapping);
        }
        Ok(())
    }

    /// Removes the component row; its attachments must be removed before.
    pub fn delete_component(&self, repo: &mut CmsRepository, component_id: i64) -> (r: Result<
        (),
        CmsPageServiceError,
    >)
        requires
            old(repo).wf(),
        ensures
            r is Ok,
            final(repo).wf(),
            final(repo).component_rows() == old(repo).component_rows().filter(
                component_other_than(component_id),
            ),
            final(repo).page_rows() == old(repo).page_rows(),
            final(repo).attachment_rows() == old(repo).attachment_rows(),
    {
        match repo.delete_component(component_id) {
            Ok(()) => Ok(()),
            Err(_) => Err(CmsPageServiceError::DbError),
        }
    }

    /// The page's components, by ascending position, ties by ascending id.
    pub fn list_component(&self, repo: &CmsRepository, page_id: i64) -> (r: Result<
        Vec<ListComponentModel>,
        CmsPageServiceError,
    >)
        requires
            repo.wf(),
        ensures
            r is Ok,
            sorted_listing(r->Ok_0@),
            forall|m: int|
                0 <= m < r->Ok_0@.len() ==> shows_component_of(
                    repo.component_rows(),
                    repo.component_rows().len() as int,
                    page_id,
                    #[trigger] r->Ok_0@[m],
                ),
            forall|k: int|
                0 <= k < repo.component_rows().len() && repo.component_rows()[k].page_id
                    == page_id ==> listed_in(r->Ok_0@, #[trigger] repo.component_rows()[k]),
    {
        match repo.list_component(page_id) {
            Ok(list) => Ok(list),
            Err(_) => Err(CmsPageServiceError::DbError),
        }
    }
}

} // verus!
