use crate::data_model::{
    FetchPageModel, ListComponentModel, ListPageModel, ReturningIdModel, UpdatePageModel,
};
use crate::dispatch::{check_page, page_permission, permission_error, CmsRequestError};
use crate::form::{AddPageForm, AmendPageForm};
use crate::page_service::CmsPageService;
use crate::permission::{Role, UserPointer};
use crate::repository::{
    find_page, listed_in, lists_page, shows_component_of, sorted_listing, with_page_fields,
    CmsRepository,
};
use crate::status::CmsPageStatus;
use vstd::prelude::*;

verus! {

/// A page of the listing, with whether the acting user may amend it.
#[derive(Debug, Clone)]
pub struct PageListEntry {
    pub page: ListPageModel,
    pub editable: bool,
}

/// An admin may amend every page, a user the pages they wrote.
pub open spec fn may_amend(user: UserPointer, author: i64) -> bool {
    user.role == Role::Admin || user.id == author
}

/// Every page, in the order they were stored, each marked with whether the user may amend it.
pub fn cms_list_page(repo: &CmsRepository, user: UserPointer) -> (r: Result<
    Vec<PageListEntry>,
    CmsRequestError,
>)
    ensures
        r is Ok,
        r->Ok_0@.len() == repo.page_rows().len(),
        forall|m: int|
            0 <= m < r->Ok_0@.len() ==> lists_page((#[trigger] r->Ok_0@[m]).page, repo.page_rows()[m])
                && r->Ok_0@[m].editable == may_amend(user, repo.page_rows()[m].user_id),
{
    let pages = match CmsPageService::new(user).list_page(repo) {
        Ok(pages) => pages,
        Err(_) => {
            return Err(CmsRequestError::Internal);
        },
    };
    let mut out: Vec<PageListEntry> = Vec::new();
    let ghost all = pages@;
    let mut i: usize = 0;
    while i < pages.len()
        invariant
            i <= pages@.len(),
            pages@ == all,
            all.len() == repo.page_rows().len(),
            forall|m: int| 0 <= m < all.len() ==> lists_page(#[trigger] all[m], repo.page_rows()[m]),
            out@.len() == i,
            forall|m: int|
                0 <= m < i ==> lists_page((#[trigger] out@[m]).page, repo.page_rows()[m])
                    && out@[m].editable == may_amend(user, repo.page_rows()[m].user_id),
        decreases pages@.len() - i,
    {
        let page = &pages[i];
        let editable = user.role == Role::Admin || user.id == page.user_id;
        out.push(
            PageListEntry {
                page: ListPageModel {
                    id: page.id,
                    user_id: page.user_id,
                    title: page.title.clone(),
                    added: page.added,
                    updated: page.updated,
                    status: page.status,
                },
                editable,
            },
        );
        i = i + 1;
    }
    Ok(out)
}

/// Stores a new draft page written by the user, at `now`, and returns its id.
pub fn cms_create_page_post(
    repo: &mut CmsRepository,
    user: UserPointer,
    form: &AddPageForm,
    now: i64,
) -> (r: Result<ReturningIdModel, CmsRequestError>)
    requires
        old(repo).wf(),
    ensures
        final(repo).wf(),
        r is Err <==> old(repo).spec_next_page_id() == i64::MAX,
        r is Err ==> r == Err::<ReturningIdModel, _>(CmsRequestError::Internal) && *final(repo)
            == *old(repo),
        r is Ok ==> {
            let p = final(repo).page_rows().last();
            &&& final(repo).page_rows().drop_last() == old(repo).page_rows()
            &&& final(repo).page_rows().len() == old(repo).page_rows().len() + 1
            &&& r->Ok_0.0 == p.id
            &&& p.user_id == user.id
            &&& p.title@ == form.title@
            &&& p.summary@.len() == 0
            &&& p.status == CmsPageStatus::Draft
            &&& p.added == now
            &&& p.updated is None
        },
        final(repo).component_rows() == old(repo).component_rows(),
        final(repo).attachment_rows() == old(repo).attachment_rows(),
{
    match CmsPageService::new(user).add_page(repo, form, now) {
        Ok(id) => Ok(id),
        Err(_) => Err(CmsRequestError::Internal),
    }
}

/// What the amendment view shows: the page's editable fields and its components in order,
/// after checking that the user may amend the page.
pub fn cms_amend_page_get(repo: &CmsRepository, user: UserPointer, page_id: u64) -> (r: Result<
    (FetchPageModel, Vec<ListComponentModel>),
    CmsRequestError,
>)
    requires
        repo.wf(),
    ensures
        match page_permission(*repo, user, page_id) {
            Err(e) => r == Err::<(FetchPageModel, Vec<ListComponentModel>), _>(permission_error(e)),
            Ok(()) => r is Ok,
        },
        r is Ok ==> {
            &&& find_page(repo.page_rows(), page_id as i64) matches Some(p)
            &&& r->Ok_0.0.id == p.id
            &&& r->Ok_0.0.title@ == p.title@
            &&& r->Ok_0.0.summary@ == p.summary@
            &&& r->Ok_0.0.status == p.status
            &&& sorted_listing(r->Ok_0.1@)
            &&& forall|m: int|
                0 <= m < r->Ok_0.1@.len() ==> shows_component_of(
                    repo.component_rows(),
                    repo.component_rows().len() as int,
                    page_id as i64,
                    #[trigger] r->Ok_0.1@[m],
                )
            &&& forall|k: int|
                0 <= k < repo.component_rows().len() && repo.component_rows()[k].page_id
                    == page_id as i64 ==> listed_in(r->Ok_0.1@, #[trigger] repo.component_rows()[k])
        },
{
    check_page(repo, user, page_id)?;
    let service = CmsPageService::new(user);
    let page = match service.fetch_page(repo, page_id as i64) {
        Ok(page) => page,
        Err(_) => {
            return Err(CmsRequestError::NotFound);
        },
    };
    match service.list_component(repo, page_id as i64) {
        Ok(list) => Ok((page, list)),
        Err(_) => Err(CmsRequestError::Internal),
    }
}

/// Sets the title, summary and status of a page, at `now`, after checking that the user may
/// amend it.
pub fn cms_amend_page_post(
    repo: &mut CmsRepository,
    user: UserPointer,
    page_id: u64,
    form: &AmendPageForm,
    now: i64,
) -> (r: Result<(), CmsRequestError>)
    requires
        old(repo).wf(),
    ensures
        final(repo).wf(),
        final(repo).component_rows() == old(repo).component_rows(),
        final(repo).attachment_rows() == old(repo).attachment_rows(),
        match page_permission(*old(repo), user, page_id) {
            Err(e) => r == Err::<(), _>(permission_error(e)) && *final(repo) == *old(repo),
            Ok(()) => r is Ok && exists|m: UpdatePageModel|
                m.id == page_id as i64 && m.title@ == form.title@ && m.summary@ == form.summary@
                    && m.status == form.status && final(repo).page_rows() == with_page_fields(
                    old(repo).page_rows(),
                    m,
                    now,
                ),
        },
{
    check_page(repo, user, page_id)?;
    match CmsPageService::new(user).update_page(repo, page_id as i64, form, now) {
        Ok(()) => Ok(()),
        Err(_) => Err(CmsRequestError::Internal),
    }
}

} // verus!
