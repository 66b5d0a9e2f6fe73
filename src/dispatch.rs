use crate::attachment_service::CmsAttachmentService;
use crate::component::{
    CmsComponentInfo, ComponentDataMarker, FileAttachmentsComponent, MarkdownComponent,
    MarkdownView,
};
use crate::data_model::{FetchComponentModel, ListComponentModel};
use crate::form::{CommonLabelForm, ComponentPositionForm, MarkdownForm};
use crate::label_service::CommonLabelService;
use crate::markdown_service::{markdown_payload, MarkdownComponentService};
use crate::page_service::{apply_positions, CmsPageService};
use crate::permission::{
    permission_outcome, CmsPermissionCheckService, CmsPermissionCheckServiceError, UserPointer,
};
use crate::query::{CreateQuery, UpdateFetchQuery};
use crate::registry::{lemma_kind_index, ComponentKind, Registry};
use crate::repository::{
    appended_component, attached_to, component_author, component_other_than, find_component,
    listed_in, not_attached_to, page_author, relabelled_component, shows_component_of,
    sorted_listing, CmsRepository,
};
use vstd::prelude::*;

verus! {

/// What a request to the component pipeline can fail with.
#[derive(Debug, Clone, Copy, PartialEq, Eq, Structural)]
pub enum CmsRequestError {
    /// No such page, component or kind.
    NotFound,
    /// The acting user does not own the page.
    Forbidden,
    /// The submitted payload is not of the component's kind.
    BadRequest,
    /// A storage or codec fault; shown to the caller only as a server failure.
    Internal,
}

impl CmsRequestError {
    pub open spec fn spec_status_code(self) -> u16 {
        match self {
            CmsRequestError::NotFound => 404,
            CmsRequestError::Forbidden => 403,
            CmsRequestError::BadRequest => 400,
            CmsRequestError::Internal => 500,
        }
    }

    /// The HTTP status that the boundary answers with.
    pub fn status_code(&self) -> (r: u16)
        ensures
            r == self.spec_status_code(),
    {
        match self {
            CmsRequestError::NotFound => 404,
            CmsRequestError::Forbidden => 403,
            CmsRequestError::BadRequest => 400,
            CmsRequestError::Internal => 500,
        }
    }
}

/// The request error that a failed ownership check answers with.
pub open spec fn permission_error(e: CmsPermissionCheckServiceError) -> CmsRequestError {
    match e {
        CmsPermissionCheckServiceError::NoPermission => CmsRequestError::Forbidden,
        CmsPermissionCheckServiceError::NotFound => CmsRequestError::NotFound,
        CmsPermissionCheckServiceError::DbError => CmsRequestError::Internal,
    }
}

fn to_request_error(e: CmsPermissionCheckServiceError) -> (r: CmsRequestError)
    ensures
        r == permission_error(e),
{
    match e {
        CmsPermissionCheckServiceError::NoPermission => CmsRequestError::Forbidden,
        CmsPermissionCheckServiceError::NotFound => CmsRequestError::NotFound,
        CmsPermissionCheckServiceError::DbError => CmsRequestError::Internal,
    }
}

/// The ownership check on a page named by an unsigned id.
pub open spec fn page_permission(repo: CmsRepository, user: UserPointer, page_id: u64) -> Result<
    (),
    CmsPermissionCheckServiceError,
> {
    if page_id > i64::MAX {
        Err(CmsPermissionCheckServiceError::NotFound)
    } else {
        permission_outcome(page_author(repo.page_rows(), page_id as i64), user)
    }
}

/// The ownership check on a component named by an unsigned id.
pub open spec fn component_permission(repo: CmsRepository, user: UserPointer, id: u64) -> Result<
    (),
    CmsPermissionCheckServiceError,
> {
    if id > i64::MAX {
        Err(CmsPermissionCheckServiceError::NotFound)
    } else {
        permission_outcome(
            component_author(repo.page_rows(), repo.component_rows(), id as i64),
            user,
        )
    }
}

pub(crate) fn check_page(repo: &CmsRepository, user: UserPointer, page_id: u64) -> (r: Result<
    (),
    CmsRequestError,
>)
    ensures
        match page_permission(*repo, user, page_id) {
            Ok(()) => r is Ok,
            Err(e) => r == Err::<(), _>(permission_error(e)),
        },
{
    if page_id > i64::MAX as u64 {
        return Err(CmsRequestError::NotFound);
    }
    match CmsPermissionCheckService::new(user).check_permission_by_page_id(repo, page_id as i64) {
        Ok(()) => Ok(()),
        Err(e) => Err(to_request_error(e)),
    }
}

fn check_component(repo: &CmsRepository, user: UserPointer, id: u64) -> (r: Result<
    (),
    CmsRequestError,
>)
    ensures
        match component_permission(*repo, user, id) {
            Ok(()) => r is Ok,
            Err(e) => r == Err::<(), _>(permission_error(e)),
        },
{
    if id > i64::MAX as u64 {
        return Err(CmsRequestError::NotFound);
    }
    match CmsPermissionCheckService::new(user).check_permission_by_component_id(repo, id as i64) {
        Ok(()) => Ok(()),
        Err(e) => Err(to_request_error(e)),
    }
}

/// The label a new component of the kind starts with.
pub open spec fn initial_label(kind: ComponentKind) -> Seq<char> {
    match kind {
        ComponentKind::Markdown => "Markdown"@,
        ComponentKind::FileAttachments => "File Attachments"@,
    }
}

/// The payload a new component of the kind starts with.
pub open spec fn initial_payload(kind: ComponentKind) -> Seq<u8> {
    match kind {
        ComponentKind::Markdown => markdown_payload("Hello World"@),
        ComponentKind::FileAttachments => Seq::empty(),
    }
}

/// Resolves a create request: checks that the user may change the page, finds the kind's
/// handlers, and lets them store a new component with the kind's initial label and payload.
/// Returns the kind's description and the new component's reference.
pub fn dispatch_create(
    registry: &Registry,
    repo: &mut CmsRepository,
    user: UserPointer,
    query: &CreateQuery,
) -> (r: Result<(CmsComponentInfo, UpdateFetchQuery), CmsRequestError>)
    requires
        old(repo).wf(),
        registry.wf(),
    ensures
        final(repo).wf(),
        r is Err ==> *final(repo) == *old(repo),
        page_permission(*old(repo), user, query.page_id) matches Err(e) ==> r == Err::<
            (CmsComponentInfo, UpdateFetchQuery),
            _,
        >(permission_error(e)),
        page_permission(*old(repo), user, query.page_id) is Ok && registry.spec_lookup(
            query.kind_uuid@,
        ) is None ==> r == Err::<(CmsComponentInfo, UpdateFetchQuery), _>(
            CmsRequestError::NotFound,
        ),
        page_permission(*old(repo), user, query.page_id) is Ok && registry.spec_lookup(
            query.kind_uuid@,
        ) is Some && old(repo).spec_next_component_id() == i64::MAX ==> r is Err,
        page_permission(*old(repo), user, query.page_id) is Ok && old(repo).spec_next_component_id()
            < i64::MAX ==> match registry.spec_lookup(query.kind_uuid@) {
            Some(m) => r is Ok,
            None => true,
        },
        r is Ok ==> {
            &&& page_permission(*old(repo), user, query.page_id) is Ok
            &&& registry.spec_lookup(query.kind_uuid@) matches Some(m)
            &&& r->Ok_0.0.kind@ == m.info.kind@
            &&& r->Ok_0.0.kind_uuid@ == query.kind_uuid@
            &&& r->Ok_0.1.kind_uuid@ == query.kind_uuid@
            &&& r->Ok_0.1.id == old(repo).spec_next_component_id()
            &&& appended_component(
                old(repo).component_rows(),
                final(repo).component_rows(),
                old(repo).spec_next_component_id(),
                query.page_id as i64,
                query.kind_uuid@,
                initial_label(m.kind),
                initial_payload(m.kind),
            )
        },
        final(repo).page_rows() == old(repo).page_rows(),
        final(repo).attachment_rows() == old(repo).attachment_rows(),
{
    check_page(repo, user, query.page_id)?;
    let item = match registry.lookup(&query.kind_uuid) {
        Some(item) => item,
        None => {
            return Err(CmsRequestError::NotFound);
        },
    };
    proof {
        lemma_kind_index(registry.entries(), query.kind_uuid@);
    }
    let info = item.info.clone_info();
    match item.kind {
        ComponentKind::Markdown => {
            let form = MarkdownForm { label: "Markdown".to_string(), markdown: "Hello World".to_string() };
            match MarkdownComponentService::new(item.info.clone_info()).create_component(repo, query, &form) {
                Ok(q) => Ok((info, q)),
                Err(_) => Err(CmsRequestError::Internal),
            }
        },
        ComponentKind::FileAttachments => {
            let form = CommonLabelForm { label: "File Attachments".to_string() };
            match CommonLabelService::new(item.info.clone_info()).create_component(repo, query, &form) {
                Ok(q) => Ok((info, q)),
                Err(_) => Err(CmsRequestError::Internal),
            }
        },
    }
}

/// A decoded payload, tagged with its kind.
#[derive(Debug, Clone)]
pub enum ComponentPayload {
    Markdown(MarkdownComponent),
    FileAttachments(FileAttachmentsComponent),
}

/// A submitted, already validated update, tagged with its kind.
#[derive(Debug, Clone)]
pub enum ComponentForm {
    Markdown(MarkdownForm),
    FileAttachments(CommonLabelForm),
}

impl ComponentForm {
    pub open spec fn spec_kind(&self) -> ComponentKind {
        match self {
            ComponentForm::Markdown(_) => ComponentKind::Markdown,
            ComponentForm::FileAttachments(_) => ComponentKind::FileAttachments,
        }
    }

    pub open spec fn spec_label(&self) -> Seq<char> {
        match self {
            ComponentForm::Markdown(f) => f.label@,
            ComponentForm::FileAttachments(f) => f.label@,
        }
    }

    /// The bytes the form's payload is stored as.
    pub open spec fn spec_payload(&self) -> Seq<u8> {
        match self {
            ComponentForm::Markdown(f) => markdown_payload(f.markdown@),
            ComponentForm::FileAttachments(_) => Seq::empty(),
        }
    }
}

fn stored_kind_matches(repo: &CmsRepository, id: u64, kind_uuid: &String) -> (r: bool)
    requires
        id <= i64::MAX,
    ensures
        r == (find_component(repo.component_rows(), id as i64) matches Some(c) && c.kind_uuid@
            == kind_uuid@),
{
    match repo.fetch_component_kind(id as i64) {
        Ok(Some(k)) => k == *kind_uuid,
        _ => false,
    }
}

/// Resolves a fetch request: checks that the user may change the component, finds the
/// kind's handlers, and decodes the stored payload with the codec of the component's own
/// kind. A component stored under another kind than the request names is not found.
pub fn dispatch_fetch(
    registry: &Registry,
    repo: &CmsRepository,
    user: UserPointer,
    query: &UpdateFetchQuery,
) -> (r: Result<(CmsComponentInfo, FetchComponentModel<ComponentPayload>), CmsRequestError>)
    requires
        registry.wf(),
    ensures
        component_permission(*repo, user, query.id) matches Err(e) ==> r == Err::<
            (CmsComponentInfo, FetchComponentModel<ComponentPayload>),
            _,
        >(permission_error(e)),
        query.id > i64::MAX || find_component(repo.component_rows(), query.id as i64) is None
            ==> r == Err::<(CmsComponentInfo, FetchComponentModel<ComponentPayload>), _>(
            CmsRequestError::NotFound,
        ),
        component_permission(*repo, user, query.id) is Ok && registry.spec_lookup(
            query.kind_uuid@,
        ) is None ==> r == Err::<(CmsComponentInfo, FetchComponentModel<ComponentPayload>), _>(
            CmsRequestError::NotFound,
        ),
        component_permission(*repo, user, query.id) is Ok ==> match find_component(
            repo.component_rows(),
            query.id as i64,
        ) {
            Some(c) => c.kind_uuid@ != query.kind_uuid@ ==> r == Err::<
                (CmsComponentInfo, FetchComponentModel<ComponentPayload>),
                _,
            >(CmsRequestError::NotFound),
            None => true,
        },
        r is Err ==> r->Err_0 != CmsRequestError::BadRequest,
        r is Ok ==> {
            &&& component_permission(*repo, user, query.id) is Ok
            &&& registry.spec_lookup(query.kind_uuid@) matches Some(m)
            &&& find_component(repo.component_rows(), query.id as i64) matches Some(c)
            &&& c.kind_uuid@ == query.kind_uuid@
            &&& r->Ok_0.0.kind@ == m.info.kind@
            &&& r->Ok_0.0.kind_uuid@ == m.info.kind_uuid@
            &&& r->Ok_0.1.label@ == c.label@
            &&& r->Ok_0.1.position == c.position
            &&& (m.kind == ComponentKind::Markdown <==> r->Ok_0.1.raw_data is Markdown)
        },
        component_permission(*repo, user, query.id) is Ok ==> match (
            registry.spec_lookup(query.kind_uuid@),
            find_component(repo.component_rows(), query.id as i64),
        ) {
            (Some(m), Some(c)) => c.kind_uuid@ == query.kind_uuid@ ==> match m.kind {
                ComponentKind::Markdown => forall|v: MarkdownView|
                    MarkdownComponent::round_trips(v) && #[trigger] MarkdownComponent::encoded(v)
                        == c.raw_data@ ==> r is Ok && (
                    r->Ok_0.1.raw_data matches ComponentPayload::Markdown(p) && p@ == v),
                ComponentKind::FileAttachments => r is Ok,
            },
            _ => true,
        },
{
    check_component(repo, user, query.id)?;
    let item = match registry.lookup(&query.kind_uuid) {
        Some(item) => item,
        None => {
            return Err(CmsRequestError::NotFound);
        },
    };
    if !stored_kind_matches(repo, query.id, &query.kind_uuid) {
        return Err(CmsRequestError::NotFound);
    }
    let info = item.info.clone_info();
    match item.kind {
        ComponentKind::Markdown => {
            match MarkdownComponentService::new(item.info.clone_info()).fetch_component(repo, query) {
                Ok(m) => Ok(
                    (
                        info,
                        FetchComponentModel {
                            label: m.label,
                            position: m.position,
                            raw_data: ComponentPayload::Markdown(m.raw_data),
                        },
                    ),
                ),
                Err(_) => Err(CmsRequestError::Internal),
            }
        },
        ComponentKind::FileAttachments => {
            match CommonLabelService::new(item.info.clone_info()).fetch_component(repo, query) {
                Ok(m) => Ok(
                    (
                        info,
                        FetchComponentModel {
                            label: m.label,
                            position: m.position,
                            raw_data: ComponentPayload::FileAttachments(m.raw_data),
                        },
                    ),
                ),
                Err(_) => Err(CmsRequestError::NotFound),
            }
        },
    }
}

/// Resolves an update request: checks that the user may change the component, finds the
/// kind's handlers, and stores the submitted label and payload. A component stored under
/// another kind than the request names is not found; a form of another kind is refused.
pub fn dispatch_update(
    registry: &Registry,
    repo: &mut CmsRepository,
    user: UserPointer,
    query: &UpdateFetchQuery,
    form: &ComponentForm,
) -> (r: Result<CmsComponentInfo, CmsRequestError>)
    requires
        old(repo).wf(),
        registry.wf(),
    ensures
        final(repo).wf(),
        final(repo).page_rows() == old(repo).page_rows(),
        final(repo).attachment_rows() == old(repo).attachment_rows(),
        r is Err ==> *final(repo) == *old(repo),
        component_permission(*old(repo), user, query.id) matches Err(e) ==> r == Err::<
            CmsComponentInfo,
            _,
        >(permission_error(e)),
        component_permission(*old(repo), user, query.id) is Ok && registry.spec_lookup(
            query.kind_uuid@,
        ) is None ==> r == Err::<CmsComponentInfo, _>(CmsRequestError::NotFound),
        component_permission(*old(repo), user, query.id) is Ok ==> match (
            registry.spec_lookup(query.kind_uuid@),
            find_component(old(repo).component_rows(), query.id as i64),
        ) {
            (Some(m), Some(c)) => if c.kind_uuid@ != query.kind_uuid@ {
                r == Err::<CmsComponentInfo, _>(CmsRequestError::NotFound)
            } else if form.spec_kind() != m.kind {
                r == Err::<CmsComponentInfo, _>(CmsRequestError::BadRequest)
            } else {
                r is Ok
            },
            _ => true,
        },
        r is Ok ==> {
            &&& component_permission(*old(repo), user, query.id) is Ok
            &&& registry.spec_lookup(query.kind_uuid@) matches Some(m)
            &&& r->Ok_0.kind@ == m.info.kind@
            &&& r->Ok_0.kind_uuid@ == m.info.kind_uuid@
            &&& form.spec_kind() == m.kind
            &&& relabelled_component(
                old(repo).component_rows(),
                final(repo).component_rows(),
                query.id as i64,
                form.spec_label(),
                form.spec_payload(),
            )
        },
{
    check_component(repo, user, query.id)?;
    let item = match registry.lookup(&query.kind_uuid) {
        Some(item) => item,
        None => {
            return Err(CmsRequestError::NotFound);
        },
    };
    if !stored_kind_matches(repo, query.id, &query.kind_uuid) {
        return Err(CmsRequestError::NotFound);
    }
    let info = item.info.clone_info();
    match (item.kind, form) {
        (ComponentKind::Markdown, ComponentForm::Markdown(f)) => {
            match MarkdownComponentService::new(item.info.clone_info()).update_component(repo, query, f) {
                Ok(()) => Ok(info),
                Err(_) => Err(CmsRequestError::Internal),
            }
        },
        (ComponentKind::FileAttachments, ComponentForm::FileAttachments(f)) => {
            match CommonLabelService::new(item.info.clone_info()).update_component(repo, query, f) {
                Ok(()) => Ok(info),
                Err(_) => Err(CmsRequestError::Internal),
            }
        },
        _ => Err(CmsRequestError::BadRequest),
    }
}

/// Reorders a page: checks that the user may change it, gives each listed component its new
/// position, pair by pair, and returns the page's components in their new order. The pairs
/// are applied one by one, with no enclosing transaction.
pub fn cms_update_position(
    repo: &mut CmsRepository,
    user: UserPointer,
    page_id: u64,
    component_position_form: &ComponentPositionForm,
) -> (r: Result<Vec<ListComponentModel>, CmsRequestError>)
    requires
        old(repo).wf(),
    ensures
        final(repo).wf(),
        final(repo).page_rows() == old(repo).page_rows(),
        final(repo).attachment_rows() == old(repo).attachment_rows(),
        match page_permission(*old(repo), user, page_id) {
            Err(e) => r == Err::<Vec<ListComponentModel>, _>(permission_error(e)) && *final(repo)
                == *old(repo),
            Ok(()) => r is Ok,
        },
        r is Ok ==> {
            &&& final(repo).component_rows() == apply_positions(
                old(repo).component_rows(),
                page_id as i64,
                component_position_form.mapping@,
            )
            &&& sorted_listing(r->Ok_0@)
            &&& forall|m: int|
                0 <= m < r->Ok_0@.len() ==> shows_component_of(
                    final(repo).component_rows(),
                    final(repo).component_rows().len() as int,
                    page_id as i64,
                    #[trigger] r->Ok_0@[m],
                )
            &&& forall|k: int|
                0 <= k < final(repo).component_rows().len() && final(repo).component_rows()[k].page_id
                    == page_id as i64 ==> listed_in(
                    r->Ok_0@,
                    #[trigger] final(repo).component_rows()[k],
                )
        },
{
    check_page(repo, user, page_id)?;
    let service = CmsPageService::new(user);
    match service.update_component_position(repo, component_position_form, page_id as i64) {
        Ok(()) => {},
        Err(_) => {
            return Err(CmsRequestError::Internal);
        },
    }
    match service.list_component(repo, page_id as i64) {
        Ok(list) => Ok(list),
        Err(_) => Err(CmsRequestError::Internal),
    }
}

/// Deletes a component with its attachments: checks that the user may change it, removes
/// its attachment rows, then its own row, and returns the stored paths of the removed files
/// for the caller to remove from disk.
pub fn cms_delete_component(repo: &mut CmsRepository, user: UserPointer, component_id: u64) -> (r:
    Result<Vec<String>, CmsRequestError>)
    requires
        old(repo).wf(),
    ensures
        final(repo).wf(),
        final(repo).page_rows() == old(repo).page_rows(),
        match component_permission(*old(repo), user, component_id) {
            Err(e) => r == Err::<Vec<String>, _>(permission_error(e)) && *final(repo) == *old(repo),
            Ok(()) => r is Ok,
        },
        r is Ok ==> {
            &&& final(repo).attachment_rows() == old(repo).attachment_rows().filter(
                not_attached_to(component_id as i64),
            )
            &&& final(repo).component_rows() == old(repo).component_rows().filter(
                component_other_than(component_id as i64),
            )
            &&& r->Ok_0@.len() == old(repo).attachment_rows().filter(
                attached_to(component_id as i64),
            ).len()
            &&& forall|m: int|
                0 <= m < r->Ok_0@.len() ==> (#[trigger] r->Ok_0@[m])@ == old(
                    repo,
                ).attachment_rows().filter(attached_to(component_id as i64))[m].file_path@
        },
{
    check_component(repo, user, component_id)?;
    let paths = match CmsAttachmentService::new().delete_file_by_component_id(
        repo,
        component_id as i64,
    ) {
        Ok(paths) => paths,
        Err(_) => {
            return Err(CmsRequestError::Internal);
        },
    };
    match CmsPageService::new(user).delete_component(repo, component_id as i64) {
        Ok(()) => Ok(paths),
        Err(_) => Err(CmsRequestError::Internal),
    }
}

/// The first half of every fetch or update request: checks that the user may change the
/// component, finds the handlers of the kind the request names, and makes sure the component
/// is stored under that kind. Returns the kind's description and handler set.
pub fn resolve_update_fetch(
    registry: &Registry,
    repo: &CmsRepository,
    user: UserPointer,
    query: &UpdateFetchQuery,
) -> (r: Result<(CmsComponentInfo, ComponentKind), CmsRequestError>)
    requires
        registry.wf(),
    ensures
        component_permission(*repo, user, query.id) matches Err(e) ==> r == Err::<
            (CmsComponentInfo, ComponentKind),
            _,
        >(permission_error(e)),
        component_permission(*repo, user, query.id) is Ok ==> match (
            registry.spec_lookup(query.kind_uuid@),
            find_component(repo.component_rows(), query.id as i64),
        ) {
            (Some(m), Some(c)) => if c.kind_uuid@ == query.kind_uuid@ {
                r is Ok && r->Ok_0.0.kind@ == m.info.kind@ && r->Ok_0.0.kind_uuid@
                    == m.info.kind_uuid@ && r->Ok_0.1 == m.kind
            } else {
                r == Err::<(CmsComponentInfo, ComponentKind), _>(CmsRequestError::NotFound)
            },
            _ => r == Err::<(CmsComponentInfo, ComponentKind), _>(CmsRequestError::NotFound),
        },
{
    check_component(repo, user, query.id)?;
    let item = match registry.lookup(&query.kind_uuid) {
        Some(item) => item,
        None => {
            return Err(CmsRequestError::NotFound);
        },
    };
    if !stored_kind_matches(repo, query.id, &query.kind_uuid) {
        return Err(CmsRequestError::NotFound);
    }
    Ok((item.info.clone_info(), item.kind))
}

/// The first half of an upload to, or a file deletion from, a file-attachment component:
/// resolves the request as `resolve_update_fetch` does, and refuses a component of another
/// kind with `BadRequest`.
pub fn resolve_attachment_request(
    registry: &Registry,
    repo: &CmsRepository,
    user: UserPointer,
    query: &UpdateFetchQuery,
) -> (r: Result<CmsComponentInfo, CmsRequestError>)
    requires
        registry.wf(),
    ensures
        component_permission(*repo, user, query.id) matches Err(e) ==> r == Err::<
            CmsComponentInfo,
            _,
        >(permission_error(e)),
        component_permission(*repo, user, query.id) is Ok ==> match (
            registry.spec_lookup(query.kind_uuid@),
            find_component(repo.component_rows(), query.id as i64),
        ) {
            (Some(m), Some(c)) => if c.kind_uuid@ != query.kind_uuid@ {
                r == Err::<CmsComponentInfo, _>(CmsRequestError::NotFound)
            } else if m.kind != ComponentKind::FileAttachments {
                r == Err::<CmsComponentInfo, _>(CmsRequestError::BadRequest)
            } else {
                r is Ok && r->Ok_0.kind@ == m.info.kind@ && r->Ok_0.kind_uuid@
                    == m.info.kind_uuid@
            },
            _ => r == Err::<CmsComponentInfo, _>(CmsRequestError::NotFound),
        },
{
    let (info, kind) = resolve_update_fetch(registry, repo, user, query)?;
    match kind {
        ComponentKind::FileAttachments => Ok(info),
        ComponentKind::Markdown => Err(CmsRequestError::BadRequest),
    }
}

} // verus!
